//! A device as the sizing of base address registers meets it: sixteen
//! registers of which the base address registers keep the bits that the
//! device has wired. Against it the sizing is shown to leave every base
//! address register as it found it.
use super::probe::{bar_offset, decoding_off, decoding_on, BarProbe, ProbeStage};
use super::{config_address, ConfigAccess, PciConfigSpace};
use vstd::prelude::*;

verus! {

/// The number of the register that an access with address `address`
/// reaches, where `base` is the address of register 0.
pub open spec fn register_index(base: u32, address: u32) -> int {
    (address - base) / 4
}

/// The registers after `value` was written to register `index`: a base
/// address register takes the bits that can be written, listed in
/// `writable`, and keeps the others; any other register takes the value.
pub open spec fn written(registers: Seq<u32>, writable: Seq<u32>, index: int, value: u32) -> Seq<
    u32,
> {
    if 4 <= index < 10 {
        registers.update(
            index,
            (registers[index] & !writable[index - 4]) | (value & writable[index - 4]),
        )
    } else {
        registers.update(index, value)
    }
}

/// The registers after one access, with the value last read: a read
/// returns the register, a write changes it.
pub open spec fn respond(
    registers: Seq<u32>,
    writable: Seq<u32>,
    base: u32,
    access: ConfigAccess,
    value: u32,
) -> (Seq<u32>, u32) {
    match access {
        ConfigAccess::Read { address } => (registers, registers[register_index(base, address)]),
        ConfigAccess::Write { address, value: new } => (
            written(registers, writable, register_index(base, address), new),
            value,
        ),
    }
}

/// The registers after the first `count` of `accesses`, with the value
/// last read.
pub open spec fn respond_to(
    registers: Seq<u32>,
    writable: Seq<u32>,
    base: u32,
    accesses: Seq<ConfigAccess>,
    value: u32,
    count: int,
) -> (Seq<u32>, u32)
    decreases count,
{
    if count <= 0 {
        (registers, value)
    } else {
        let before = respond_to(registers, writable, base, accesses, value, count - 1);
        respond(before.0, writable, base, accesses[count - 1], before.1)
    }
}

/// The access reaches one of the sixteen registers behind `base`.
pub open spec fn reaches_header(base: u32, access: ConfigAccess) -> bool {
    let address = match access {
        ConfigAccess::Read { address } => address,
        ConfigAccess::Write { address, value } => address,
    };
    base <= address < base + 64 && (address - base) % 4 == 0
}

/// What a base address register reads after all ones were written to it.
pub open spec fn all_ones_written(original: u32, writable: u32) -> u32 {
    (original & !writable) | (0xFFFF_FFFFu32 & writable)
}

/// How far a sizing that started on registers `origin` has come when the
/// registers are `registers`, the sizing waits as `probe` says, and the
/// last read returned `value`: the registers that the sizing does not touch
/// are as they were; decoding is off until the end and on at the end; and
/// every base address register holds its original value, but for the one or
/// two that are being sized, whose original values the sizing has noted.
pub open spec fn on_track(
    origin: Seq<u32>,
    writable: Seq<u32>,
    registers: Seq<u32>,
    probe: BarProbe,
    value: u32,
) -> bool {
    let slot = probe.slot as int;
    &&& origin.len() == 16
    &&& registers.len() == 16
    &&& writable.len() == 6
    &&& probe.wf()
    &&& forall|k: int|
        0 <= k < 16 && k != 1 && !(4 <= k < 10) ==> #[trigger] registers[k] == origin[k]
    &&& probe.stage != ProbeStage::Command ==> probe.command == origin[1]
    &&& match probe.stage {
        ProbeStage::Command => registers == origin && value == origin[1],
        ProbeStage::Original => {
            &&& registers[1] == decoding_off(origin[1])
            &&& forall|k: int| 4 <= k < 10 ==> #[trigger] registers[k] == origin[k]
            &&& value == origin[4 + slot]
        },
        ProbeStage::Size => {
            &&& registers[1] == decoding_off(origin[1])
            &&& forall|k: int| 4 <= k < 10 && k != 4 + slot ==> #[trigger] registers[k] == origin[k]
            &&& probe.original == origin[4 + slot]
            &&& registers[4 + slot] == all_ones_written(origin[4 + slot], writable[slot])
            &&& value == registers[4 + slot]
        },
        ProbeStage::UpperOriginal => {
            &&& registers[1] == decoding_off(origin[1])
            &&& forall|k: int| 4 <= k < 10 ==> #[trigger] registers[k] == origin[k]
            &&& probe.original == origin[4 + slot]
            &&& value == origin[5 + slot]
        },
        ProbeStage::LowSize => {
            &&& registers[1] == decoding_off(origin[1])
            &&& forall|k: int|
                4 <= k < 10 && k != 4 + slot && k != 5 + slot ==> #[trigger] registers[k]
                    == origin[k]
            &&& probe.original == origin[4 + slot]
            &&& probe.upper_original == origin[5 + slot]
            &&& registers[4 + slot] == all_ones_written(origin[4 + slot], writable[slot])
            &&& registers[5 + slot] == all_ones_written(origin[5 + slot], writable[slot + 1])
            &&& value == registers[4 + slot]
        },
        ProbeStage::UpperSize => {
            &&& registers[1] == decoding_off(origin[1])
            &&& forall|k: int|
                4 <= k < 10 && k != 4 + slot && k != 5 + slot ==> #[trigger] registers[k]
                    == origin[k]
            &&& probe.original == origin[4 + slot]
            &&& probe.upper_original == origin[5 + slot]
            &&& registers[4 + slot] == all_ones_written(origin[4 + slot], writable[slot])
            &&& registers[5 + slot] == all_ones_written(origin[5 + slot], writable[slot + 1])
            &&& value == registers[5 + slot]
        },
        ProbeStage::Done => {
            &&& registers[1] == decoding_on(origin[1])
            &&& forall|k: int| 4 <= k < 10 ==> #[trigger] registers[k] == origin[k]
        },
    }
}

/// How many steps a sizing has before it at most.
pub open spec fn steps_left(probe: BarProbe) -> int {
    match probe.stage {
        ProbeStage::Command => 100,
        ProbeStage::Original => (6 - probe.slot) * 10 + 9,
        ProbeStage::UpperOriginal => (6 - probe.slot) * 10 + 8,
        ProbeStage::LowSize => (6 - probe.slot) * 10 + 7,
        ProbeStage::UpperSize => (6 - probe.slot) * 10 + 6,
        ProbeStage::Size => (6 - probe.slot) * 10 + 5,
        ProbeStage::Done => 0,
    }
}

/// Writing a register's original value back after all ones were written
/// brings the original value back.
proof fn lemma_restored(original: u32, writable: u32)
    ensures
        (all_ones_written(original, writable) & !writable) | (original & writable) == original,
        (original & !writable) | (original & writable) == original,
{
    assert((((original & !writable) | (0xFFFF_FFFFu32 & writable)) & !writable) | (original
        & writable) == original) by (bit_vector);
    assert((original & !writable) | (original & writable) == original) by (bit_vector);
}

/// The address of a register of a device is the address of its register 0
/// plus the offset.
proof fn lemma_address(config: PciConfigSpace, offset: u32)
    requires
        config.wf(),
        offset < 256,
    ensures
        config.address_of(offset) == config.address_of(0) + offset,
        config.address_of(0) + 255 <= u32::MAX,
{
    let bus = config.bus() as u32;
    let device = config.device() as u32;
    let base = 0x8000_0000u32 | (bus << 16) | (device << 11);
    assert(base <= 0x80FF_FFFFu32) by (bit_vector)
        requires
            base == 0x8000_0000u32 | (bus << 16) | (device << 11),
            bus < 256,
            device < 32,
    ;
}

/// What one, two and three accesses do, spelled out.
proof fn lemma_respond_to_few(
    registers: Seq<u32>,
    writable: Seq<u32>,
    base: u32,
    accesses: Seq<ConfigAccess>,
    value: u32,
)
    ensures
        accesses.len() == 0 ==> respond_to(registers, writable, base, accesses, value, 0) == (
            registers,
            value,
        ),
        accesses.len() == 1 ==> respond_to(registers, writable, base, accesses, value, 1)
            == respond(registers, writable, base, accesses[0], value),
        accesses.len() == 2 ==> respond_to(registers, writable, base, accesses, value, 2) == ({
            let first = respond(registers, writable, base, accesses[0], value);
            respond(first.0, writable, base, accesses[1], first.1)
        }),
        accesses.len() == 3 ==> respond_to(registers, writable, base, accesses, value, 3) == ({
            let first = respond(registers, writable, base, accesses[0], value);
            let second = respond(first.0, writable, base, accesses[1], first.1);
            respond(second.0, writable, base, accesses[2], second.1)
        }),
{
    reveal_with_fuel(respond_to, 4);
}

/// A device of sixteen registers whose base address registers keep the
/// bits that the device has wired.
pub struct SimulatedDevice {
    registers: [u32; 16],
    writable: [u32; 6],
}

impl SimulatedDevice {
    /// What the sixteen registers hold.
    pub closed spec fn registers(&self) -> Seq<u32> {
        self.registers@
    }

    /// For each base address register, the bits that can be written.
    pub closed spec fn writable(&self) -> Seq<u32> {
        self.writable@
    }

    /// The device whose registers hold `registers` and whose base address
    /// registers take the bits of `writable`.
    pub fn new(registers: [u32; 16], writable: [u32; 6]) -> (device: Self)
        ensures
            device.registers() == registers@,
            device.writable() == writable@,
    {
        Self { registers, writable }
    }

    /// What the sixteen registers hold.
    pub fn header(&self) -> (registers: [u32; 16])
        ensures
            registers@ == self.registers(),
    {
        self.registers
    }

    /// Makes one access to the device that `config` is the header of, and
    /// returns what was read, if it was a read.
    pub fn access(&mut self, config: &PciConfigSpace, access: ConfigAccess) -> (read: Option<u32>)
        requires
            config.wf(),
            reaches_header(config.address_of(0), access),
        ensures
            final(self).writable() == old(self).writable(),
            match access {
                ConfigAccess::Read { address } => final(self).registers() == old(self).registers()
                    && read == Some(
                    old(self).registers()[register_index(config.address_of(0), address)],
                ),
                ConfigAccess::Write { address, value } => final(self).registers() == written(
                    old(self).registers(),
                    old(self).writable(),
                    register_index(config.address_of(0), address),
                    value,
                ) && read.is_none(),
            },
    {
        let base = config.get_base_addr();
        match access {
            ConfigAccess::Read { address } => {
                let index = ((address - base) / 4) as usize;
                Some(self.registers[index])
            },
            ConfigAccess::Write { address, value } => {
                let index = ((address - base) / 4) as usize;
                if 4 <= index && index < 10 {
                    let writable = self.writable[index - 4];
                    let kept = self.registers[index] & !writable;
                    self.registers[index] = kept | (value & writable);
                } else {
                    self.registers[index] = value;
                }
                None
            },
        }
    }

    /// Sizes the base address registers of the device, whose header
    /// `config` is, from beginning to end. After it every base address
    /// register holds its original value, the command register has decoding
    /// of I/O and memory accesses and bus mastering switched on, no other
    /// register has changed, and the header knows the registers as they are.
    pub fn size_base_address_registers(&mut self, config: &mut PciConfigSpace)
        requires
            old(config).wf(),
        ensures
            final(config).wf(),
            final(config).bus() == old(config).bus(),
            final(config).device() == old(config).device(),
            final(self).writable() == old(self).writable(),
            final(self).registers()[1] == decoding_on(old(self).registers()[1]),
            final(self).registers()[1] & 0x7 == 0x7,
            forall|k: int|
                0 <= k < 16 && k != 1 ==> #[trigger] final(self).registers()[k] == old(self).registers()[k],
    {
        let ghost origin = self.registers();
        let ghost writable = self.writable();
        let ghost base = config.address_of(0);
        proof {
            lemma_address(*config, 4);
        }
        let (first_probe, first) = config.init_bar();
        let mut probe = first_probe;
        let mut value = match self.access(config, first) {
            Some(value) => value,
            None => 0,
        };
        while !probe.is_done()
            invariant
                config.wf(),
                config.bus() == old(config).bus(),
                config.device() == old(config).device(),
                base == config.address_of(0),
                self.writable() == writable,
                on_track(origin, writable, self.registers(), probe, value),
            decreases steps_left(probe),
        {
            let ghost before = *config;
            let ghost registers = self.registers();
            let ghost waiting = probe;
            let ghost read = value;
            let (next, accesses) = config.continue_init_bar(probe, value);
            proof {
                lemma_step_reaches_header(before, waiting, read, *config, next, accesses@);
            }
            let mut position: usize = 0;
            while position < accesses.len()
                invariant
                    position <= accesses@.len(),
                    config.wf(),
                    base == config.address_of(0),
                    self.writable() == writable,
                    forall|k: int|
                        0 <= k < accesses@.len() ==> reaches_header(base, #[trigger] accesses@[k]),
                    (self.registers(), value) == respond_to(
                        registers,
                        writable,
                        base,
                        accesses@,
                        read,
                        position as int,
                    ),
                decreases accesses@.len() - position,
            {
                match self.access(config, accesses[position]) {
                    Some(read) => {
                        value = read;
                    },
                    None => {},
                }
                position = position + 1;
            }
            proof {
                lemma_step_stays_on_track(
                    origin,
                    writable,
                    registers,
                    before,
                    waiting,
                    read,
                    *config,
                    next,
                    accesses@,
                );
            }
            probe = next;
        }
        proof {
            let command = origin[1];
            assert((command | ((0x1u16 | 0x2u16 | 0x4u16) as u32)) & 0x7 == 0x7) by (bit_vector);
        }
    }
}

/// Every access of a step reaches the header of the device.
proof fn lemma_step_reaches_header(
    before: PciConfigSpace,
    probe: BarProbe,
    value: u32,
    after: PciConfigSpace,
    next: BarProbe,
    accesses: Seq<ConfigAccess>,
)
    requires
        before.wf(),
        probe.wf(),
        before.probe_step(probe, value, after, next, accesses),
    ensures
        after.address_of(0) == before.address_of(0),
        forall|k: int|
            0 <= k < accesses.len() ==> reaches_header(before.address_of(0), #[trigger] accesses[k]),
{
    let slot = probe.slot as int;
    lemma_address(before, 4);
    if slot + 1 <= 6 {
        lemma_address(before, bar_offset(slot));
    }
    if slot + 2 <= 6 {
        lemma_address(before, bar_offset(slot + 1));
    }
    if slot + 3 <= 6 {
        lemma_address(before, bar_offset(slot + 2));
    }
    lemma_address(before, bar_offset(0));
}

/// A step of the sizing, answered by the device, leaves the sizing on
/// track and nearer to its end.
proof fn lemma_step_stays_on_track(
    origin: Seq<u32>,
    writable: Seq<u32>,
    registers: Seq<u32>,
    before: PciConfigSpace,
    probe: BarProbe,
    value: u32,
    after: PciConfigSpace,
    next: BarProbe,
    accesses: Seq<ConfigAccess>,
)
    requires
        before.wf(),
        probe.stage != ProbeStage::Done,
        on_track(origin, writable, registers, probe, value),
        before.probe_step(probe, value, after, next, accesses),
    ensures
        on_track(
            origin,
            writable,
            respond_to(
                registers,
                writable,
                before.address_of(0),
                accesses,
                value,
                accesses.len() as int,
            ).0,
            next,
            respond_to(
                registers,
                writable,
                before.address_of(0),
                accesses,
                value,
                accesses.len() as int,
            ).1,
        ),
        steps_left(next) < steps_left(probe),
{
    let base = before.address_of(0);
    let slot = probe.slot as int;
    lemma_step_reaches_header(before, probe, value, after, next, accesses);
    lemma_respond_to_few(registers, writable, base, accesses, value);
    lemma_address(before, 4);
    lemma_address(before, bar_offset(0));
    if slot + 1 <= 6 {
        lemma_address(before, bar_offset(slot));
        lemma_restored(origin[4 + slot], writable[slot]);
    }
    if slot + 2 <= 6 {
        lemma_address(before, bar_offset(slot + 1));
        lemma_restored(origin[5 + slot], writable[slot + 1]);
    }
    if slot + 3 <= 6 {
        lemma_address(before, bar_offset(slot + 2));
    }
}

} // verus!
