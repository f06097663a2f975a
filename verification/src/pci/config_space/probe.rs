use super::base_address_register::{
    bar_kind, io_space_bar, kind_of, mmio_32bit_bar, mmio_64bit_bar, parse_32bit_mmio_space_bar,
    parse_64bit_mmio_space_bar, parse_io_space_bar, BarKind, BaseAddressRegister,
};
use super::{ConfigAccess, PciConfigSpace, BUS_MASTER, IO_SPACE, MEMORY_SPACE};
use vstd::prelude::*;

verus! {

/// What the sizing of the base address registers waits for.
#[derive(Debug, Clone, Copy, PartialEq, Eq, Structural)]
pub enum ProbeStage {
    /// The register that holds command and status.
    Command,
    /// The original value of the register at `slot`.
    Original,
    /// What the register at `slot` reads after all ones were written.
    Size,
    /// The original value of the register after `slot`, the upper half of
    /// an address of 64 bits.
    UpperOriginal,
    /// What the register at `slot` reads after all ones were written to it
    /// and to the next.
    LowSize,
    /// What the register after `slot` reads then.
    UpperSize,
    /// Nothing: all six registers are sized and restored.
    Done,
}

/// How far the sizing of the base address registers of one device has come.
#[derive(Debug, Clone, Copy, PartialEq, Eq, Structural)]
pub struct BarProbe {
    pub stage: ProbeStage,
    pub slot: usize,
    pub command: u32,
    pub original: u32,
    pub upper_original: u32,
    pub probed: u32,
}

impl BarProbe {
    /// The slot is one that the stage can wait on.
    pub open spec fn wf(&self) -> bool {
        match self.stage {
            ProbeStage::Command | ProbeStage::Done => true,
            ProbeStage::Original | ProbeStage::Size => self.slot < 6,
            ProbeStage::UpperOriginal | ProbeStage::LowSize | ProbeStage::UpperSize => self.slot
                < 5,
        }
    }

    /// Whether the sizing has come to its end.
    pub fn is_done(&self) -> (done: bool)
        ensures
            done == (self.stage == ProbeStage::Done),
    {
        match self.stage {
            ProbeStage::Done => true,
            _ => false,
        }
    }
}

/// The offset of the base address register at `slot`.
pub open spec fn bar_offset(slot: int) -> u32 {
    (0x10 + 4 * slot) as u32
}

/// The register that holds command and status, with decoding of I/O and
/// memory accesses switched off.
pub open spec fn decoding_off(command: u32) -> u32 {
    command & !((IO_SPACE | MEMORY_SPACE) as u32)
}

/// The register that holds command and status, with decoding of I/O and
/// memory accesses switched on and the device allowed to master the bus.
pub open spec fn decoding_on(command: u32) -> u32 {
    command | ((IO_SPACE | MEMORY_SPACE | BUS_MASTER) as u32)
}

impl PciConfigSpace {
    /// What follows once the registers below `slot` are done: the read of
    /// the register at `slot`, or, after the sixth, the write that switches
    /// decoding on again.
    pub open spec fn turn_to(&self, command: u32, slot: int) -> Seq<ConfigAccess> {
        if slot < 6 {
            seq![ConfigAccess::Read { address: self.address_of(bar_offset(slot)) }]
        } else {
            seq![ConfigAccess::Write { address: self.address_of(4), value: decoding_on(command) }]
        }
    }

    /// The stage that follows once the registers below `slot` are done.
    pub open spec fn stage_at(slot: int) -> ProbeStage {
        if slot < 6 {
            ProbeStage::Original
        } else {
            ProbeStage::Done
        }
    }

    /// The registers as they are known once the registers below `slot` are done.
    pub open spec fn registers_at(registers: Seq<u32>, command: u32, slot: int) -> Seq<u32> {
        if slot < 6 {
            registers
        } else {
            registers.update(1, decoding_on(command))
        }
    }

    /// One step of the sizing: `value` is what the last read returned,
    /// `accesses` are the accesses to make now, of which only the last can be
    /// a read, and `next` is what the sizing then waits for.
    ///
    /// The command register is read and written back with decoding switched
    /// off. Each base address register is read; one that stands for I/O
    /// space, or for memory with an address of 32 bits, has all ones written
    /// to it and is read again for its size, then gets its original value
    /// back. One that stands for memory with an address of 64 bits goes
    /// through the same together with the register after it, which is then
    /// passed over. A register of another kind is written back as it was.
    /// After the sixth register the command register is written with
    /// decoding switched on and bus mastering allowed.
    pub open spec fn probe_step(
        &self,
        probe: BarProbe,
        value: u32,
        after: Self,
        next: BarProbe,
        accesses: Seq<ConfigAccess>,
    ) -> bool {
        let slot = probe.slot as int;
        let here = self.address_of(bar_offset(slot));
        let above = self.address_of(bar_offset(slot + 1));
        &&& after.bus() == self.bus()
        &&& after.device() == self.device()
        &&& after.vendor() == self.vendor()
        &&& after.model() == self.model()
        &&& next.wf()
        &&& match probe.stage {
            ProbeStage::Command => {
                &&& next == (BarProbe {
                    stage: ProbeStage::Original,
                    slot: 0,
                    command: value,
                    ..probe
                })
                &&& accesses == seq![
                    ConfigAccess::Write { address: self.address_of(4), value: decoding_off(value) },
                    ConfigAccess::Read { address: self.address_of(bar_offset(0)) },
                ]
                &&& after.registers() == self.registers().update(1, decoding_off(value))
                &&& after.windows() == self.windows()
            },
            ProbeStage::Original => match bar_kind(value) {
                BarKind::Io | BarKind::Memory32 => {
                    &&& next == (BarProbe { stage: ProbeStage::Size, original: value, ..probe })
                    &&& accesses == seq![
                        ConfigAccess::Write { address: here, value: 0xFFFF_FFFF },
                        ConfigAccess::Read { address: here },
                    ]
                    &&& after.registers() == self.registers().update(4 + slot, value)
                    &&& after.windows() == self.windows()
                },
                BarKind::Memory64 => if slot < 5 {
                    &&& next == (BarProbe {
                        stage: ProbeStage::UpperOriginal,
                        original: value,
                        ..probe
                    })
                    &&& accesses == seq![ConfigAccess::Read { address: above }]
                    &&& after.registers() == self.registers().update(4 + slot, value)
                    &&& after.windows() == self.windows()
                } else {
                    &&& next == (BarProbe {
                        stage: Self::stage_at(slot + 1),
                        slot: (slot + 1) as usize,
                        original: value,
                        ..probe
                    })
                    &&& accesses == seq![ConfigAccess::Write { address: here, value }]
                        + self.turn_to(probe.command, slot + 1)
                    &&& after.registers() == Self::registers_at(
                        self.registers().update(4 + slot, value),
                        probe.command,
                        slot + 1,
                    )
                    &&& after.windows() == self.windows()
                },
                BarKind::Unknown => {
                    &&& next == (BarProbe {
                        stage: Self::stage_at(slot + 1),
                        slot: (slot + 1) as usize,
                        original: value,
                        ..probe
                    })
                    &&& accesses == seq![ConfigAccess::Write { address: here, value }]
                        + self.turn_to(probe.command, slot + 1)
                    &&& after.registers() == Self::registers_at(
                        self.registers().update(4 + slot, value),
                        probe.command,
                        slot + 1,
                    )
                    &&& after.windows() == self.windows()
                },
            },
            ProbeStage::Size => {
                &&& next == (BarProbe {
                    stage: Self::stage_at(slot + 1),
                    slot: (slot + 1) as usize,
                    probed: value,
                    ..probe
                })
                &&& accesses == seq![ConfigAccess::Write { address: here, value: probe.original }]
                    + self.turn_to(probe.command, slot + 1)
                &&& after.registers() == Self::registers_at(
                    self.registers(),
                    probe.command,
                    slot + 1,
                )
                &&& after.windows() == self.windows().update(
                    slot,
                    if bar_kind(probe.original) == BarKind::Io {
                        io_space_bar(probe.original, value)
                    } else {
                        mmio_32bit_bar(probe.original, value)
                    },
                )
            },
            ProbeStage::UpperOriginal => {
                &&& next == (BarProbe {
                    stage: ProbeStage::LowSize,
                    upper_original: value,
                    ..probe
                })
                &&& accesses == seq![
                    ConfigAccess::Write { address: here, value: 0xFFFF_FFFF },
                    ConfigAccess::Write { address: above, value: 0xFFFF_FFFF },
                    ConfigAccess::Read { address: here },
                ]
                &&& after.registers() == self.registers().update(5 + slot, value)
                &&& after.windows() == self.windows()
            },
            ProbeStage::LowSize => {
                &&& next == (BarProbe { stage: ProbeStage::UpperSize, probed: value, ..probe })
                &&& accesses == seq![ConfigAccess::Read { address: above }]
                &&& after.registers() == self.registers()
                &&& after.windows() == self.windows()
            },
            ProbeStage::UpperSize => {
                &&& next == (BarProbe {
                    stage: Self::stage_at(slot + 2),
                    slot: (slot + 2) as usize,
                    ..probe
                })
                &&& accesses == seq![
                    ConfigAccess::Write { address: above, value: probe.upper_original },
                    ConfigAccess::Write { address: here, value: probe.original },
                ] + self.turn_to(probe.command, slot + 2)
                &&& after.registers() == Self::registers_at(
                    self.registers(),
                    probe.command,
                    slot + 2,
                )
                &&& after.windows() == self.windows().update(
                    slot,
                    mmio_64bit_bar(probe.original, probe.upper_original, probe.probed, value),
                )
            },
            ProbeStage::Done => next == probe && accesses == Seq::<ConfigAccess>::empty() && after
                == *self,
        }
    }

    /// Begins the sizing of the base address registers: forgets what was
    /// made of them before and asks for the command register.
    pub fn init_bar(&mut self) -> (start: (BarProbe, ConfigAccess))
        requires
            old(self).wf(),
        ensures
            final(self).wf(),
            final(self).bus() == old(self).bus(),
            final(self).device() == old(self).device(),
            final(self).vendor() == old(self).vendor(),
            final(self).model() == old(self).model(),
            final(self).registers() == old(self).registers(),
            final(self).windows() == Seq::new(6, |i: int| BaseAddressRegister::Empty),
            start.0.stage == ProbeStage::Command,
            start.0.wf(),
            start.1 == (ConfigAccess::Read { address: old(self).address_of(4) }),
    {
        self.base_address_registers = [
            BaseAddressRegister::Empty,
            BaseAddressRegister::Empty,
            BaseAddressRegister::Empty,
            BaseAddressRegister::Empty,
            BaseAddressRegister::Empty,
            BaseAddressRegister::Empty,
        ];
        assert(self.windows() =~= Seq::new(6, |i: int| BaseAddressRegister::Empty));
        let probe = BarProbe {
            stage: ProbeStage::Command,
            slot: 0,
            command: 0,
            original: 0,
            upper_original: 0,
            probed: 0,
        };
        (probe, ConfigAccess::Read { address: self.get_base_addr() + 4 })
    }

    /// Appends what follows once the registers below `slot` are done, and
    /// returns the stage that follows.
    fn turn(&mut self, accesses: &mut Vec<ConfigAccess>, command: u32, slot: usize) -> (stage:
        ProbeStage)
        requires
            old(self).wf(),
            slot <= 7,
        ensures
            final(self).wf(),
            final(self).same_device(*old(self)),
            stage == Self::stage_at(slot as int),
            final(accesses)@ == old(accesses)@ + old(self).turn_to(command, slot as int),
            final(self).registers() == Self::registers_at(
                old(self).registers(),
                command,
                slot as int,
            ),
    {
        if slot < 6 {
            accesses.push(
                ConfigAccess::Read { address: self.get_base_addr() + (0x10 + 4 * slot as u32) },
            );
            assert(accesses@ =~= old(accesses)@ + old(self).turn_to(command, slot as int));
            ProbeStage::Original
        } else {
            let enabled = switch_decoding_on(command);
            let access = self.write_offset_u32(4, enabled);
            accesses.push(access);
            assert(accesses@ =~= old(accesses)@ + old(self).turn_to(command, slot as int));
            ProbeStage::Done
        }
    }

    /// Takes one step of the sizing.
    pub fn continue_init_bar(&mut self, probe: BarProbe, value: u32) -> (step: (
        BarProbe,
        Vec<ConfigAccess>,
    ))
        requires
            old(self).wf(),
            probe.wf(),
        ensures
            final(self).wf(),
            old(self).probe_step(probe, value, *final(self), step.0, step.1@),
    {
        let mut accesses: Vec<ConfigAccess> = Vec::new();
        let slot = probe.slot;
        match probe.stage {
            ProbeStage::Command => {
                let disabled = switch_decoding_off(value);
                let write = self.write_offset_u32(4, disabled);
                accesses.push(write);
                accesses.push(ConfigAccess::Read { address: self.get_base_addr() + 0x10 });
                let next = BarProbe { stage: ProbeStage::Original, slot: 0, command: value, ..probe };
                assert(accesses@ =~= seq![
                    ConfigAccess::Write {
                        address: old(self).address_of(4),
                        value: decoding_off(value),
                    },
                    ConfigAccess::Read { address: old(self).address_of(bar_offset(0)) },
                ]);
                (next, accesses)
            },
            ProbeStage::Original => {
                let offset = 0x10 + 4 * slot as u32;
                let here = self.get_base_addr() + offset;
                self.header[4 + slot] = value;
                match kind_of(value) {
                    BarKind::Io | BarKind::Memory32 => {
                        accesses.push(ConfigAccess::Write { address: here, value: 0xFFFF_FFFF });
                        accesses.push(ConfigAccess::Read { address: here });
                        assert(accesses@ =~= seq![
                            ConfigAccess::Write { address: here, value: 0xFFFF_FFFF },
                            ConfigAccess::Read { address: here },
                        ]);
                        (BarProbe { stage: ProbeStage::Size, original: value, ..probe }, accesses)
                    },
                    BarKind::Memory64 => {
                        if slot < 5 {
                            accesses.push(ConfigAccess::Read { address: here + 4 });
                            assert(accesses@ =~= seq![ConfigAccess::Read { address: (here + 4) as u32 }]);
                            (
                                BarProbe {
                                    stage: ProbeStage::UpperOriginal,
                                    original: value,
                                    ..probe
                                },
                                accesses,
                            )
                        } else {
                            accesses.push(ConfigAccess::Write { address: here, value });
                            let stage = self.turn(&mut accesses, probe.command, slot + 1);
                            (BarProbe { stage, slot: slot + 1, original: value, ..probe }, accesses)
                        }
                    },
                    BarKind::Unknown => {
                        accesses.push(ConfigAccess::Write { address: here, value });
                        let stage = self.turn(&mut accesses, probe.command, slot + 1);
                        (BarProbe { stage, slot: slot + 1, original: value, ..probe }, accesses)
                    },
                }
            },
            ProbeStage::Size => {
                let here = self.get_base_addr() + (0x10 + 4 * slot as u32);
                let bar = match kind_of(probe.original) {
                    BarKind::Io => parse_io_space_bar(probe.original, value),
                    _ => parse_32bit_mmio_space_bar(probe.original, value),
                };
                self.base_address_registers[slot] = bar;
                // the sizing has overwritten the register: it gets its value back
                accesses.push(ConfigAccess::Write { address: here, value: probe.original });
                let stage = self.turn(&mut accesses, probe.command, slot + 1);
                (BarProbe { stage, slot: slot + 1, probed: value, ..probe }, accesses)
            },
            ProbeStage::UpperOriginal => {
                let here = self.get_base_addr() + (0x10 + 4 * slot as u32);
                self.header[5 + slot] = value;
                accesses.push(ConfigAccess::Write { address: here, value: 0xFFFF_FFFF });
                accesses.push(ConfigAccess::Write { address: here + 4, value: 0xFFFF_FFFF });
                accesses.push(ConfigAccess::Read { address: here });
                assert(accesses@ =~= seq![
                    ConfigAccess::Write { address: here, value: 0xFFFF_FFFF },
                    ConfigAccess::Write { address: (here + 4) as u32, value: 0xFFFF_FFFF },
                    ConfigAccess::Read { address: here },
                ]);
                (BarProbe { stage: ProbeStage::LowSize, upper_original: value, ..probe }, accesses)
            },
            ProbeStage::LowSize => {
                let here = self.get_base_addr() + (0x10 + 4 * slot as u32);
                accesses.push(ConfigAccess::Read { address: here + 4 });
                assert(accesses@ =~= seq![ConfigAccess::Read { address: (here + 4) as u32 }]);
                (BarProbe { stage: ProbeStage::UpperSize, probed: value, ..probe }, accesses)
            },
            ProbeStage::UpperSize => {
                let here = self.get_base_addr() + (0x10 + 4 * slot as u32);
                let bar = parse_64bit_mmio_space_bar(
                    probe.original,
                    probe.upper_original,
                    probe.probed,
                    value,
                );
                // this register is twice as long: the next slot is part of it
                self.base_address_registers[slot] = bar;
                accesses.push(
                    ConfigAccess::Write { address: here + 4, value: probe.upper_original },
                );
                accesses.push(ConfigAccess::Write { address: here, value: probe.original });
                assert(accesses@ =~= seq![
                    ConfigAccess::Write { address: (here + 4) as u32, value: probe.upper_original },
                    ConfigAccess::Write { address: here, value: probe.original },
                ]);
                let stage = self.turn(&mut accesses, probe.command, slot + 2);
                (BarProbe { stage, slot: slot + 2, ..probe }, accesses)
            },
            ProbeStage::Done => (probe, accesses),
        }
    }
}

/// The register that holds command and status, with decoding switched off.
fn switch_decoding_off(command: u32) -> (disabled: u32)
    ensures
        disabled == decoding_off(command),
{
    command & !((IO_SPACE | MEMORY_SPACE) as u32)
}

/// The register that holds command and status, with decoding switched on
/// and bus mastering allowed.
fn switch_decoding_on(command: u32) -> (enabled: u32)
    ensures
        enabled == decoding_on(command),
{
    command | ((IO_SPACE | MEMORY_SPACE | BUS_MASTER) as u32)
}

} // verus!
