use vstd::prelude::*;

pub mod base_address_register;
pub mod probe;
pub mod simulated_device;

pub use base_address_register::BaseAddressRegister;

verus! {

/// The number of devices on a bus.
pub const DEVICE_COUNT: u8 = 32;

/// The vendor identifier that reads where no device answers.
pub const PCI_INVALID_VENDOR: u16 = 0xFFFF;

pub const VENDOR_ID_OFFSET: u32 = 0x0;

pub const DEVICE_ID_OFFSET: u32 = 0x2;

pub const CONTROL_REGISTER_OFFSET: u32 = 0x4;

pub const STATUS_REGISTER_OFFSET: u32 = 0x6;

pub const REVISION_ID_OFFSET: u32 = 0x8;

pub const CLASS_OFFSET: u32 = 0xB;

pub const CACHE_LINE_SIZE_OFFSET: u32 = 0xC;

pub const LATENCY_TIMER_OFFSET: u32 = 0xD;

pub const HEADER_TYPE_OFFSET: u32 = 0xE;

pub const BIST_OFFSET: u32 = 0xF;

pub const BASE_ADDRESS_REGISTER_OFFSET: u32 = 0x10;

pub const BASE_ADDRESS_REGISTER_32_BIT_SIZE: u32 = 0x4;

pub const BASE_ADDRESS_REGISTER_64_BIT_SIZE: u32 = 0x8;

pub const BASE_ADDRESS_REGISTERS_COUNT: usize = 6;

pub const EXPANSION_ROM_BASE_ADDRESS_OFFSET: u32 = 0x30;

pub const INTERRUPT_LINE_OFFSET: u32 = 0x3C;

pub const INTERRUPT_PIN_OFFSET: u32 = 0x3D;

/// The register of `T` at a fixed offset in a window of device memory.
pub struct MemoryMappedRegister {
    offset: usize,
}

impl MemoryMappedRegister {
    /// The offset of the register in its window.
    pub closed spec fn offset(&self) -> usize {
        self.offset
    }

    /// The register at `offset`.
    pub fn new(offset: usize) -> (register: Self)
        ensures
            register.offset() == offset,
    {
        Self { offset }
    }

    /// Whether `width` bytes at the register lie inside a window of `size` bytes.
    pub fn fits(&self, width: usize, size: u64) -> (inside: bool)
        ensures
            inside == (self.offset() + width <= size),
    {
        (self.offset as u64) <= size && (width as u64) <= size - (self.offset as u64)
    }

    /// The address of the register in the window that starts at `start`.
    pub fn address(&self, start: u64) -> (address: u64)
        requires
            start + self.offset() <= u64::MAX,
        ensures
            address == start + self.offset(),
    {
        start + self.offset as u64
    }
}

pub const GENERAL_DEVICE: u8 = 0x01;

pub const PCI_TO_PCI_BRIDGE: u8 = 0x02;

pub const PCI_TO_CARD_BUS_BRIDGE: u8 = 0x04;

pub const MULTI_FUNCTION_CARD: u8 = 0x80;

/// The header type register: what kind of device the header describes.
#[derive(Debug, Clone, Copy, PartialEq, Eq, Structural)]
pub struct HeaderType {
    pub bits: u8,
}

impl HeaderType {
    /// Whether every bit of `flags` is set.
    pub fn contains(&self, flags: u8) -> (all: bool)
        ensures
            all == (self.bits & flags == flags),
    {
        self.bits & flags == flags
    }
}

pub const IO_SPACE: u16 = 0x0001;

pub const MEMORY_SPACE: u16 = 0x0002;

pub const BUS_MASTER: u16 = 0x0004;

pub const SPECIAL_CYCLE: u16 = 0x0008;

pub const MEMORY_WRITE_AND_INVALIDATE: u16 = 0x0010;

pub const VGA_PALETTE_SNOOP: u16 = 0x0020;

pub const STEPPING_CONTROL: u16 = 0x0040;

pub const SERR_ENABLE: u16 = 0x0080;

pub const FAST_BACK_TO_BACK_ENABLED: u16 = 0x0100;

/// The command register: what the device may do on the bus.
#[derive(Debug, Clone, Copy, PartialEq, Eq, Structural)]
pub struct CommandRegister {
    pub bits: u16,
}

impl CommandRegister {
    /// Whether every bit of `flags` is set.
    pub fn contains(&self, flags: u16) -> (all: bool)
        ensures
            all == (self.bits & flags == flags),
    {
        self.bits & flags == flags
    }

    /// Sets the bits of `flags`, or clears them.
    pub fn set(&mut self, flags: u16, value: bool)
        ensures
            value ==> final(self).bits == old(self).bits | flags,
            !value ==> final(self).bits == old(self).bits & !flags,
    {
        if value {
            self.bits = self.bits | flags;
        } else {
            self.bits = self.bits & !flags;
        }
    }
}

pub const CAPABILITIES_LIST: u16 = 0x0010;

pub const HIGH_66_HZ: u16 = 0x0020;

pub const FAST_BACK_TO_BACK: u16 = 0x0080;

pub const MASTER_DATA_PARITY_ERROR: u16 = 0x0100;

pub const SIGNALED_TARGET_ABORT: u16 = 0x0800;

pub const RECEIVED_TARGET_ABORT: u16 = 0x1000;

pub const RECEIVED_MASTER_ABORT: u16 = 0x2000;

pub const SIGNALED_SYSTEM_ERROR: u16 = 0x4000;

pub const DETECTED_PARITY_ERROR: u16 = 0x8000;

/// The status register: what has happened to the device on the bus.
#[derive(Debug, Clone, Copy, PartialEq, Eq, Structural)]
pub struct StatusRegister {
    pub bits: u16,
}

impl StatusRegister {
    /// Whether every bit of `flags` is set.
    pub fn contains(&self, flags: u16) -> (all: bool)
        ensures
            all == (self.bits & flags == flags),
    {
        self.bits & flags == flags
    }
}

/// What a device is for, as its class code says.
#[derive(Debug, Clone, Copy, PartialEq, Eq, Structural)]
pub enum ClassCode {
    TooOld,
    MassStorageController,
    NetworkController,
    DisplayController,
    MultimediaDevice,
    MemoryController,
    BridgeDevice,
    SimpleCommunicationControllers,
    BaseSystemPeripherals,
    InputDevices,
    DockingStations,
    PROCESSORS,
    SerialBusControllers,
    WirelessController,
    IntelligentIoControllers,
    SatelliteCommunicationControllers,
    EncryptionDecryptionControllers,
    DataAcquisitionAndSignalProcessing,
    RESERVED(u8),
    UNFIT,
}

/// The class that the code `value` stands for.
pub open spec fn class_of(value: u8) -> ClassCode {
    if value == 0x0 {
        ClassCode::TooOld
    } else if value == 0x1 {
        ClassCode::MassStorageController
    } else if value == 0x2 {
        ClassCode::NetworkController
    } else if value == 0x3 {
        ClassCode::DisplayController
    } else if value == 0x4 {
        ClassCode::MultimediaDevice
    } else if value == 0x5 {
        ClassCode::MemoryController
    } else if value == 0x6 {
        ClassCode::BridgeDevice
    } else if value == 0x7 {
        ClassCode::SimpleCommunicationControllers
    } else if value == 0x8 {
        ClassCode::BaseSystemPeripherals
    } else if value == 0x9 {
        ClassCode::InputDevices
    } else if value == 0xA {
        ClassCode::DockingStations
    } else if value == 0xB {
        ClassCode::PROCESSORS
    } else if value == 0xC {
        ClassCode::SerialBusControllers
    } else if value == 0xD {
        ClassCode::WirelessController
    } else if value == 0xE {
        ClassCode::IntelligentIoControllers
    } else if value == 0xF {
        ClassCode::SatelliteCommunicationControllers
    } else if value == 0x10 {
        ClassCode::EncryptionDecryptionControllers
    } else if value == 0x11 {
        ClassCode::DataAcquisitionAndSignalProcessing
    } else if value == 0xFF {
        ClassCode::UNFIT
    } else {
        ClassCode::RESERVED(value)
    }
}

impl From<u8> for ClassCode {
    fn from(value: u8) -> (class: Self) {
        match value {
            0x0 => ClassCode::TooOld,
            0x1 => ClassCode::MassStorageController,
            0x2 => ClassCode::NetworkController,
            0x3 => ClassCode::DisplayController,
            0x4 => ClassCode::MultimediaDevice,
            0x5 => ClassCode::MemoryController,
            0x6 => ClassCode::BridgeDevice,
            0x7 => ClassCode::SimpleCommunicationControllers,
            0x8 => ClassCode::BaseSystemPeripherals,
            0x9 => ClassCode::InputDevices,
            0xA => ClassCode::DockingStations,
            0xB => ClassCode::PROCESSORS,
            0xC => ClassCode::SerialBusControllers,
            0xD => ClassCode::WirelessController,
            0xE => ClassCode::IntelligentIoControllers,
            0xF => ClassCode::SatelliteCommunicationControllers,
            0x10 => ClassCode::EncryptionDecryptionControllers,
            0x11 => ClassCode::DataAcquisitionAndSignalProcessing,
            0xFF => ClassCode::UNFIT,
            v => ClassCode::RESERVED(v),
        }
    }
}

impl vstd::std_specs::convert::FromSpecImpl<u8> for ClassCode {
    open spec fn obeys_from_spec() -> bool {
        true
    }

    open spec fn from_spec(value: u8) -> Self {
        class_of(value)
    }
}

/// One access to configuration space: the value to write to the address
/// port, and, for a write, the value to write to the data port after it;
/// for a read the data port is read.
#[derive(Debug, Clone, Copy, PartialEq, Eq, Structural)]
pub enum ConfigAccess {
    Read { address: u32 },
    Write { address: u32, value: u32 },
}

/// The byte of `dword` that stands at `offset` in configuration space.
pub open spec fn byte_at(dword: u32, offset: u32) -> u8 {
    ((dword >> (8 * (offset & 0x3))) & 0xFF) as u8
}

/// The two bytes of `dword` that stand at `offset` in configuration space.
pub open spec fn word_at(dword: u32, offset: u32) -> u16 {
    ((dword >> (8 * (offset & 0x3))) & 0xFFFF) as u16
}

/// `dword` with the byte at `offset` replaced by `value`.
pub open spec fn with_byte_at(dword: u32, offset: u32, value: u8) -> u32 {
    (dword & !(0xFFu32 << (8 * (offset & 0x3)))) | ((value as u32) << (8 * (offset & 0x3)))
}

/// `dword` with the two bytes at `offset` replaced by `value`.
pub open spec fn with_word_at(dword: u32, offset: u32, value: u16) -> u32 {
    (dword & !(0xFFFFu32 << (8 * (offset & 0x3)))) | ((value as u32) << (8 * (offset & 0x3)))
}

/// The value for the address port that selects the register at `offset` of
/// the device `device_index` on bus `bus_index`: bit 31 enables, bits 23 to
/// 16 hold the bus, bits 15 to 11 the device, and the low bits the offset.
pub open spec fn config_address(bus_index: u8, device_index: u8, offset: u32) -> u32 {
    ((0x8000_0000u32 | ((bus_index as u32) << 16) | ((device_index as u32) << 11)) + offset) as u32
}

/// The offset of the register that holds the byte at `offset`.
fn aligned(offset: u32) -> (aligned_offset: u32)
    ensures
        aligned_offset == offset / 4 * 4,
        aligned_offset == offset & (!0x3u32),
{
    let aligned_offset = offset & (!0x3u32);
    assert(aligned_offset == offset / 4 * 4) by (bit_vector)
        requires
            aligned_offset == offset & (!0x3u32),
    ;
    aligned_offset
}

/// The number of bits by which the byte at `offset` is shifted in its register.
fn lane_shift(offset: u32) -> (shift: u32)
    ensures
        shift == 8 * (offset & 0x3),
        shift <= 24,
{
    let lane = offset & 0x3;
    assert(lane <= 3) by (bit_vector)
        requires
            lane == offset & 0x3,
    ;
    8 * lane
}

/// The low byte of `value`.
fn low_byte(value: u32) -> (byte: u8)
    ensures
        byte == (value & 0xFF) as u8,
{
    let low = value & 0xFF;
    assert(low <= 0xFF) by (bit_vector)
        requires
            low == value & 0xFF,
    ;
    low as u8
}

/// The low two bytes of `value`.
fn low_word(value: u32) -> (word: u16)
    ensures
        word == (value & 0xFFFF) as u16,
{
    let low = value & 0xFFFF;
    assert(low <= 0xFFFF) by (bit_vector)
        requires
            low == value & 0xFFFF,
    ;
    low as u16
}

/// The header of one PCI device as it was read, with what was made of its
/// base address registers.
#[derive(Clone, Copy)]
pub struct PciConfigSpace {
    bus_index: u8,
    device_index: u8,
    pub vendor_id: u16,
    pub device_id: u16,
    pub base_address_registers: [BaseAddressRegister; 6],
    header: [u32; 16],
}

impl PciConfigSpace {
    /// The sixteen registers of the header as they were last read or written.
    pub closed spec fn registers(&self) -> Seq<u32> {
        self.header@
    }

    /// The bus that the device is on.
    pub closed spec fn bus(&self) -> u8 {
        self.bus_index
    }

    /// The number of the device on its bus.
    pub closed spec fn device(&self) -> u8 {
        self.device_index
    }

    /// The vendor identifier that was read when the header was made.
    pub closed spec fn vendor(&self) -> u16 {
        self.vendor_id
    }

    /// The device identifier that was read when the header was made.
    pub closed spec fn model(&self) -> u16 {
        self.device_id
    }

    /// What was made of the six base address registers.
    pub closed spec fn windows(&self) -> Seq<BaseAddressRegister> {
        self.base_address_registers@
    }

    /// The device number is one that a bus has.
    pub open spec fn wf(&self) -> bool {
        self.device() < DEVICE_COUNT
    }

    /// The address for reaching the register at `offset`.
    pub open spec fn address_of(&self, offset: u32) -> u32 {
        config_address(self.bus(), self.device(), offset)
    }

    pub(crate) fn read_offset_u8(&self, offset: u32) -> (value: u8)
        requires
            offset < 64,
        ensures
            value == byte_at(self.registers()[(offset / 4) as int], offset),
    {
        let aligned_offset = aligned(offset);
        let shift = lane_shift(offset);
        low_byte(self.read_offset_u32(aligned_offset) >> shift)
    }

    pub(crate) fn read_offset_u16(&self, offset: u32) -> (value: u16)
        requires
            offset < 64,
            offset % 2 == 0,
        ensures
            value == word_at(self.registers()[(offset / 4) as int], offset),
    {
        let aligned_offset = aligned(offset);
        let shift = lane_shift(offset);
        low_word(self.read_offset_u32(aligned_offset) >> shift)
    }

    pub(crate) fn read_offset_u32(&self, offset: u32) -> (value: u32)
        requires
            offset < 64,
            offset % 4 == 0,
        ensures
            value == self.registers()[(offset / 4) as int],
    {
        self.header[(offset / 4) as usize]
    }

    pub(crate) fn write_offset_u8(&mut self, offset: u32, value: u8) -> (access: ConfigAccess)
        requires
            offset < 64,
            old(self).wf(),
        ensures
            final(self).registers() == old(self).registers().update(
                (offset / 4) as int,
                with_byte_at(old(self).registers()[(offset / 4) as int], offset, value),
            ),
            access == (ConfigAccess::Write {
                address: old(self).address_of((offset / 4 * 4) as u32),
                value: with_byte_at(old(self).registers()[(offset / 4) as int], offset, value),
            }),
            final(self).same_device(*old(self)),
    {
        let aligned_offset = aligned(offset);
        let shift = lane_shift(offset);
        let masked_orig_value = self.read_offset_u32(aligned_offset) & !(0xFFu32 << shift);
        let shifted_value = (value as u32) << shift;
        self.write_offset_u32(aligned_offset, masked_orig_value | shifted_value)
    }

    pub(crate) fn write_offset_u16(&mut self, offset: u32, value: u16) -> (access: ConfigAccess)
        requires
            offset < 64,
            offset % 2 == 0,
            old(self).wf(),
        ensures
            final(self).registers() == old(self).registers().update(
                (offset / 4) as int,
                with_word_at(old(self).registers()[(offset / 4) as int], offset, value),
            ),
            access == (ConfigAccess::Write {
                address: old(self).address_of((offset / 4 * 4) as u32),
                value: with_word_at(old(self).registers()[(offset / 4) as int], offset, value),
            }),
            final(self).same_device(*old(self)),
    {
        let aligned_offset = aligned(offset);
        let shift = lane_shift(offset);
        let masked_orig_value = self.read_offset_u32(aligned_offset) & !(0xFFFFu32 << shift);
        let shifted_value = (value as u32) << shift;
        self.write_offset_u32(aligned_offset, masked_orig_value | shifted_value)
    }

    pub(crate) fn write_offset_u32(&mut self, offset: u32, value: u32) -> (access: ConfigAccess)
        requires
            offset < 64,
            offset % 4 == 0,
            old(self).wf(),
        ensures
            final(self).registers() == old(self).registers().update((offset / 4) as int, value),
            access == (ConfigAccess::Write { address: old(self).address_of(offset), value }),
            final(self).same_device(*old(self)),
    {
        self.header[(offset / 4) as usize] = value;
        ConfigAccess::Write { address: self.get_base_addr() + offset, value }
    }

    /// All but the registers is as in `other`.
    pub open spec fn same_device(&self, other: Self) -> bool {
        &&& self.bus() == other.bus()
        &&& self.device() == other.device()
        &&& self.vendor() == other.vendor()
        &&& self.model() == other.model()
        &&& self.windows() == other.windows()
    }

    /// The header of the device `device_index` on bus `bus_index`, where
    /// `header` is what its first sixteen registers read. `None` where the
    /// bus has no such device number or no device answered.
    pub fn new(bus_index: u8, device_index: u8, header: [u32; 16]) -> (config_space: Option<Self>)
        ensures
            device_index >= DEVICE_COUNT || word_at(header@[0], VENDOR_ID_OFFSET)
                == PCI_INVALID_VENDOR ==> config_space.is_none(),
            device_index < DEVICE_COUNT && word_at(header@[0], VENDOR_ID_OFFSET)
                != PCI_INVALID_VENDOR ==> (config_space matches Some(config) && config.bus()
                == bus_index && config.device() == device_index && config.registers() == header@
                && config.vendor() == word_at(header@[0], VENDOR_ID_OFFSET) && config.model()
                == word_at(header@[0], DEVICE_ID_OFFSET) && config.windows() == Seq::new(
                6,
                |i: int| BaseAddressRegister::Empty,
            ) && config.wf()),
    {
        let mut config_space = Self {
            bus_index,
            device_index,
            device_id: 0,
            vendor_id: PCI_INVALID_VENDOR,
            base_address_registers: [
                BaseAddressRegister::Empty,
                BaseAddressRegister::Empty,
                BaseAddressRegister::Empty,
                BaseAddressRegister::Empty,
                BaseAddressRegister::Empty,
                BaseAddressRegister::Empty,
            ],
            header,
        };

        let vendor_id = config_space.get_vendor_id();

        if device_index >= DEVICE_COUNT || vendor_id == PCI_INVALID_VENDOR {
            return None;
        }
        config_space.vendor_id = vendor_id;
        config_space.device_id = config_space.get_device_id();
        assert(config_space.base_address_registers@ =~= Seq::new(
            6,
            |i: int| BaseAddressRegister::Empty,
        ));

        Some(config_space)
    }

    /// The value for the address port that selects register 0 of the device.
    pub fn get_base_addr(&self) -> (address: u32)
        requires
            self.wf(),
        ensures
            address == self.address_of(0),
            address + 255 <= u32::MAX,
    {
        let bus = self.bus_index as u32;
        let device = self.device_index as u32;
        let address = 0x8000_0000u32 | (bus << 16) | (device << 11);
        assert(address <= 0x80FF_FFFFu32) by (bit_vector)
            requires
                address == 0x8000_0000u32 | (bus << 16) | (device << 11),
                bus < 256,
                device < 32,
        ;
        address
    }

    pub fn get_vendor_id(&self) -> (vendor_id: u16)
        ensures
            vendor_id == word_at(self.registers()[0], VENDOR_ID_OFFSET),
    {
        self.read_offset_u16(VENDOR_ID_OFFSET)
    }

    pub fn get_device_id(&self) -> (device_id: u16)
        ensures
            device_id == word_at(self.registers()[0], DEVICE_ID_OFFSET),
    {
        self.read_offset_u16(DEVICE_ID_OFFSET)
    }

    pub fn get_command_register(&self) -> (command_register: CommandRegister)
        ensures
            command_register.bits == word_at(self.registers()[1], CONTROL_REGISTER_OFFSET),
    {
        CommandRegister { bits: self.read_offset_u16(CONTROL_REGISTER_OFFSET) }
    }

    pub fn set_command_register(&mut self, command_register: CommandRegister) -> (access:
        ConfigAccess)
        requires
            old(self).wf(),
        ensures
            final(self).registers() == old(self).registers().update(
                1,
                with_word_at(
                    old(self).registers()[1],
                    CONTROL_REGISTER_OFFSET,
                    command_register.bits,
                ),
            ),
            access == (ConfigAccess::Write {
                address: old(self).address_of(4),
                value: with_word_at(
                    old(self).registers()[1],
                    CONTROL_REGISTER_OFFSET,
                    command_register.bits,
                ),
            }),
            final(self).same_device(*old(self)),
    {
        self.write_offset_u16(CONTROL_REGISTER_OFFSET, command_register.bits)
    }

    pub fn get_status_register(&self) -> (status_register: StatusRegister)
        ensures
            status_register.bits == word_at(self.registers()[1], STATUS_REGISTER_OFFSET),
    {
        StatusRegister { bits: self.read_offset_u16(STATUS_REGISTER_OFFSET) }
    }

    pub fn set_status_register(&mut self, status_register: StatusRegister) -> (access: ConfigAccess)
        requires
            old(self).wf(),
        ensures
            final(self).registers() == old(self).registers().update(
                1,
                with_word_at(old(self).registers()[1], STATUS_REGISTER_OFFSET, status_register.bits),
            ),
            access == (ConfigAccess::Write {
                address: old(self).address_of(4),
                value: with_word_at(
                    old(self).registers()[1],
                    STATUS_REGISTER_OFFSET,
                    status_register.bits,
                ),
            }),
            final(self).same_device(*old(self)),
    {
        self.write_offset_u16(STATUS_REGISTER_OFFSET, status_register.bits)
    }

    pub fn get_revision_id(&self) -> (revision_id: u8)
        ensures
            revision_id == byte_at(self.registers()[2], REVISION_ID_OFFSET),
    {
        self.read_offset_u8(REVISION_ID_OFFSET)
    }

    pub fn get_header_type(&self) -> (header_type: HeaderType)
        ensures
            header_type.bits == byte_at(self.registers()[3], HEADER_TYPE_OFFSET),
    {
        HeaderType { bits: self.read_offset_u8(HEADER_TYPE_OFFSET) }
    }

    pub fn get_interrupt_line(&self) -> (interrupt_line: u8)
        ensures
            interrupt_line == byte_at(self.registers()[15], INTERRUPT_LINE_OFFSET),
    {
        self.read_offset_u8(INTERRUPT_LINE_OFFSET)
    }

    pub fn set_interrupt_line(&mut self, value: u8) -> (access: ConfigAccess)
        requires
            old(self).wf(),
        ensures
            final(self).registers() == old(self).registers().update(
                15,
                with_byte_at(old(self).registers()[15], INTERRUPT_LINE_OFFSET, value),
            ),
            access == (ConfigAccess::Write {
                address: old(self).address_of(0x3C),
                value: with_byte_at(old(self).registers()[15], INTERRUPT_LINE_OFFSET, value),
            }),
            final(self).same_device(*old(self)),
    {
        self.write_offset_u8(INTERRUPT_LINE_OFFSET, value)
    }

    pub fn get_interrupt_pin(&self) -> (interrupt_pin: u8)
        ensures
            interrupt_pin == byte_at(self.registers()[15], INTERRUPT_PIN_OFFSET),
    {
        self.read_offset_u8(INTERRUPT_PIN_OFFSET)
    }

    pub fn get_base_address_register(&self, index: usize) -> (value: u32)
        requires
            index < BASE_ADDRESS_REGISTERS_COUNT,
        ensures
            value == self.registers()[4 + index],
    {
        self.read_offset_u32(
            BASE_ADDRESS_REGISTER_OFFSET + index as u32 * BASE_ADDRESS_REGISTER_32_BIT_SIZE,
        )
    }

    pub fn set_base_address_register(&mut self, index: usize, value: u32) -> (access: ConfigAccess)
        requires
            index < BASE_ADDRESS_REGISTERS_COUNT,
            old(self).wf(),
        ensures
            final(self).registers() == old(self).registers().update(4 + index, value),
            access == (ConfigAccess::Write {
                address: old(self).address_of((0x10 + 4 * index) as u32),
                value,
            }),
            final(self).same_device(*old(self)),
    {
        self.write_offset_u32(
            BASE_ADDRESS_REGISTER_OFFSET + index as u32 * BASE_ADDRESS_REGISTER_32_BIT_SIZE,
            value,
        )
    }

    pub fn get_expansion_rom_register(&self) -> (value: u32)
        ensures
            value == self.registers()[12],
    {
        self.read_offset_u32(EXPANSION_ROM_BASE_ADDRESS_OFFSET)
    }

    pub fn set_expansion_rom_register(&mut self, value: u32) -> (access: ConfigAccess)
        requires
            old(self).wf(),
        ensures
            final(self).registers() == old(self).registers().update(12, value),
            access == (ConfigAccess::Write { address: old(self).address_of(0x30), value }),
            final(self).same_device(*old(self)),
    {
        self.write_offset_u32(EXPANSION_ROM_BASE_ADDRESS_OFFSET, value)
    }

    /// What was made of the base address register at `index`.
    pub fn window(&self, index: usize) -> (window: BaseAddressRegister)
        requires
            index < BASE_ADDRESS_REGISTERS_COUNT,
        ensures
            window == self.windows()[index as int],
    {
        self.base_address_registers[index]
    }

    /// The vendor and device identifiers that were read when the header
    /// was made.
    pub fn identifiers(&self) -> (identifiers: (u16, u16))
        ensures
            identifiers == (self.vendor(), self.model()),
    {
        (self.vendor_id, self.device_id)
    }

    /// The bus and the number of the device on it.
    pub fn place(&self) -> (place: (u8, u8))
        ensures
            place == (self.bus(), self.device()),
    {
        (self.bus_index, self.device_index)
    }

    pub fn get_class_code(&self) -> (class_code: ClassCode)
        ensures
            class_code == class_of(byte_at(self.registers()[2], CLASS_OFFSET)),
    {
        ClassCode::from(self.read_offset_u8(CLASS_OFFSET))
    }
}

} // verus!
