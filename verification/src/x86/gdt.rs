use super::{PrivilegeLevel, TableDescriptor};
use crate::bits::{bit, bit_value};
use vstd::prelude::*;

verus! {

/// The upper four bits of a segment's limit and its four flags.
#[derive(Debug, Default, Clone, Copy, PartialEq, Eq, Structural)]
pub struct GDTEntryFlags {
    pub limit_high: u8,
    pub reserved: bool,
    pub long_mode: bool,
    pub size: bool,
    pub granularity: bool,
}

impl GDTEntryFlags {
    /// The byte: bits 0 to 3 hold the upper bits of the limit, bit 5 marks
    /// a segment of 64-bit code, bit 6 one of 32 bits, and bit 7 counts the
    /// limit in pages of 4 KiB.
    pub open spec fn value(&self) -> int {
        self.limit_high % 16 + bit(self.reserved, 0x10) + bit(self.long_mode, 0x20) + bit(
            self.size,
            0x40,
        ) + bit(self.granularity, 0x80)
    }

    /// The byte.
    pub fn to_bits(&self) -> (bits: u8)
        ensures
            bits == self.value(),
    {
        ((self.limit_high % 16) as u32 + bit_value(self.reserved, 0x10) + bit_value(
            self.long_mode,
            0x20,
        ) + bit_value(self.size, 0x40) + bit_value(self.granularity, 0x80)) as u8
    }
}

/// What may be done with a segment, and by whom.
#[derive(Debug, Clone, Copy, PartialEq, Eq, Structural)]
pub struct GDTEntryAccessByte {
    pub accessed: bool,
    pub read_write: bool,
    pub direction: bool,
    pub executable: bool,
    pub descriptor_type: bool,
    pub privilege_level: PrivilegeLevel,
    pub present: bool,
}

impl GDTEntryAccessByte {
    /// The byte: bit 0 is set once the segment was used, bit 1 makes code
    /// readable and data writable, bit 2 is the direction or conforming
    /// bit, bit 3 marks code, bit 4 a segment of code or data, bits 5 and 6
    /// hold the ring, and bit 7 says that the segment is there.
    pub open spec fn value(&self) -> int {
        bit(self.accessed, 0x1) + bit(self.read_write, 0x2) + bit(self.direction, 0x4) + bit(
            self.executable,
            0x8,
        ) + bit(self.descriptor_type, 0x10) + self.privilege_level.value() * 0x20 + bit(
            self.present,
            0x80,
        )
    }

    /// The byte.
    pub fn to_bits(&self) -> (bits: u8)
        ensures
            bits == self.value(),
    {
        (bit_value(self.accessed, 0x1) + bit_value(self.read_write, 0x2) + bit_value(
            self.direction,
            0x4,
        ) + bit_value(self.executable, 0x8) + bit_value(self.descriptor_type, 0x10) + (
        self.privilege_level.to_bits() as u32) * 0x20 + bit_value(self.present, 0x80)) as u8
    }
}

/// What a segment register holds: which entry of which table, and the ring
/// that asks.
#[derive(Debug, Clone, Copy, PartialEq, Eq, Structural)]
pub struct SegmentSelector {
    pub privilege_level: PrivilegeLevel,
    pub is_local: bool,
    pub index: u16,
}

impl SegmentSelector {
    /// The selector's value: bits 0 and 1 hold the ring, bit 2 chooses the
    /// local table, and the thirteen bits from 3 on hold the index, of
    /// which no more than thirteen bits count.
    pub open spec fn value(&self) -> int {
        self.privilege_level.value() + bit(self.is_local, 0x4) + (self.index % 8192) * 8
    }

    /// The selector without an entry: all bits 0.
    pub fn new() -> (selector: Self)
        ensures
            selector == (SegmentSelector {
                privilege_level: PrivilegeLevel::RingZero,
                is_local: false,
                index: 0,
            }),
    {
        SegmentSelector { privilege_level: PrivilegeLevel::RingZero, is_local: false, index: 0 }
    }

    /// The selector of the code segment: entry 1 of the global table, ring 0.
    pub fn get_code_segment_selector() -> (selector: Self)
        ensures
            selector == (SegmentSelector {
                privilege_level: PrivilegeLevel::RingZero,
                is_local: false,
                index: 1,
            }),
    {
        SegmentSelector { privilege_level: PrivilegeLevel::RingZero, is_local: false, index: 1 }
    }

    /// The selector of the data segment: entry 2 of the global table, ring 0.
    pub fn get_data_segment_selector() -> (selector: Self)
        ensures
            selector == (SegmentSelector {
                privilege_level: PrivilegeLevel::RingZero,
                is_local: false,
                index: 2,
            }),
    {
        SegmentSelector { privilege_level: PrivilegeLevel::RingZero, is_local: false, index: 2 }
    }

    /// The selector's value.
    pub fn to_bits(&self) -> (bits: u16)
        ensures
            bits == self.value(),
    {
        ((self.privilege_level.to_bits() as u32) + bit_value(self.is_local, 0x4) + ((self.index
            % 8192) as u32) * 8) as u16
    }
}

/// One entry of the global descriptor table.
#[derive(Debug, Clone, Copy, PartialEq, Eq, Structural)]
pub struct GDTEntry {
    pub limit_lower: u16,
    pub base_lower: u16,
    pub base_middle: u8,
    pub access_byte: GDTEntryAccessByte,
    pub flags: GDTEntryFlags,
    pub base_high: u8,
}

/// The access byte without a bit set.
pub open spec fn no_access() -> GDTEntryAccessByte {
    GDTEntryAccessByte {
        accessed: false,
        read_write: false,
        direction: false,
        executable: false,
        descriptor_type: false,
        privilege_level: PrivilegeLevel::RingZero,
        present: false,
    }
}

/// The access byte of the code segment: there, code or data, executable,
/// conforming, readable, ring 0.
pub open spec fn code_access() -> GDTEntryAccessByte {
    GDTEntryAccessByte {
        accessed: false,
        read_write: true,
        direction: true,
        executable: true,
        descriptor_type: true,
        privilege_level: PrivilegeLevel::RingZero,
        present: true,
    }
}

/// The access byte of the data segment: there, code or data, writable,
/// ring 0.
pub open spec fn data_access() -> GDTEntryAccessByte {
    GDTEntryAccessByte {
        accessed: false,
        read_write: true,
        direction: false,
        executable: false,
        descriptor_type: true,
        privilege_level: PrivilegeLevel::RingZero,
        present: true,
    }
}

/// The flags of a flat segment of 32 bits whose limit counts pages.
pub open spec fn flat_flags(limit_high: u8) -> GDTEntryFlags {
    GDTEntryFlags { limit_high, reserved: false, long_mode: false, size: true, granularity: true }
}

impl GDTEntry {
    /// The eight bytes of the entry as one number: the low 16 bits of the
    /// limit, the low 24 bits of the base, the access byte, the flags with
    /// the upper bits of the limit, and the upper byte of the base.
    pub open spec fn value(&self) -> int {
        self.limit_lower + self.base_lower * 0x1_0000 + self.base_middle * 0x1_0000_0000
            + self.access_byte.value() * 0x100_0000_0000 + self.flags.value()
            * 0x1_0000_0000_0000 + self.base_high * 0x100_0000_0000_0000
    }

    /// The entry for the segment of `limit` units at `base_adder`. Of the
    /// limit the low 20 bits count; its upper four go where `flags` has its
    /// own.
    pub fn create_segment(
        base_adder: u32,
        limit: u32,
        access_byte: GDTEntryAccessByte,
        flags: GDTEntryFlags,
    ) -> (entry: Self)
        ensures
            entry.limit_lower == limit % 0x1_0000,
            entry.flags == (GDTEntryFlags {
                limit_high: ((limit / 0x1_0000) % 16) as u8,
                ..flags
            }),
            entry.base_lower + entry.base_middle * 0x1_0000 + entry.base_high * 0x100_0000
                == base_adder,
            entry.access_byte == access_byte,
    {
        let base_lower = (base_adder % 0x1_0000) as u16;
        let base_middle = ((base_adder / 0x1_0000) % 0x100) as u8;
        let base_high = (base_adder / 0x100_0000) as u8;

        let limit_lower = (limit % 0x1_0000) as u16;
        let limit_high = ((limit / 0x1_0000) % 16) as u8;

        let mut flags = flags;
        flags.limit_high = limit_high;

        Self { limit_lower, base_lower, base_middle, access_byte, flags, base_high }
    }

    /// The entry that names no segment: eight bytes of 0.
    pub fn null_segment() -> (entry: Self)
        ensures
            entry.value() == 0,
    {
        reveal(bit);
        Self {
            limit_lower: 0,
            base_lower: 0,
            base_middle: 0,
            access_byte: GDTEntryAccessByte {
                accessed: false,
                read_write: false,
                direction: false,
                executable: false,
                descriptor_type: false,
                privilege_level: PrivilegeLevel::RingZero,
                present: false,
            },
            flags: GDTEntryFlags {
                limit_high: 0,
                reserved: false,
                long_mode: false,
                size: false,
                granularity: false,
            },
            base_high: 0,
        }
    }

    /// The entry of the code segment: all of memory from 0 on, 32 bits,
    /// executable and readable, ring 0.
    pub fn code_segment() -> (entry: Self)
        ensures
            entry == (GDTEntry {
                limit_lower: 0xFFFF,
                base_lower: 0,
                base_middle: 0,
                access_byte: code_access(),
                flags: flat_flags(0xF),
                base_high: 0,
            }),
            entry.value() == 0x00CF_9E00_0000_FFFF,
    {
        let access_byte = GDTEntryAccessByte {
            accessed: false,
            read_write: true,
            direction: true,
            executable: true,
            descriptor_type: true,
            privilege_level: PrivilegeLevel::RingZero,
            present: true,
        };
        let flags = GDTEntryFlags {
            limit_high: 0,
            reserved: false,
            long_mode: false,
            size: true,
            granularity: true,
        };
        reveal(bit);
        Self::create_segment(0, u32::MAX, access_byte, flags)
    }

    /// The entry of the data segment: all of memory from 0 on, 32 bits,
    /// writable, ring 0.
    pub fn data_segment() -> (entry: Self)
        ensures
            entry == (GDTEntry {
                limit_lower: 0xFFFF,
                base_lower: 0,
                base_middle: 0,
                access_byte: data_access(),
                flags: flat_flags(0xF),
                base_high: 0,
            }),
            entry.value() == 0x00CF_9200_0000_FFFF,
    {
        let access_byte = GDTEntryAccessByte {
            accessed: false,
            read_write: true,
            direction: false,
            executable: false,
            descriptor_type: true,
            privilege_level: PrivilegeLevel::RingZero,
            present: true,
        };
        let flags = GDTEntryFlags {
            limit_high: 0,
            reserved: false,
            long_mode: false,
            size: true,
            granularity: true,
        };
        reveal(bit);
        Self::create_segment(0, u32::MAX, access_byte, flags)
    }

    /// The eight bytes of the entry as one number.
    pub fn to_bits(&self) -> (bits: u64)
        ensures
            bits == self.value(),
    {
        (self.limit_lower as u64) + (self.base_lower as u64) * 0x1_0000 + (self.base_middle as u64)
            * 0x1_0000_0000 + (self.access_byte.to_bits() as u64) * 0x100_0000_0000 + (
        self.flags.to_bits() as u64) * 0x1_0000_0000_0000 + (self.base_high as u64)
            * 0x100_0000_0000_0000
    }
}

/// The number of entries in the global descriptor table.
pub const GDT_SIZE: usize = 3;

/// The global descriptor table: no segment, the code segment, the data segment.
pub fn gdt() -> (table: [GDTEntry; 3])
    ensures
        table@[0].value() == 0,
        table@[1].value() == 0x00CF_9E00_0000_FFFF,
        table@[2].value() == 0x00CF_9200_0000_FFFF,
{
    [GDTEntry::null_segment(), GDTEntry::code_segment(), GDTEntry::data_segment()]
}

/// What the processor is told to load the table at `table_address`, with
/// the selectors to put into the segment registers: the descriptor, the
/// code selector, the data selector.
pub fn load_gdt(table_address: u32) -> (load: (TableDescriptor, u16, u16))
    ensures
        load.0 == (TableDescriptor { size: 23, offset: table_address }),
        load.1 == 8,
        load.2 == 16,
{
    reveal(bit);
    let gdt_descriptor = TableDescriptor::new(table_address, GDT_SIZE as u16);
    let code_segment = SegmentSelector::get_code_segment_selector().to_bits();
    let data_segment = SegmentSelector::get_data_segment_selector().to_bits();
    (gdt_descriptor, code_segment, data_segment)
}

} // verus!
