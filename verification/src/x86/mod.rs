use vstd::prelude::*;

pub mod cpu_flags;
pub mod gdt;
pub mod interrupts;

verus! {

/// One of the four rings of protection.
#[derive(Debug, Clone, Copy, PartialEq, Eq, Structural)]
pub enum PrivilegeLevel {
    RingZero,
    RingOne,
    RingTwo,
    RingThree,
}

impl PrivilegeLevel {
    /// The number of the ring.
    pub open spec fn value(self) -> int {
        match self {
            PrivilegeLevel::RingZero => 0,
            PrivilegeLevel::RingOne => 1,
            PrivilegeLevel::RingTwo => 2,
            PrivilegeLevel::RingThree => 3,
        }
    }

    /// The ring with the number that the two low bits of `bits` hold.
    pub open spec fn of(bits: int) -> PrivilegeLevel {
        if bits % 4 == 0 {
            PrivilegeLevel::RingZero
        } else if bits % 4 == 1 {
            PrivilegeLevel::RingOne
        } else if bits % 4 == 2 {
            PrivilegeLevel::RingTwo
        } else {
            PrivilegeLevel::RingThree
        }
    }

    /// The number of the ring.
    pub fn to_bits(self) -> (bits: u8)
        ensures
            bits == self.value(),
    {
        match self {
            PrivilegeLevel::RingZero => 0,
            PrivilegeLevel::RingOne => 1,
            PrivilegeLevel::RingTwo => 2,
            PrivilegeLevel::RingThree => 3,
        }
    }

    /// The ring with the number that the two low bits of `bits` hold.
    pub fn from_bits(bits: u8) -> (level: Self)
        ensures
            level == Self::of(bits as int),
    {
        match bits % 4 {
            0 => PrivilegeLevel::RingZero,
            1 => PrivilegeLevel::RingOne,
            2 => PrivilegeLevel::RingTwo,
            _ => PrivilegeLevel::RingThree,
        }
    }
}

/// What the processor is told of a descriptor table: the offset of its
/// last byte and the address at which it starts.
#[derive(Debug, Default, Clone, Copy, PartialEq, Eq, Structural)]
pub struct TableDescriptor {
    pub size: u16,
    pub offset: u32,
}

impl TableDescriptor {
    /// The descriptor of a table of `entries` entries of eight bytes each
    /// at `offset`.
    pub fn new(offset: u32, entries: u16) -> (descriptor: Self)
        requires
            0 < entries <= 8192,
        ensures
            descriptor.offset == offset,
            descriptor.size == entries * 8 - 1,
    {
        Self { offset, size: (((entries as u32) * 8) - 1) as u16 }
    }
}

} // verus!
