use vstd::prelude::*;

verus! {

/// Bit 0 of a base address register: set for I/O space.
pub const BASE_ADDRESS_REGISTERS_TYPE_MASK: u32 = 0x1;

/// Bits 2:1 of a memory base address register: the width of the address.
pub const BASE_ADDRESS_REGISTERS_MEMORY_SPACE_TYPE_MASK: u32 = 0x6;

/// Bit 3 of a memory base address register: the window may be prefetched.
pub const BASE_ADDRESS_REGISTERS_PREFETCHABLE_MASK: u32 = 0x8;

/// The bits of an I/O base address register that hold the address.
pub const BASE_ADDRESS_REGISTERS_IO_SIZE_MASK: u32 = 0xFFFF_FFFC;

/// The bits of a memory base address register that hold the address.
pub const BASE_ADDRESS_REGISTERS_MEMORY_SIZE_MASK: u32 = 0xFFFF_FFF0;

/// What a base address register stands for once its size is known.
#[allow(inconsistent_fields)]
#[derive(Debug, Clone, Copy, PartialEq, Eq, Structural)]
pub enum BaseAddressRegister {
    /// The device asks for no window at this register.
    Empty,
    /// A window in I/O space.
    IoSpace { address: u32, size: u32 },
    /// A window in memory with an address of 32 bits.
    MemorySpace32 { address: u32, size: u32, prefetchable: bool },
    /// A window in memory with an address of 64 bits; it takes this
    /// register and the next.
    MemorySpace64 { address: u64, size: u64, prefetchable: bool },
}

/// How a base address register is to be sized, as its original value says.
#[derive(Debug, Clone, Copy, PartialEq, Eq, Structural)]
pub enum BarKind {
    Io,
    Memory32,
    Memory64,
    Unknown,
}

/// The kind of the register whose original value is `original`: I/O where
/// bit 0 is set; else memory, of 32 bits where bits 2:1 are 00 and of 64
/// bits where they are 10.
pub open spec fn bar_kind(original: u32) -> BarKind {
    if original & BASE_ADDRESS_REGISTERS_TYPE_MASK != 0 {
        BarKind::Io
    } else if (original & BASE_ADDRESS_REGISTERS_MEMORY_SPACE_TYPE_MASK) >> 1 == 0 {
        BarKind::Memory32
    } else if (original & BASE_ADDRESS_REGISTERS_MEMORY_SPACE_TYPE_MASK) >> 1 == 2 {
        BarKind::Memory64
    } else {
        BarKind::Unknown
    }
}

/// The size that a register of 32 bits states: what reads back after all
/// ones were written, without the bits outside `mask`, inverted, plus one;
/// 0 where that does not fit, which says that there is no window.
pub open spec fn window_size(probed: u32, mask: u32) -> u32 {
    if probed & mask == 0 {
        0
    } else {
        ((!(probed & mask)) + 1) as u32
    }
}

/// The size that a register pair of 64 bits states.
pub open spec fn window_size_64(probed: u64) -> u64 {
    if probed & 0xFFFF_FFFF_FFFF_FFF0 == 0 {
        0
    } else {
        ((!(probed & 0xFFFF_FFFF_FFFF_FFF0)) + 1) as u64
    }
}

/// The two halves of a register pair as one value.
pub open spec fn joined(low: u32, high: u32) -> u64 {
    (low as u64) | ((high as u64) << 32)
}

/// The I/O window of a register with original value `original` that read
/// `probed` after all ones were written.
pub open spec fn io_space_bar(original: u32, probed: u32) -> BaseAddressRegister {
    if window_size(probed, BASE_ADDRESS_REGISTERS_IO_SIZE_MASK) == 0 {
        BaseAddressRegister::Empty
    } else {
        BaseAddressRegister::IoSpace {
            address: original & BASE_ADDRESS_REGISTERS_IO_SIZE_MASK,
            size: window_size(probed, BASE_ADDRESS_REGISTERS_IO_SIZE_MASK),
        }
    }
}

/// The memory window of a register of 32 bits.
pub open spec fn mmio_32bit_bar(original: u32, probed: u32) -> BaseAddressRegister {
    if window_size(probed, BASE_ADDRESS_REGISTERS_MEMORY_SIZE_MASK) == 0 {
        BaseAddressRegister::Empty
    } else {
        BaseAddressRegister::MemorySpace32 {
            address: original & BASE_ADDRESS_REGISTERS_MEMORY_SIZE_MASK,
            size: window_size(probed, BASE_ADDRESS_REGISTERS_MEMORY_SIZE_MASK),
            prefetchable: original & BASE_ADDRESS_REGISTERS_PREFETCHABLE_MASK != 0,
        }
    }
}

/// The memory window of a register pair of 64 bits.
pub open spec fn mmio_64bit_bar(
    original: u32,
    original_high: u32,
    probed: u32,
    probed_high: u32,
) -> BaseAddressRegister {
    if window_size_64(joined(probed, probed_high)) == 0 {
        BaseAddressRegister::Empty
    } else {
        BaseAddressRegister::MemorySpace64 {
            address: joined(original & BASE_ADDRESS_REGISTERS_MEMORY_SIZE_MASK, original_high),
            size: window_size_64(joined(probed, probed_high)),
            prefetchable: original & BASE_ADDRESS_REGISTERS_PREFETCHABLE_MASK != 0,
        }
    }
}

/// The kind of the register whose original value is `original`.
pub fn kind_of(original: u32) -> (kind: BarKind)
    ensures
        kind == bar_kind(original),
{
    if original & BASE_ADDRESS_REGISTERS_TYPE_MASK != 0 {
        BarKind::Io
    } else {
        let memory_type = (original & BASE_ADDRESS_REGISTERS_MEMORY_SPACE_TYPE_MASK) >> 1;
        if memory_type == 0 {
            BarKind::Memory32
        } else if memory_type == 2 {
            BarKind::Memory64
        } else {
            BarKind::Unknown
        }
    }
}

/// The I/O window that a register states.
pub fn parse_io_space_bar(original_register_value: u32, probed: u32) -> (bar: BaseAddressRegister)
    ensures
        bar == io_space_bar(original_register_value, probed),
{
    let (size, overflow) = size_of_window(probed & BASE_ADDRESS_REGISTERS_IO_SIZE_MASK);
    if overflow {
        // the device asked for no space: there is no window here
        return BaseAddressRegister::Empty;
    }
    BaseAddressRegister::IoSpace {
        address: original_register_value & BASE_ADDRESS_REGISTERS_IO_SIZE_MASK,
        size,
    }
}

/// The memory window that a register of 32 bits states.
pub fn parse_32bit_mmio_space_bar(original_register_value: u32, probed: u32) -> (bar:
    BaseAddressRegister)
    ensures
        bar == mmio_32bit_bar(original_register_value, probed),
{
    let (size, overflow) = size_of_window(probed & BASE_ADDRESS_REGISTERS_MEMORY_SIZE_MASK);
    if overflow {
        return BaseAddressRegister::Empty;
    }
    BaseAddressRegister::MemorySpace32 {
        prefetchable: original_register_value & BASE_ADDRESS_REGISTERS_PREFETCHABLE_MASK != 0,
        address: original_register_value & BASE_ADDRESS_REGISTERS_MEMORY_SIZE_MASK,
        size,
    }
}

/// The memory window that a register pair of 64 bits states.
pub fn parse_64bit_mmio_space_bar(
    original_register_value: u32,
    original_second_register_contents: u32,
    probed: u32,
    probed_second: u32,
) -> (bar: BaseAddressRegister)
    ensures
        bar == mmio_64bit_bar(
            original_register_value,
            original_second_register_contents,
            probed,
            probed_second,
        ),
{
    let long_register_value = join(probed, probed_second);
    let masked = long_register_value & 0xFFFF_FFFF_FFFF_FFF0;
    if masked == 0 {
        return BaseAddressRegister::Empty;
    }
    let inverted = !masked;
    assert(inverted < 0xFFFF_FFFF_FFFF_FFFFu64) by (bit_vector)
        requires
            inverted == !masked,
            masked != 0,
    ;
    let size = inverted + 1;
    BaseAddressRegister::MemorySpace64 {
        prefetchable: original_register_value & BASE_ADDRESS_REGISTERS_PREFETCHABLE_MASK != 0,
        address: join(
            original_register_value & BASE_ADDRESS_REGISTERS_MEMORY_SIZE_MASK,
            original_second_register_contents,
        ),
        size,
    }
}

/// The two halves of a register pair as one value.
fn join(low: u32, high: u32) -> (value: u64)
    ensures
        value == joined(low, high),
{
    (low as u64) | ((high as u64) << 32)
}

/// The inverse of `masked` plus one, and whether that did not fit.
fn size_of_window(masked: u32) -> (result: (u32, bool))
    ensures
        result.1 == (masked == 0),
        masked != 0 ==> result.0 == (!masked) + 1,
        masked == 0 ==> result.0 == 0,
{
    let inverted = !masked;
    assert(inverted == 0xFFFF_FFFFu32 <==> masked == 0) by (bit_vector)
        requires
            inverted == !masked,
    ;
    if inverted == u32::MAX {
        (0, true)
    } else {
        (inverted + 1, false)
    }
}

} // verus!
