use super::PrivilegeLevel;
use crate::bits::{has_bit, test_bit};
use vstd::prelude::*;

verus! {

pub const CARRY: u32 = 0x1;

pub const PARITY: u32 = 0x4;

pub const ADJUST: u32 = 0x10;

pub const ZERO: u32 = 0x40;

pub const SIGN: u32 = 0x80;

pub const TRAP: u32 = 0x100;

pub const INTERRUPT_ENABLED: u32 = 0x200;

pub const DIRECTION: u32 = 0x400;

pub const OVERFLOW: u32 = 0x800;

pub const IO_PRIVILEGE_LEVEL: u32 = 0x3000;

pub const NESTED_TASK: u32 = 0x4000;

pub const MODE: u32 = 0x8000;

pub const RESUME: u32 = 0x1_0000;

pub const VIRTUAL_8086_MODE: u32 = 0x2_0000;

pub const SMAP_ACCESS_CHECK: u32 = 0x4_0000;

pub const VIRTUAL_INTERRUPT: u32 = 0x8_0000;

pub const VIRTUAL_INTERRUPT_PENDING: u32 = 0x10_0000;

pub const CPUID_USABLE: u32 = 0x20_0000;

pub const AES_KEY_SCHEDULE_LOADED: u32 = 0x4000_0000;

/// The flags register of the processor.
#[derive(Debug, Clone, Copy, PartialEq, Eq, Structural)]
pub struct CpuFlags {
    pub bits: u32,
}

impl CpuFlags {
    /// The flags whose register reads `bits`.
    pub fn from_bits(bits: u32) -> (flags: Self)
        ensures
            flags.bits == bits,
    {
        Self { bits }
    }

    /// What the register reads.
    pub fn into_bits(self) -> (bits: u32)
        ensures
            bits == self.bits,
    {
        self.bits
    }

    /// Whether the processor takes interrupts: bit 9.
    pub open spec fn interrupts_on(&self) -> bool {
        has_bit(self.bits as int, INTERRUPT_ENABLED as int)
    }

    pub fn carry(&self) -> (set: bool)
        ensures
            set == has_bit(self.bits as int, CARRY as int),
    {
        test_bit(self.bits, CARRY)
    }

    pub fn parity(&self) -> (set: bool)
        ensures
            set == has_bit(self.bits as int, PARITY as int),
    {
        test_bit(self.bits, PARITY)
    }

    pub fn zero(&self) -> (set: bool)
        ensures
            set == has_bit(self.bits as int, ZERO as int),
    {
        test_bit(self.bits, ZERO)
    }

    pub fn sign(&self) -> (set: bool)
        ensures
            set == has_bit(self.bits as int, SIGN as int),
    {
        test_bit(self.bits, SIGN)
    }

    pub fn trap(&self) -> (set: bool)
        ensures
            set == has_bit(self.bits as int, TRAP as int),
    {
        test_bit(self.bits, TRAP)
    }

    pub fn interrupt_enabled(&self) -> (set: bool)
        ensures
            set == self.interrupts_on(),
    {
        test_bit(self.bits, INTERRUPT_ENABLED)
    }

    pub fn direction(&self) -> (set: bool)
        ensures
            set == has_bit(self.bits as int, DIRECTION as int),
    {
        test_bit(self.bits, DIRECTION)
    }

    pub fn overflow(&self) -> (set: bool)
        ensures
            set == has_bit(self.bits as int, OVERFLOW as int),
    {
        test_bit(self.bits, OVERFLOW)
    }

    /// The ring that may use the I/O ports: bits 12 and 13.
    pub fn io_privilege_level(&self) -> (level: PrivilegeLevel)
        ensures
            level == PrivilegeLevel::of(self.bits as int / 0x1000),
    {
        PrivilegeLevel::from_bits(((self.bits / 0x1000) % 4) as u8)
    }

    /// The flags with the interrupt flag as `enabled` says and every other
    /// bit as it is.
    pub fn with_interrupt_enabled(self, enabled: bool) -> (flags: Self)
        ensures
            flags.interrupts_on() == enabled,
            flags.bits == if enabled {
                self.bits | INTERRUPT_ENABLED
            } else {
                self.bits & !INTERRUPT_ENABLED
            },
    {
        let bits = self.bits;
        if enabled {
            let set = bits | INTERRUPT_ENABLED;
            assert((set / 0x200u32) % 2 == 1) by (bit_vector)
                requires
                    set == bits | 0x200u32,
            ;
            Self { bits: set }
        } else {
            let cleared = bits & !INTERRUPT_ENABLED;
            assert((cleared / 0x200u32) % 2 == 0) by (bit_vector)
                requires
                    cleared == bits & !0x200u32,
            ;
            Self { bits: cleared }
        }
    }
}

/// What the flags become when every bit that is set in `cpu_flags` is set
/// in them as well.
pub fn set_specific_cpu_flags(current: CpuFlags, cpu_flags: CpuFlags) -> (merged: CpuFlags)
    ensures
        merged.bits == current.bits | cpu_flags.bits,
{
    CpuFlags { bits: current.bits | cpu_flags.bits }
}

/// What the flags become when every bit that is set in `cpu_flags` is
/// cleared in them.
pub fn unset_specific_cpu_flags(current: CpuFlags, cpu_flags: CpuFlags) -> (cleared: CpuFlags)
    ensures
        cleared.bits == current.bits & !cpu_flags.bits,
{
    CpuFlags { bits: current.bits & !cpu_flags.bits }
}

} // verus!
