use super::cpu_flags::CpuFlags;
use vstd::prelude::*;

pub mod idt;
pub mod pic_8259;

use pic_8259::MASTER_INTERRUPT_OFFSET;

verus! {

/// The interrupts of the legacy devices.
#[derive(Debug, Clone, Copy, PartialEq, Eq, Structural)]
pub enum PciInterruptIndex {
    Timer,
    Keyboard,
}

impl PciInterruptIndex {
    /// The vector of the interrupt: the timer has the first vector of the
    /// master controller, the keyboard the second.
    pub open spec fn vector(self) -> u8 {
        match self {
            PciInterruptIndex::Timer => MASTER_INTERRUPT_OFFSET,
            PciInterruptIndex::Keyboard => (MASTER_INTERRUPT_OFFSET + 1) as u8,
        }
    }

    /// The vector of the interrupt.
    pub fn to_u8(self) -> (vector: u8)
        ensures
            vector == self.vector(),
    {
        match self {
            PciInterruptIndex::Timer => MASTER_INTERRUPT_OFFSET,
            PciInterruptIndex::Keyboard => MASTER_INTERRUPT_OFFSET + 1,
        }
    }
}

/// What the processor pushes before it calls an interrupt handler.
#[derive(Debug, Clone, Copy, PartialEq, Eq, Structural)]
pub struct InterruptStackFrame {
    pub instruction_pointer: usize,
    pub code_segment: usize,
    pub cpu_flags: CpuFlags,
    pub stack_pointer: usize,
    pub stack_segment: usize,
}

/// The mark of a handler that is called with an error code.
#[derive(Debug, Clone, Copy, PartialEq, Eq, Structural)]
pub struct ExceptionHandler {}

/// The mark of a handler that is called without an error code.
#[derive(Debug, Clone, Copy, PartialEq, Eq, Structural)]
pub struct InterruptHandler {}

} // verus!
