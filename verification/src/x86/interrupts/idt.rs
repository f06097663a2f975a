use super::{ExceptionHandler, InterruptHandler};
use crate::bits::{bit, bit_value};
use crate::x86::gdt::SegmentSelector;
use crate::x86::{PrivilegeLevel, TableDescriptor};
use core::marker::PhantomData;
use vstd::prelude::*;

verus! {

/// The number of entries in the table.
pub const IDT_LENGTH: usize = 256;

/// How the processor enters a handler.
#[derive(Debug, Clone, Copy, PartialEq, Eq, Structural)]
pub enum InterruptGateType {
    InterruptGate,
    TrapGate,
}

impl InterruptGateType {
    /// The four bits that stand for the kind: 0b1110 for an interrupt gate,
    /// 0b1111 for a trap gate.
    pub open spec fn value(self) -> int {
        match self {
            InterruptGateType::InterruptGate => 0xE,
            InterruptGateType::TrapGate => 0xF,
        }
    }

    /// The four bits that stand for the kind.
    pub fn to_bits(self) -> (bits: u8)
        ensures
            bits == self.value(),
    {
        match self {
            InterruptGateType::InterruptGate => 0xE,
            InterruptGateType::TrapGate => 0xF,
        }
    }
}

/// The byte of an entry that holds the type of its gate, the ring that may
/// call it, and whether the entry is there.
#[derive(Debug, Default, Clone, Copy, PartialEq, Eq, Structural)]
pub struct IDTEntryFlags {
    pub bits: u8,
}

/// The byte for a gate of type `gate_type` that ring `privilege_level` may
/// call: bits 0 to 3 hold the type, bits 5 and 6 the ring, bit 7 says that
/// the entry is there.
pub open spec fn gate_flags(
    gate_type: InterruptGateType,
    privilege_level: PrivilegeLevel,
    present: bool,
) -> int {
    gate_type.value() + privilege_level.value() * 0x20 + bit(present, 0x80)
}

impl IDTEntryFlags {
    /// The byte without a bit set: no entry.
    pub fn new() -> (flags: Self)
        ensures
            flags.bits == 0,
            !flags.is_present(),
    {
        Self { bits: 0 }
    }

    /// The byte for a gate.
    pub fn gate(gate_type: InterruptGateType, privilege_level: PrivilegeLevel, present: bool) -> (flags:
        Self)
        ensures
            flags.bits == gate_flags(gate_type, privilege_level, present),
            flags.is_present() == present,
    {
        reveal(bit);
        Self {
            bits: ((gate_type.to_bits() as u32) + (privilege_level.to_bits() as u32) * 0x20
                + bit_value(present, 0x80)) as u8,
        }
    }

    /// The entry is there: bit 7.
    pub open spec fn is_present(&self) -> bool {
        self.bits >= 0x80
    }

    /// Whether the entry is there.
    pub fn present(&self) -> (present: bool)
        ensures
            present == self.is_present(),
    {
        self.bits >= 0x80
    }
}

/// One entry of the interrupt descriptor table, a gate to a handler of
/// the kind that `F` marks.
#[derive(Debug)]
pub struct IDTEntry<F> {
    pub lower_half_offset: u16,
    pub segment_selector: SegmentSelector,
    pub zero: u8,
    pub flags: IDTEntryFlags,
    pub higher_half_offset: u16,
    pub _phantom: PhantomData<F>,
}

impl<F> IDTEntry<F> {
    /// The eight bytes of the entry as one number: the low half of the
    /// handler's address, the selector of its code segment, a byte of 0,
    /// the flags, and the high half of the address.
    pub open spec fn value(&self) -> int {
        self.lower_half_offset + self.segment_selector.value() * 0x1_0000 + self.zero
            * 0x1_0000_0000 + self.flags.bits * 0x100_0000_0000 + self.higher_half_offset
            * 0x1_0000_0000_0000
    }

    /// The address of the handler.
    pub open spec fn handler(&self) -> int {
        self.lower_half_offset + self.higher_half_offset * 0x1_0000
    }

    /// A handler is installed.
    pub open spec fn is_present(&self) -> bool {
        self.flags.is_present()
    }

    /// The entry without a handler: eight bytes of 0.
    pub fn zeroed() -> (entry: Self)
        ensures
            !entry.is_present(),
            entry.value() == 0,
            entry.handler() == 0,
    {
        reveal(bit);
        Self {
            lower_half_offset: 0,
            segment_selector: SegmentSelector::new(),
            zero: 0,
            flags: IDTEntryFlags::new(),
            higher_half_offset: 0,
            _phantom: PhantomData,
        }
    }

    /// Installs the handler at `addr`, to be entered through an interrupt
    /// gate that only ring 0 may call. `code_segment` is what the code
    /// segment register holds; its index becomes the index of the entry's
    /// selector.
    pub fn set_handler_addr(&mut self, addr: u32, code_segment: u16)
        ensures
            final(self).is_present(),
            final(self).handler() == addr,
            final(self).flags.bits == gate_flags(
                InterruptGateType::InterruptGate,
                PrivilegeLevel::RingZero,
                true,
            ),
            final(self).flags.bits == 0x8E,
            final(self).segment_selector == (SegmentSelector {
                index: (code_segment / 8) as u16,
                ..old(self).segment_selector
            }),
            final(self).zero == old(self).zero,
    {
        self.lower_half_offset = (addr % 0x1_0000) as u16;
        self.higher_half_offset = (addr / 0x1_0000) as u16;

        self.segment_selector.index = code_segment / 8;

        self.flags = IDTEntryFlags::gate(
            InterruptGateType::InterruptGate,
            PrivilegeLevel::RingZero,
            true,
        );
        proof {
            reveal(bit);
        }
    }

    /// The eight bytes of the entry as one number.
    pub fn to_bits(&self) -> (bits: u64)
        ensures
            bits == self.value(),
    {
        (self.lower_half_offset as u64) + (self.segment_selector.to_bits() as u64) * 0x1_0000 + (
        self.zero as u64) * 0x1_0000_0000 + (self.flags.bits as u64) * 0x100_0000_0000 + (
        self.higher_half_offset as u64) * 0x1_0000_0000_0000
    }
}

/// The interrupt descriptor table: the 32 entries of the processor's
/// exceptions, then 224 for the interrupts of devices.
pub struct InterruptDescriptorTable {
    pub division_error: IDTEntry<InterruptHandler>,
    pub debug: IDTEntry<InterruptHandler>,
    pub non_maskable_interrupt: IDTEntry<InterruptHandler>,
    pub breakpoint: IDTEntry<InterruptHandler>,
    pub overflow: IDTEntry<InterruptHandler>,
    pub bound_range_exceeded: IDTEntry<InterruptHandler>,
    pub invalid_opcode: IDTEntry<InterruptHandler>,
    pub device_not_available: IDTEntry<InterruptHandler>,
    pub double_fault: IDTEntry<ExceptionHandler>,
    pub coprocessor_segment_overrun: IDTEntry<InterruptHandler>,
    pub invalid_tss: IDTEntry<ExceptionHandler>,
    pub segment_not_present: IDTEntry<ExceptionHandler>,
    pub stack_segment_fault: IDTEntry<ExceptionHandler>,
    pub general_protection_fault: IDTEntry<ExceptionHandler>,
    pub page_fault: IDTEntry<ExceptionHandler>,
    pub reserved_1: IDTEntry<InterruptHandler>,
    pub x87_floating_point_exception: IDTEntry<InterruptHandler>,
    pub alignment_check: IDTEntry<ExceptionHandler>,
    pub machine_check: IDTEntry<InterruptHandler>,
    pub simd_floating_point_exception: IDTEntry<InterruptHandler>,
    pub virtualization_exception: IDTEntry<InterruptHandler>,
    pub control_protection_exception: IDTEntry<ExceptionHandler>,
    pub reserved_2: [IDTEntry<InterruptHandler>; 6],
    pub hypervisor_injection_exception: IDTEntry<ExceptionHandler>,
    pub vmm_communication_exception: IDTEntry<ExceptionHandler>,
    pub security_exception: IDTEntry<ExceptionHandler>,
    pub reserved_3: IDTEntry<InterruptHandler>,
    pub interrupts: Vec<IDTEntry<InterruptHandler>>,
}

impl InterruptDescriptorTable {
    /// The table has its 224 entries for the interrupts of devices.
    pub open spec fn wf(&self) -> bool {
        self.interrupts@.len() == IDT_LENGTH - 32
    }

    /// Whether the entry of vector `vector` has a handler.
    pub open spec fn is_present(&self, vector: int) -> bool {
        if vector == 0 {
            self.division_error.is_present()
        } else if vector == 1 {
            self.debug.is_present()
        } else if vector == 2 {
            self.non_maskable_interrupt.is_present()
        } else if vector == 3 {
            self.breakpoint.is_present()
        } else if vector == 4 {
            self.overflow.is_present()
        } else if vector == 5 {
            self.bound_range_exceeded.is_present()
        } else if vector == 6 {
            self.invalid_opcode.is_present()
        } else if vector == 7 {
            self.device_not_available.is_present()
        } else if vector == 8 {
            self.double_fault.is_present()
        } else if vector == 9 {
            self.coprocessor_segment_overrun.is_present()
        } else if vector == 10 {
            self.invalid_tss.is_present()
        } else if vector == 11 {
            self.segment_not_present.is_present()
        } else if vector == 12 {
            self.stack_segment_fault.is_present()
        } else if vector == 13 {
            self.general_protection_fault.is_present()
        } else if vector == 14 {
            self.page_fault.is_present()
        } else if vector == 15 {
            self.reserved_1.is_present()
        } else if vector == 16 {
            self.x87_floating_point_exception.is_present()
        } else if vector == 17 {
            self.alignment_check.is_present()
        } else if vector == 18 {
            self.machine_check.is_present()
        } else if vector == 19 {
            self.simd_floating_point_exception.is_present()
        } else if vector == 20 {
            self.virtualization_exception.is_present()
        } else if vector == 21 {
            self.control_protection_exception.is_present()
        } else if vector < 28 {
            self.reserved_2@[vector - 22].is_present()
        } else if vector == 28 {
            self.hypervisor_injection_exception.is_present()
        } else if vector == 29 {
            self.vmm_communication_exception.is_present()
        } else if vector == 30 {
            self.security_exception.is_present()
        } else if vector == 31 {
            self.reserved_3.is_present()
        } else {
            self.interrupts@[vector - 32].is_present()
        }
    }

    /// The eight bytes of the entry of vector `vector` as one number.
    pub open spec fn value_of(&self, vector: int) -> int {
        if vector == 0 {
            self.division_error.value()
        } else if vector == 1 {
            self.debug.value()
        } else if vector == 2 {
            self.non_maskable_interrupt.value()
        } else if vector == 3 {
            self.breakpoint.value()
        } else if vector == 4 {
            self.overflow.value()
        } else if vector == 5 {
            self.bound_range_exceeded.value()
        } else if vector == 6 {
            self.invalid_opcode.value()
        } else if vector == 7 {
            self.device_not_available.value()
        } else if vector == 8 {
            self.double_fault.value()
        } else if vector == 9 {
            self.coprocessor_segment_overrun.value()
        } else if vector == 10 {
            self.invalid_tss.value()
        } else if vector == 11 {
            self.segment_not_present.value()
        } else if vector == 12 {
            self.stack_segment_fault.value()
        } else if vector == 13 {
            self.general_protection_fault.value()
        } else if vector == 14 {
            self.page_fault.value()
        } else if vector == 15 {
            self.reserved_1.value()
        } else if vector == 16 {
            self.x87_floating_point_exception.value()
        } else if vector == 17 {
            self.alignment_check.value()
        } else if vector == 18 {
            self.machine_check.value()
        } else if vector == 19 {
            self.simd_floating_point_exception.value()
        } else if vector == 20 {
            self.virtualization_exception.value()
        } else if vector == 21 {
            self.control_protection_exception.value()
        } else if vector < 28 {
            self.reserved_2@[vector - 22].value()
        } else if vector == 28 {
            self.hypervisor_injection_exception.value()
        } else if vector == 29 {
            self.vmm_communication_exception.value()
        } else if vector == 30 {
            self.security_exception.value()
        } else if vector == 31 {
            self.reserved_3.value()
        } else {
            self.interrupts@[vector - 32].value()
        }
    }

    /// The table without a handler.
    pub fn new() -> (table: Self)
        ensures
            table.wf(),
            forall|vector: int| 0 <= vector < 256 ==> !table.is_present(vector),
            forall|vector: int| 0 <= vector < 256 ==> table.value_of(vector) == 0,
    {
        let mut interrupts: Vec<IDTEntry<InterruptHandler>> = Vec::new();
        let mut index: usize = 0;
        while index < IDT_LENGTH - 32
            invariant
                index <= IDT_LENGTH - 32,
                interrupts@.len() == index,
                forall|i: int|
                    0 <= i < index ==> !(#[trigger] interrupts@[i]).is_present() && interrupts@[i].value()
                        == 0,
            decreases IDT_LENGTH - 32 - index,
        {
            interrupts.push(IDTEntry::zeroed());
            index = index + 1;
        }
        Self {
            division_error: IDTEntry::zeroed(),
            debug: IDTEntry::zeroed(),
            non_maskable_interrupt: IDTEntry::zeroed(),
            breakpoint: IDTEntry::zeroed(),
            overflow: IDTEntry::zeroed(),
            bound_range_exceeded: IDTEntry::zeroed(),
            invalid_opcode: IDTEntry::zeroed(),
            device_not_available: IDTEntry::zeroed(),
            double_fault: IDTEntry::zeroed(),
            coprocessor_segment_overrun: IDTEntry::zeroed(),
            invalid_tss: IDTEntry::zeroed(),
            segment_not_present: IDTEntry::zeroed(),
            stack_segment_fault: IDTEntry::zeroed(),
            general_protection_fault: IDTEntry::zeroed(),
            page_fault: IDTEntry::zeroed(),
            reserved_1: IDTEntry::zeroed(),
            x87_floating_point_exception: IDTEntry::zeroed(),
            alignment_check: IDTEntry::zeroed(),
            machine_check: IDTEntry::zeroed(),
            simd_floating_point_exception: IDTEntry::zeroed(),
            virtualization_exception: IDTEntry::zeroed(),
            control_protection_exception: IDTEntry::zeroed(),
            reserved_2: [
                IDTEntry::zeroed(),
                IDTEntry::zeroed(),
                IDTEntry::zeroed(),
                IDTEntry::zeroed(),
                IDTEntry::zeroed(),
                IDTEntry::zeroed(),
            ],
            hypervisor_injection_exception: IDTEntry::zeroed(),
            vmm_communication_exception: IDTEntry::zeroed(),
            reserved_3: IDTEntry::zeroed(),
            security_exception: IDTEntry::zeroed(),
            interrupts,
        }
    }

    /// Installs the handler at `addr` for the device interrupt of vector
    /// `vector`, and leaves every other entry as it is.
    pub fn set_interrupt_handler(&mut self, vector: u8, addr: u32, code_segment: u16)
        requires
            old(self).wf(),
            vector >= 32,
        ensures
            final(self).wf(),
            final(self).is_present(vector as int),
            final(self).interrupts@[vector - 32].handler() == addr,
            final(self).interrupts@[vector - 32].flags.bits == 0x8E,
            final(self).interrupts@[vector - 32].segment_selector == (SegmentSelector {
                index: (code_segment / 8) as u16,
                ..old(self).interrupts@[vector - 32].segment_selector
            }),
            forall|other: int|
                0 <= other < 256 && other != vector ==> final(self).is_present(other) == old(self).is_present(other)
                    && final(self).value_of(other) == old(self).value_of(other),
    {
        let index = (vector as usize) - 32;
        self.interrupts[index].set_handler_addr(addr, code_segment);
    }

    /// The 256 entries of the table in the order of their vectors, each as
    /// one number of eight bytes.
    pub fn to_bits(&self) -> (bits: Vec<u64>)
        requires
            self.wf(),
        ensures
            bits@.len() == IDT_LENGTH,
            forall|vector: int| 0 <= vector < 256 ==> #[trigger] bits@[vector] == self.value_of(vector),
    {
        let mut bits: Vec<u64> = Vec::new();
        bits.push(self.division_error.to_bits());
        bits.push(self.debug.to_bits());
        bits.push(self.non_maskable_interrupt.to_bits());
        bits.push(self.breakpoint.to_bits());
        bits.push(self.overflow.to_bits());
        bits.push(self.bound_range_exceeded.to_bits());
        bits.push(self.invalid_opcode.to_bits());
        bits.push(self.device_not_available.to_bits());
        bits.push(self.double_fault.to_bits());
        bits.push(self.coprocessor_segment_overrun.to_bits());
        bits.push(self.invalid_tss.to_bits());
        bits.push(self.segment_not_present.to_bits());
        bits.push(self.stack_segment_fault.to_bits());
        bits.push(self.general_protection_fault.to_bits());
        bits.push(self.page_fault.to_bits());
        bits.push(self.reserved_1.to_bits());
        bits.push(self.x87_floating_point_exception.to_bits());
        bits.push(self.alignment_check.to_bits());
        bits.push(self.machine_check.to_bits());
        bits.push(self.simd_floating_point_exception.to_bits());
        bits.push(self.virtualization_exception.to_bits());
        bits.push(self.control_protection_exception.to_bits());
        let mut index: usize = 0;
        while index < 6
            invariant
                index <= 6,
                bits@.len() == 22 + index,
                forall|vector: int| 0 <= vector < 22 + index ==> #[trigger] bits@[vector] == self.value_of(vector),
            decreases 6 - index,
        {
            bits.push(self.reserved_2[index].to_bits());
            index = index + 1;
        }
        bits.push(self.hypervisor_injection_exception.to_bits());
        bits.push(self.vmm_communication_exception.to_bits());
        bits.push(self.security_exception.to_bits());
        bits.push(self.reserved_3.to_bits());
        let mut index: usize = 0;
        while index < IDT_LENGTH - 32
            invariant
                index <= IDT_LENGTH - 32,
                self.wf(),
                bits@.len() == 32 + index,
                forall|vector: int| 0 <= vector < 32 + index ==> #[trigger] bits@[vector] == self.value_of(vector),
            decreases IDT_LENGTH - 32 - index,
        {
            bits.push(self.interrupts[index].to_bits());
            index = index + 1;
        }
        bits
    }

    /// The entry of the device interrupt of vector `index`.
    pub fn index(&self, index: u8) -> (entry: &IDTEntry<InterruptHandler>)
        requires
            self.wf(),
            index >= 32,
        ensures
            *entry == self.interrupts@[index - 32],
    {
        let index = (index as usize) - 32;
        &self.interrupts[index]
    }
}

/// What the processor is told to load the table at `table_address`: 256
/// entries of eight bytes.
pub fn load_idt(table_address: u32) -> (descriptor: TableDescriptor)
    ensures
        descriptor == (TableDescriptor { size: 2047, offset: table_address }),
{
    TableDescriptor::new(table_address, IDT_LENGTH as u16)
}

} // verus!
