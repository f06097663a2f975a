use kernel_core::mutex::Mutex;
use kernel_core::x86::cpu_flags::{
    set_specific_cpu_flags, unset_specific_cpu_flags, CpuFlags, INTERRUPT_ENABLED,
};
use kernel_core::x86::gdt::{
    gdt, load_gdt, GDTEntry, GDTEntryAccessByte, GDTEntryFlags, SegmentSelector,
};
use kernel_core::x86::interrupts::idt::{
    load_idt, IDTEntry, IDTEntryFlags, InterruptDescriptorTable, InterruptGateType,
};
use kernel_core::x86::interrupts::pic_8259::{Pic, Pics, PortWrite};
use kernel_core::x86::interrupts::{InterruptHandler, PciInterruptIndex};
use kernel_core::x86::{PrivilegeLevel, TableDescriptor};

#[test]
fn gdt_entries() {
    assert_eq!(GDTEntry::null_segment().to_bits(), 0);
    assert_eq!(GDTEntry::code_segment().to_bits(), 0x00CF_9E00_0000_FFFF);
    assert_eq!(GDTEntry::data_segment().to_bits(), 0x00CF_9200_0000_FFFF);
    let table = gdt();
    assert_eq!(table.len(), 3);
    assert_eq!(table[1], GDTEntry::code_segment());
    let code = GDTEntry::code_segment();
    assert!(code.access_byte.present && code.access_byte.executable && code.access_byte.read_write);
    assert_eq!(code.access_byte.privilege_level, PrivilegeLevel::RingZero);
    assert!(code.flags.granularity && code.flags.size && !code.flags.long_mode);
    let data = GDTEntry::data_segment();
    assert!(data.access_byte.present && !data.access_byte.executable && data.access_byte.read_write);
}

#[test]
fn gdt_segment_fields() {
    let access = GDTEntryAccessByte {
        accessed: true,
        read_write: false,
        direction: false,
        executable: false,
        descriptor_type: true,
        privilege_level: PrivilegeLevel::RingThree,
        present: true,
    };
    assert_eq!(access.to_bits(), 0xF1);
    let flags = GDTEntryFlags {
        limit_high: 0,
        reserved: false,
        long_mode: true,
        size: false,
        granularity: false,
    };
    let entry = GDTEntry::create_segment(0x1234_5678, 0x000A_BCDE, access, flags);
    assert_eq!(entry.base_lower, 0x5678);
    assert_eq!(entry.base_middle, 0x34);
    assert_eq!(entry.base_high, 0x12);
    assert_eq!(entry.limit_lower, 0xBCDE);
    assert_eq!(entry.flags.limit_high, 0xA);
    assert_eq!(entry.flags.to_bits(), 0x2A);
    assert_eq!(entry.to_bits(), 0x122A_F134_5678_BCDE);
}

#[test]
fn segment_selectors() {
    assert_eq!(SegmentSelector::get_code_segment_selector().to_bits(), 0x08);
    assert_eq!(SegmentSelector::get_data_segment_selector().to_bits(), 0x10);
    assert_eq!(SegmentSelector::new().to_bits(), 0);
    let selector = SegmentSelector {
        privilege_level: PrivilegeLevel::RingThree,
        is_local: true,
        index: 5,
    };
    assert_eq!(selector.to_bits(), 0x2F);
    assert_eq!(
        load_gdt(0x0010_2000),
        (TableDescriptor { size: 23, offset: 0x0010_2000 }, 0x08, 0x10)
    );
}

#[test]
fn idt_entries() {
    let mut entry: IDTEntry<InterruptHandler> = IDTEntry::zeroed();
    assert_eq!(entry.to_bits(), 0);
    assert!(!entry.flags.present());
    entry.set_handler_addr(0x0012_3456, 0x08);
    assert!(entry.flags.present());
    assert_eq!(entry.lower_half_offset, 0x3456);
    assert_eq!(entry.higher_half_offset, 0x0012);
    assert_eq!(entry.segment_selector.index, 1);
    assert_eq!(entry.flags.bits, 0x8E);
    assert_eq!(entry.to_bits(), 0x0012_8E00_0008_3456);
    assert_eq!(
        IDTEntryFlags::gate(InterruptGateType::TrapGate, PrivilegeLevel::RingThree, true).bits,
        0xEF
    );
    assert_eq!(
        IDTEntryFlags::gate(InterruptGateType::InterruptGate, PrivilegeLevel::RingZero, false)
            .bits,
        0x0E
    );
    assert_eq!(InterruptGateType::InterruptGate.to_bits(), 0b1110);
    assert_eq!(InterruptGateType::TrapGate.to_bits(), 0b1111);
}

#[test]
fn idt_has_a_handler_only_where_one_was_installed() {
    let mut table = InterruptDescriptorTable::new();
    assert_eq!(table.interrupts.len(), 224);
    assert!(!table.division_error.flags.present());
    assert!(!table.double_fault.flags.present());
    assert!(table.interrupts.iter().all(|entry| !entry.flags.present()));
    table.set_interrupt_handler(43, 0x0010_0000, 0x08);
    assert!(table.index(43).flags.present());
    assert_eq!(table.index(43).to_bits(), 0x0010_8E00_0008_0000);
    for vector in (32..=255u8).filter(|vector| *vector != 43) {
        assert!(!table.index(vector).flags.present());
    }
    table.double_fault.set_handler_addr(0x0020_0000, 0x08);
    assert!(table.double_fault.flags.present());
    let bits = table.to_bits();
    assert_eq!(bits.len(), 256);
    assert_eq!(bits[8], 0x0020_8E00_0008_0000);
    assert_eq!(bits[43], 0x0010_8E00_0008_0000);
    assert_eq!(bits.iter().filter(|entry| **entry != 0).count(), 2);
    assert_eq!(load_idt(0x0030_0000), TableDescriptor { size: 2047, offset: 0x0030_0000 });
}

#[test]
fn pic_bring_up() {
    let pics = Pics::new(32, 40);
    let wait = PortWrite { port: 0x80, value: 0 };
    assert_eq!(
        pics.init(0xFE, 0xFF),
        vec![
            PortWrite { port: 0x20, value: 0x11 },
            wait,
            PortWrite { port: 0xA0, value: 0x11 },
            wait,
            PortWrite { port: 0x21, value: 32 },
            wait,
            PortWrite { port: 0xA1, value: 40 },
            wait,
            PortWrite { port: 0x21, value: 4 },
            wait,
            PortWrite { port: 0xA1, value: 2 },
            wait,
            PortWrite { port: 0x21, value: 1 },
            wait,
            PortWrite { port: 0xA1, value: 1 },
            wait,
            PortWrite { port: 0x21, value: 0xFE },
            PortWrite { port: 0xA1, value: 0xFF },
        ]
    );
    let kept = pics.init(0x12, 0x34);
    assert_eq!(kept[16].value, 0x12);
    assert_eq!(kept[17].value, 0x34);
    assert_eq!(pics.master.read_mask(), 0x21);
    assert_eq!(pics.slave.read_mask(), 0xA1);
    assert_eq!(pics.master.write_mask(0), PortWrite { port: 0x21, value: 0 });
}

#[test]
fn pic_end_of_interrupt() {
    let pics = Pics::new(32, 40);
    let master = PortWrite { port: 0x20, value: 0x20 };
    let slave = PortWrite { port: 0xA0, value: 0x20 };
    assert_eq!(pics.notify_end_of_interrupt(32), vec![master]);
    assert_eq!(pics.notify_end_of_interrupt(39), vec![master]);
    assert_eq!(pics.notify_end_of_interrupt(40), vec![slave, master]);
    assert_eq!(pics.notify_end_of_interrupt(43), vec![slave, master]);
    assert_eq!(pics.notify_end_of_interrupt(31), vec![]);
    assert_eq!(Pic::new(40, 0xA0, 0xA1).end_of_interrupt(39), None);
    assert_eq!(Pic::new(40, 0xA0, 0xA1).end_of_interrupt(40), Some(slave));
    assert_eq!(PciInterruptIndex::Timer.to_u8(), 32);
    assert_eq!(PciInterruptIndex::Keyboard.to_u8(), 33);
}

#[test]
fn cpu_flags_bits() {
    let flags = CpuFlags::from_bits(0x0000_3AD5);
    assert!(flags.carry() && flags.parity() && flags.zero() && flags.sign());
    assert!(!flags.trap() && flags.interrupt_enabled() && !flags.direction());
    assert!(flags.overflow());
    assert_eq!(flags.io_privilege_level(), PrivilegeLevel::RingThree);
    assert_eq!(flags.into_bits(), 0x0000_3AD5);
    assert_eq!(flags.with_interrupt_enabled(false).bits, 0x0000_38D5);
    assert_eq!(flags.with_interrupt_enabled(true).bits, 0x0000_3AD5);
    assert_eq!(set_specific_cpu_flags(flags, CpuFlags::from_bits(0x0100)).bits, 0x0000_3BD5);
    assert_eq!(unset_specific_cpu_flags(flags, CpuFlags::from_bits(0x00D5)).bits, 0x0000_3A00);
    assert_eq!(PrivilegeLevel::from_bits(6), PrivilegeLevel::RingTwo);
    assert_eq!(PrivilegeLevel::RingOne.to_bits(), 1);
    assert_eq!(TableDescriptor::new(0x1000, 3), TableDescriptor { size: 23, offset: 0x1000 });
}

#[test]
fn lock_switches_interrupts_off_and_back_on() {
    let mut flags = CpuFlags::from_bits(0x0000_0202);
    let mut mutex = Mutex::new(5u32);
    let guard = mutex.lock(&mut flags);
    // inside the critical section interrupts are off
    assert!(!flags.interrupt_enabled());
    assert_eq!(flags.bits, 0x0000_0002);
    assert_eq!(mutex.replace(&guard, 6), 5);
    mutex.unlock(guard, &mut flags);
    assert!(flags.interrupt_enabled());
    assert_eq!(flags.bits, 0x0000_0202);
    assert_eq!(*mutex.get(), 6);
    assert_eq!(mutex.into_inner(), 6);
}

#[test]
fn lock_leaves_interrupts_off_if_they_were_off() {
    let mut flags = CpuFlags::from_bits(0x0000_0046);
    let mut mutex = Mutex::new(());
    let guard = mutex.lock(&mut flags);
    assert!(!flags.interrupt_enabled());
    mutex.unlock(guard, &mut flags);
    assert!(!flags.interrupt_enabled());
    assert_eq!(flags.bits & INTERRUPT_ENABLED, 0);
    assert_eq!(flags.bits, 0x0000_0046);
    // the lock can be taken again
    let guard = mutex.lock(&mut flags);
    mutex.unlock(guard, &mut flags);
}
