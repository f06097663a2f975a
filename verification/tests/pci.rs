use kernel_core::pci::{check_pci_buses, header_accesses};
use kernel_core::pci::config_space::base_address_register::{
    kind_of, parse_32bit_mmio_space_bar, parse_64bit_mmio_space_bar, parse_io_space_bar, BarKind,
};
use kernel_core::pci::config_space::probe::ProbeStage;
use kernel_core::pci::config_space::simulated_device;
use kernel_core::pci::config_space::{
    BaseAddressRegister, ClassCode, CommandRegister, ConfigAccess, MemoryMappedRegister,
    PciConfigSpace, BUS_MASTER, GENERAL_DEVICE, IO_SPACE, MEMORY_SPACE, MULTI_FUNCTION_CARD,
};
use kernel_core::pci::drivers::{find_driver, pci_drivers, DriverKind};

/// A device whose base address registers keep only the bits that its
/// windows leave free, as a PCI device does.
struct SimulatedDevice {
    base: u32,
    registers: [u32; 16],
    /// for each base address register, the bits that can be written
    writable: [u32; 6],
    log: Vec<ConfigAccess>,
}

impl SimulatedDevice {
    fn new(bus: u8, device: u8) -> Self {
        let mut registers = [0u32; 16];
        registers[0] = 0x100E_8086;
        registers[1] = 0x0010_0003;
        registers[2] = 0x0200_0003;
        registers[3] = 0x0000_0000;
        registers[15] = 0x0000_010B;
        SimulatedDevice {
            base: 0x8000_0000 | ((bus as u32) << 16) | ((device as u32) << 11),
            registers,
            writable: [0; 6],
            log: Vec::new(),
        }
    }

    fn with_bar(mut self, slot: usize, value: u32, writable: u32) -> Self {
        self.registers[4 + slot] = value;
        self.writable[slot] = writable;
        self
    }

    fn access(&mut self, access: ConfigAccess) -> Option<u32> {
        self.log.push(access);
        match access {
            ConfigAccess::Read { address } => {
                let index = ((address - self.base) / 4) as usize;
                Some(self.registers[index])
            }
            ConfigAccess::Write { address, value } => {
                let index = ((address - self.base) / 4) as usize;
                if (4..10).contains(&index) {
                    let writable = self.writable[index - 4];
                    self.registers[index] = (self.registers[index] & !writable) | (value & writable);
                } else {
                    self.registers[index] = value;
                }
                None
            }
        }
    }
}

fn probe(config: &mut PciConfigSpace, device: &mut SimulatedDevice) {
    let (mut probe, first) = config.init_bar();
    let mut value = device.access(first).unwrap();
    let mut steps = 0;
    while !probe.is_done() {
        let (next, accesses) = config.continue_init_bar(probe, value);
        let count = accesses.len();
        for (position, access) in accesses.into_iter().enumerate() {
            match device.access(access) {
                Some(read) => {
                    // only the last access of a step is a read
                    assert_eq!(position, count - 1);
                    value = read;
                }
                None => {}
            }
        }
        probe = next;
        steps += 1;
        assert!(steps < 100);
    }
    assert_eq!(probe.stage, ProbeStage::Done);
}

#[test]
fn bar_sizing_of_a_memory_window() {
    let mut device = SimulatedDevice::new(0, 3).with_bar(0, 0xF000_0000, 0xFFFF_0000);
    let mut config = PciConfigSpace::new(0, 3, device.registers).unwrap();
    probe(&mut config, &mut device);
    assert_eq!(
        config.base_address_registers[0],
        BaseAddressRegister::MemorySpace32 {
            address: 0xF000_0000,
            size: 0x1_0000,
            prefetchable: false
        }
    );
    for slot in 1..6 {
        assert_eq!(config.base_address_registers[slot], BaseAddressRegister::Empty);
    }
}

#[test]
fn bar_init_restores_registers_and_enables_the_device() {
    let mut device = SimulatedDevice::new(1, 2)
        .with_bar(0, 0xFEB0_0008, 0xFFFE_0000)
        .with_bar(1, 0x0000_C001, 0xFFFF_FFC0)
        .with_bar(2, 0xE000_000C, 0xFF00_0000)
        .with_bar(3, 0x0000_0001, 0xFFFF_FFFF)
        .with_bar(5, 0x0000_0002, 0x0000_0000);
    let before = device.registers;
    let mut config = PciConfigSpace::new(1, 2, device.registers).unwrap();
    probe(&mut config, &mut device);
    // every base address register holds its original value again
    assert_eq!(&device.registers[4..10], &before[4..10]);
    // decoding is on and the device may master the bus
    let command = device.registers[1] as u16;
    assert_eq!(command & (IO_SPACE | MEMORY_SPACE | BUS_MASTER), 0x7);
    assert_eq!(device.registers[1], before[1] | 0x7);
    // what the header knows agrees with the device
    for index in 0..16u32 {
        let known = match index {
            0 => config.get_vendor_id() as u32 | (config.get_device_id() as u32) << 16,
            1 => config.get_command_register().bits as u32
                | (config.get_status_register().bits as u32) << 16,
            4..=9 => config.get_base_address_register((index - 4) as usize),
            12 => config.get_expansion_rom_register(),
            _ => device.registers[index as usize],
        };
        assert_eq!(known, device.registers[index as usize]);
    }
    assert_eq!(
        config.base_address_registers,
        [
            BaseAddressRegister::MemorySpace32 {
                address: 0xFEB0_0000,
                size: 0x2_0000,
                prefetchable: true
            },
            BaseAddressRegister::IoSpace { address: 0xC000, size: 0x40 },
            BaseAddressRegister::MemorySpace64 {
                address: 0x0000_0001_E000_0000,
                size: 0x0100_0000,
                prefetchable: true
            },
            BaseAddressRegister::Empty,
            BaseAddressRegister::Empty,
            BaseAddressRegister::Empty,
        ]
    );
}

#[test]
fn bar_init_starts_by_switching_decoding_off() {
    let mut device = SimulatedDevice::new(0, 0).with_bar(0, 0xF000_0000, 0xFFFF_0000);
    let mut config = PciConfigSpace::new(0, 0, device.registers).unwrap();
    probe(&mut config, &mut device);
    let base = 0x8000_0000u32;
    assert_eq!(device.log[0], ConfigAccess::Read { address: base + 4 });
    assert_eq!(device.log[1], ConfigAccess::Write { address: base + 4, value: 0x0010_0000 });
    assert_eq!(device.log[2], ConfigAccess::Read { address: base + 0x10 });
    assert_eq!(device.log[3], ConfigAccess::Write { address: base + 0x10, value: 0xFFFF_FFFF });
    assert_eq!(device.log[4], ConfigAccess::Read { address: base + 0x10 });
    assert_eq!(device.log[5], ConfigAccess::Write { address: base + 0x10, value: 0xF000_0000 });
    assert_eq!(device.log[6], ConfigAccess::Read { address: base + 0x14 });
    assert_eq!(
        *device.log.last().unwrap(),
        ConfigAccess::Write { address: base + 4, value: 0x0010_0007 }
    );
}

#[test]
fn sizing_a_simulated_device() {
    let mut registers = [0u32; 16];
    registers[0] = 0x100E_8086;
    registers[1] = 0x0230_0001;
    registers[4] = 0xF000_0000;
    registers[5] = 0x0000_C001;
    registers[15] = 0x0000_0105;
    let writable = [0xFFFF_0000, 0xFFFF_FFE0, 0, 0, 0, 0];
    let mut device = simulated_device::SimulatedDevice::new(registers, writable);
    let mut config = PciConfigSpace::new(2, 7, device.header()).unwrap();
    device.size_base_address_registers(&mut config);
    let mut expected = registers;
    expected[1] = 0x0230_0007;
    assert_eq!(device.header(), expected);
    assert_eq!(
        config.base_address_registers[0],
        BaseAddressRegister::MemorySpace32 {
            address: 0xF000_0000,
            size: 0x1_0000,
            prefetchable: false
        }
    );
    assert_eq!(
        config.base_address_registers[1],
        BaseAddressRegister::IoSpace { address: 0xC000, size: 0x20 }
    );
    assert_eq!(config.get_command_register().bits, 0x0007);
    // a write to a base address register keeps the bits that are wired
    assert_eq!(
        device.access(&config, ConfigAccess::Write { address: 0x8002_3810, value: 0x1234_5678 }),
        None
    );
    assert_eq!(
        device.access(&config, ConfigAccess::Read { address: 0x8002_3810 }),
        Some(0x1234_0000)
    );
}

#[test]
fn bar_of_size_zero_is_empty() {
    // nothing answers at the register: all ones read back as 0
    assert_eq!(parse_32bit_mmio_space_bar(0, 0), BaseAddressRegister::Empty);
    assert_eq!(parse_io_space_bar(1, 1), BaseAddressRegister::Empty);
    assert_eq!(parse_64bit_mmio_space_bar(4, 0, 4, 0), BaseAddressRegister::Empty);
    let mut device = SimulatedDevice::new(0, 0);
    let mut config = PciConfigSpace::new(0, 0, device.registers).unwrap();
    probe(&mut config, &mut device);
    assert_eq!(config.base_address_registers, [BaseAddressRegister::Empty; 6]);
}

#[test]
fn bar_decoding() {
    assert_eq!(
        parse_32bit_mmio_space_bar(0xF000_0000, 0xFFFF_0000),
        BaseAddressRegister::MemorySpace32 {
            address: 0xF000_0000,
            size: 0x1_0000,
            prefetchable: false
        }
    );
    assert_eq!(
        parse_32bit_mmio_space_bar(0xF000_0008, 0xFFFF_FFF8),
        BaseAddressRegister::MemorySpace32 { address: 0xF000_0000, size: 0x10, prefetchable: true }
    );
    assert_eq!(
        parse_io_space_bar(0xC001, 0xFFFF_FFE1),
        BaseAddressRegister::IoSpace { address: 0xC000, size: 0x20 }
    );
    assert_eq!(
        parse_64bit_mmio_space_bar(0x0000_0004, 0x0000_0002, 0x0000_0004, 0xFFFF_FFFE),
        BaseAddressRegister::MemorySpace64 {
            address: 0x2_0000_0000,
            size: 0x2_0000_0000,
            prefetchable: false
        }
    );
    assert_eq!(kind_of(0x0000_C001), BarKind::Io);
    assert_eq!(kind_of(0xF000_0008), BarKind::Memory32);
    assert_eq!(kind_of(0xF000_0004), BarKind::Memory64);
    assert_eq!(kind_of(0xF000_0002), BarKind::Unknown);
    assert_eq!(kind_of(0xF000_0006), BarKind::Unknown);
}

#[test]
fn a_64_bit_bar_in_the_last_slot_is_passed_over() {
    let mut device = SimulatedDevice::new(0, 0).with_bar(5, 0xF000_0004, 0xFFF0_0000);
    let mut config = PciConfigSpace::new(0, 0, device.registers).unwrap();
    probe(&mut config, &mut device);
    assert_eq!(config.base_address_registers, [BaseAddressRegister::Empty; 6]);
    assert_eq!(device.registers[9], 0xF000_0004);
}

#[test]
fn header_fields() {
    let device = SimulatedDevice::new(3, 4);
    let mut config = PciConfigSpace::new(3, 4, device.registers).unwrap();
    assert_eq!(config.vendor_id, 0x8086);
    assert_eq!(config.device_id, 0x100E);
    assert_eq!(config.get_vendor_id(), 0x8086);
    assert_eq!(config.get_device_id(), 0x100E);
    assert_eq!(config.identifiers(), (0x8086, 0x100E));
    assert_eq!(config.place(), (3, 4));
    assert_eq!(config.get_base_addr(), 0x8003_2000);
    assert_eq!(config.get_command_register().bits, 0x0003);
    assert!(config.get_command_register().contains(IO_SPACE | MEMORY_SPACE));
    assert!(!config.get_command_register().contains(BUS_MASTER));
    assert_eq!(config.get_status_register().bits, 0x0010);
    assert_eq!(config.get_revision_id(), 0x03);
    assert_eq!(config.get_class_code(), ClassCode::NetworkController);
    assert_eq!(config.get_header_type().bits, 0);
    assert!(!config.get_header_type().contains(MULTI_FUNCTION_CARD | GENERAL_DEVICE));
    assert_eq!(config.get_interrupt_line(), 0x0B);
    assert_eq!(config.get_interrupt_pin(), 0x01);

    let mut command = config.get_command_register();
    command.set(BUS_MASTER, true);
    command.set(IO_SPACE, false);
    assert_eq!(command, CommandRegister { bits: 0x0006 });
    assert_eq!(
        config.set_command_register(command),
        ConfigAccess::Write { address: 0x8003_2004, value: 0x0010_0006 }
    );
    assert_eq!(config.get_command_register().bits, 0x0006);
    assert_eq!(config.get_status_register().bits, 0x0010);
    assert_eq!(
        config.set_interrupt_line(0x05),
        ConfigAccess::Write { address: 0x8003_203C, value: 0x0000_0105 }
    );
    assert_eq!(config.get_interrupt_line(), 5);
    assert_eq!(config.get_interrupt_pin(), 1);
    assert_eq!(
        config.set_base_address_register(2, 0xABCD_0000),
        ConfigAccess::Write { address: 0x8003_2018, value: 0xABCD_0000 }
    );
    assert_eq!(config.get_base_address_register(2), 0xABCD_0000);
    assert_eq!(
        config.set_expansion_rom_register(0x1234_0000),
        ConfigAccess::Write { address: 0x8003_2030, value: 0x1234_0000 }
    );
    assert_eq!(config.get_expansion_rom_register(), 0x1234_0000);
}

#[test]
fn no_header_where_no_device_answers() {
    assert!(PciConfigSpace::new(0, 0, [0xFFFF_FFFF; 16]).is_none());
    let device = SimulatedDevice::new(0, 32);
    assert!(PciConfigSpace::new(0, 32, device.registers).is_none());
    assert!(PciConfigSpace::new(0, 31, device.registers).is_some());
}

#[test]
fn class_codes() {
    assert_eq!(ClassCode::from(0x00), ClassCode::TooOld);
    assert_eq!(ClassCode::from(0x01), ClassCode::MassStorageController);
    assert_eq!(ClassCode::from(0x02), ClassCode::NetworkController);
    assert_eq!(ClassCode::from(0x06), ClassCode::BridgeDevice);
    assert_eq!(ClassCode::from(0x11), ClassCode::DataAcquisitionAndSignalProcessing);
    assert_eq!(ClassCode::from(0x12), ClassCode::RESERVED(0x12));
    assert_eq!(ClassCode::from(0xFE), ClassCode::RESERVED(0xFE));
    assert_eq!(ClassCode::from(0xFF), ClassCode::UNFIT);
}

#[test]
fn bus_scan_finds_the_devices_that_answer() {
    let mut headers = vec![[0xFFFF_FFFFu32; 16]; 226 * 32];
    headers[3] = SimulatedDevice::new(0, 3).registers;
    headers[32 * 5 + 31] = SimulatedDevice::new(5, 31).registers;
    headers[32 * 225] = SimulatedDevice::new(225, 0).registers;
    let found = check_pci_buses(&headers);
    let places: Vec<(u8, u8)> = found.iter().map(|config| config.place()).collect();
    assert_eq!(places, vec![(0, 3), (5, 31), (225, 0)]);
    assert_eq!(found[1].get_base_addr(), 0x8005_F800);
    assert!(check_pci_buses(&Vec::new()).is_empty());
    let reads = header_accesses(5, 31);
    assert_eq!(reads.len(), 16);
    assert_eq!(reads[0], ConfigAccess::Read { address: 0x8005_F800 });
    assert_eq!(reads[15], ConfigAccess::Read { address: 0x8005_F83C });
}

#[test]
fn driver_table() {
    let drivers = pci_drivers();
    assert_eq!(drivers.len(), 1);
    assert_eq!((drivers[0].vendor_id, drivers[0].device_id), (0x8086, 0x100E));
    assert_eq!(find_driver(0x8086, 0x100E).unwrap().init_device, DriverKind::E1000);
    assert_eq!(find_driver(0x8086, 0x100F), None);
    assert_eq!(find_driver(0x100E, 0x8086), None);
}

#[test]
fn memory_mapped_register() {
    let register = MemoryMappedRegister::new(0x3818);
    assert!(register.fits(4, 0x2_0000));
    assert!(register.fits(4, 0x381C));
    assert!(!register.fits(4, 0x381B));
    assert!(!register.fits(4, 0));
    assert_eq!(register.address(0xFEB0_0000), 0xFEB0_3818);
}
