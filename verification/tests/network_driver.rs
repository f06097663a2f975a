use kernel_core::pci::config_space::{BaseAddressRegister, PciConfigSpace};
use kernel_core::pci::drivers::network::descriptors::{
    ReceiveDescriptor, TransmissionDescriptor, DESCRIPTOR_DONE, END_OF_PACKET, REPORT_STATUS,
};
use kernel_core::pci::drivers::network::registers::{
    DeviceControlRegister, DeviceStatusRegister, FunctionID, PciXBusSpeed,
    ReceiveDelayTimerRegister, SpeedSelection, EepromReadRegister, InterruptMaskRegister, LoopBackMode, ReceiveBufferSize,
    ReceiveControlRegister, ReceiveDescriptionMinThreshold, TransmissionControlRegister,
    TransmissionIpgRegister,
};
use kernel_core::pci::drivers::network::{
    E1000Driver, MemorySpace, NetworkError, RegisterWrite, MAX_TRANSMIT_LENGTH,
};
use kernel_core::pci::drivers::DriverError;

fn header() -> [u32; 16] {
    let mut registers = [0u32; 16];
    registers[0] = 0x100E_8086;
    registers[1] = 0x0010_0007;
    registers[4] = 0xFEB0_0000;
    registers[15] = 0x0000_010B;
    registers
}

fn config_with_bar0(bar: BaseAddressRegister) -> PciConfigSpace {
    let mut config = PciConfigSpace::new(0, 3, header()).unwrap();
    config.base_address_registers[0] = bar;
    config
}

fn driver() -> E1000Driver {
    let bar =
        BaseAddressRegister::MemorySpace32 { address: 0xFEB0_0000, size: 0x2_0000, prefetchable: false };
    E1000Driver::new(&config_with_bar0(bar)).unwrap()
}

#[test]
fn driver_needs_a_memory_window() {
    let driver = driver();
    assert_eq!(
        driver.mmio_space(),
        MemorySpace { address: 0xFEB0_0000, size: 0x2_0000, prefetchable: false }
    );
    assert_eq!(driver.get_address().bytes, [0; 6]);
    assert_eq!(driver.interrupt_vector(), Some(32 + 0x0B));

    let io = BaseAddressRegister::IoSpace { address: 0xC000, size: 0x40 };
    match E1000Driver::new(&config_with_bar0(io)) {
        Err(error) => assert_eq!(
            error,
            DriverError::UnexpectedBaseRegisterLayout { register: io, index: 0 }
        ),
        Ok(_) => panic!("an I/O window is no window of registers"),
    }
    match E1000Driver::new(&config_with_bar0(BaseAddressRegister::Empty)) {
        Err(error) => assert_eq!(
            error,
            DriverError::UnexpectedBaseRegisterLayout {
                register: BaseAddressRegister::Empty,
                index: 0
            }
        ),
        Ok(_) => panic!("no window is no window of registers"),
    }
    let wide = BaseAddressRegister::MemorySpace64 {
        address: 0x1_0000_0000,
        size: 0x2_0000,
        prefetchable: true,
    };
    assert_eq!(
        E1000Driver::new(&config_with_bar0(wide)).unwrap().mmio_space(),
        MemorySpace { address: 0x1_0000_0000, size: 0x2_0000, prefetchable: true }
    );
}

#[test]
fn transmit_bring_up() {
    let mut driver = driver();
    let writes = driver.init_transmit(0x0012_3400);
    assert_eq!(
        writes,
        vec![
            RegisterWrite { offset: 0x3800, value: 0x0012_3400 },
            RegisterWrite { offset: 0x3804, value: 0 },
            RegisterWrite { offset: 0x3808, value: 256 * 16 },
            RegisterWrite { offset: 0x3810, value: 0 },
            RegisterWrite { offset: 0x3818, value: 0 },
            // enable, pad short packets, threshold 0xF, distance 0x40
            RegisterWrite { offset: 0x0400, value: 0x0004_00FA },
            // gaps of 10, 8 and 6
            RegisterWrite { offset: 0x0410, value: 0x0060_200A },
        ]
    );
    for slot in 0..256 {
        let descriptor = driver.transmission_descriptor(slot);
        assert_eq!(descriptor.status.bits & DESCRIPTOR_DONE, DESCRIPTOR_DONE);
    }
}

#[test]
fn receive_bring_up() {
    let mut driver = driver();
    driver.set_ethernet_address([0x5452, 0x1200, 0x5634]);
    assert_eq!(driver.get_address().bytes, [0x52, 0x54, 0x00, 0x12, 0x34, 0x56]);
    let buffers: Vec<u64> = (0..256u64).map(|i| 0x40_0000 + i * 1024).collect();
    let writes = driver.init_receive(0x0012_4400, &buffers, false);
    assert_eq!(
        writes,
        vec![
            RegisterWrite { offset: 0x5400, value: 0x1200_5452 },
            RegisterWrite { offset: 0x5404, value: 0x8000_5634 },
            RegisterWrite { offset: 0x5200, value: 0 },
            RegisterWrite { offset: 0x5204, value: 0 },
            RegisterWrite { offset: 0x5208, value: 0 },
            RegisterWrite { offset: 0x520C, value: 0 },
            RegisterWrite { offset: 0x2800, value: 0x0012_4400 },
            RegisterWrite { offset: 0x2804, value: 0 },
            RegisterWrite { offset: 0x2808, value: 256 * 16 },
            RegisterWrite { offset: 0x2810, value: 0 },
            RegisterWrite { offset: 0x2818, value: 255 },
            RegisterWrite { offset: 0x0100, value: 0x0201_811E },
            RegisterWrite { offset: 0x00D0, value: 0x0000_0080 },
        ]
    );
    for slot in 0..256 {
        let descriptor = driver.receive_descriptor(slot);
        assert_eq!(descriptor.base_address, 0x40_0000 + slot as u64 * 1024);
        assert_eq!(descriptor.status.bits, 0);
    }
    let with_transmit = driver.init_receive(0x0012_4400, &buffers, true);
    assert_eq!(with_transmit[12], RegisterWrite { offset: 0x00D0, value: 0x0000_0081 });
}

#[test]
fn eeprom_words() {
    assert_eq!(E1000Driver::eeprom_read_request(0), RegisterWrite { offset: 0x14, value: 0x0001 });
    assert_eq!(E1000Driver::eeprom_read_request(2), RegisterWrite { offset: 0x14, value: 0x0201 });
    assert_eq!(E1000Driver::eeprom_read_result(0x5452_0001), None);
    assert_eq!(E1000Driver::eeprom_read_result(0x5452_0011), Some(0x5452));
    assert_eq!(E1000Driver::eeprom_read_result(0xFFFF_0210), Some(0xFFFF));
    let register = EepromReadRegister::from_bits(0x1234_5611);
    assert_eq!(
        register,
        EepromReadRegister { start_read: true, done: true, read_address: 0x56, read_data: 0x1234 }
    );
    assert_eq!(register.to_bits(), 0x1234_5611);
}

#[test]
fn transmit_claims_the_descriptor_at_the_tail() {
    let mut driver = driver();
    driver.init_transmit(0x1000);
    let write = driver.transmit_packet(7, 0xDEAD_0000, 60, true).unwrap();
    assert_eq!(write, RegisterWrite { offset: 0x3818, value: 8 });
    let descriptor = driver.transmission_descriptor(7);
    assert_eq!(descriptor.base_address, 0xDEAD_0000);
    assert_eq!(descriptor.length, 60);
    assert_eq!(descriptor.command.bits, END_OF_PACKET);
    assert_eq!(descriptor.status.bits & DESCRIPTOR_DONE, 0);
    // every other descriptor is as it was
    for slot in (0..256).filter(|slot| *slot != 7) {
        assert_eq!(driver.transmission_descriptor(slot), {
            let mut empty = TransmissionDescriptor::empty();
            empty.status.bits |= DESCRIPTOR_DONE;
            empty
        });
    }
    // the controller is not done with it yet
    assert_eq!(
        driver.transmit_packet(7, 0xBEEF_0000, 60, true).unwrap_err(),
        NetworkError::FullTransmissionsQueue
    );
    assert_eq!(driver.transmission_descriptor(7).base_address, 0xDEAD_0000);
    driver.complete_transmission(7);
    assert!(driver.transmit_packet(7, 0xBEEF_0000, 60, false).is_ok());
    assert_eq!(driver.transmission_descriptor(7).command.bits, 0);
}

#[test]
fn transmit_tail_wraps_around() {
    let mut driver = driver();
    driver.init_transmit(0x1000);
    let write = driver.transmit_packet(255, 0x1000, 1, true).unwrap();
    assert_eq!(write, RegisterWrite { offset: 0x3818, value: 0 });
}

#[test]
fn transmit_length_limit() {
    let mut driver = driver();
    driver.init_transmit(0x1000);
    assert!(driver.transmit_packet(0, 0x1000, MAX_TRANSMIT_LENGTH, true).is_ok());
    assert_eq!(driver.transmission_descriptor(0).length, 16384);
    assert_eq!(
        driver.transmit_packet(1, 0x1000, MAX_TRANSMIT_LENGTH + 1, true).unwrap_err(),
        NetworkError::BufferTooLarge
    );
    // nothing was claimed
    assert_eq!(driver.transmission_descriptor(1).status.bits & DESCRIPTOR_DONE, DESCRIPTOR_DONE);
}

#[test]
fn transmit_ring_full() {
    let mut driver = driver();
    driver.init_transmit(0x1000);
    let mut tail = 0;
    for _ in 0..256 {
        tail = driver.transmit_packet(tail, 0x1000, 64, true).unwrap().value;
    }
    assert_eq!(tail, 0);
    assert_eq!(
        driver.transmit_packet(tail, 0x1000, 64, true).unwrap_err(),
        NetworkError::FullTransmissionsQueue
    );
    // a full ring is reported before a buffer that is too large
    assert_eq!(
        driver.transmit_packet(tail, 0x1000, MAX_TRANSMIT_LENGTH + 1, true).unwrap_err(),
        NetworkError::FullTransmissionsQueue
    );
    driver.complete_transmission(0);
    assert_eq!(driver.transmit_packet(tail, 0x1000, 64, true).unwrap().value, 1);
}

#[test]
fn descriptor_layout() {
    let descriptor = TransmissionDescriptor {
        base_address: 0x0102_0304_0506_0708,
        length: 0x1122,
        cso: 0x33,
        command: Default::default(),
        status: Default::default(),
        css: 0x66,
        special: 0x7788,
    };
    assert_eq!(
        descriptor.to_bytes(),
        vec![8, 7, 6, 5, 4, 3, 2, 1, 0x22, 0x11, 0x33, 0, 0, 0x66, 0x88, 0x77]
    );
    let empty = TransmissionDescriptor::empty();
    assert_eq!(empty.command.bits, REPORT_STATUS);
    assert_eq!(empty.status.bits, DESCRIPTOR_DONE);
    assert_eq!(empty.to_bytes(), vec![0, 0, 0, 0, 0, 0, 0, 0, 0, 0, 0, 0x08, 0x01, 0, 0, 0]);

    let mut received = ReceiveDescriptor::empty();
    assert_eq!(received.to_bytes(), vec![0; 16]);
    received.base_address = 0x40_0000;
    received.length = 0x0040;
    received.packet_checksum = 0xABCD;
    received.status.bits = 0x03;
    received.errors.bits = 0x80;
    received.special = 0x0102;
    assert_eq!(
        received.to_bytes(),
        vec![0, 0, 0x40, 0, 0, 0, 0, 0, 0x40, 0, 0xCD, 0xAB, 0x03, 0x80, 0x02, 0x01]
    );
}

#[test]
fn register_values() {
    assert_eq!(TransmissionControlRegister::new().to_bits(), 0);
    let control = TransmissionControlRegister {
        enabled: true,
        pad_short_packets: false,
        collision_threshold: 0xFF,
        collision_distance: 0x3FF,
        swxoff: true,
        rtlc: true,
        nrtu: true,
    };
    assert_eq!(control.to_bits(), 0x037F_FFF2);
    assert_eq!(TransmissionIpgRegister { ipgt: 1, ipgr1: 2, ipgr2: 3 }.to_bits(), 0x0030_0801);
    let mut mask = InterruptMaskRegister::new();
    assert_eq!(mask.to_bits(), 0);
    mask.gpi = 3;
    mask.srpd = true;
    mask.link_status_change = true;
    assert_eq!(mask.to_bits(), 0x0001_6004);
    let mut receive = ReceiveControlRegister::new();
    assert_eq!(receive.to_bits(), 0);
    receive.loopback_mod = LoopBackMode::PhyOrExternal;
    receive.receive_description_min_threshold = ReceiveDescriptionMinThreshold::Eight;
    receive.receive_buffer_size = ReceiveBufferSize::Bytes256;
    receive.strip_ethernet_crc = true;
    receive.mo = 2;
    assert_eq!(receive.to_bits(), 0x0403_22C0);
}

#[test]
fn device_registers() {
    let control = DeviceControlRegister {
        full_duplex: true,
        link_reset: false,
        auto_speed_detection_enabled: true,
        set_link_up: true,
        ilos: false,
        speed: SpeedSelection::ThousandMbs,
        force_speed: false,
        force_duplex: false,
        sdp0_data: false,
        sdp1_data: false,
        advd3wuc: false,
        en_phy_pwr_mgmt: false,
        sdp0_iodir: false,
        sdp1_iodir: false,
        device_reset: true,
        rfce: false,
        tfce: false,
        vme: false,
        phy_rst: true,
    };
    assert_eq!(control.to_bits(), 0x8400_0261);
    let status = DeviceStatusRegister::from_bits(0x0000_6883);
    assert_eq!(
        status,
        DeviceStatusRegister {
            full_duplex: true,
            link_up_indication: true,
            function_id: FunctionID::LanA,
            transmission_paused: false,
            tbimode: false,
            speed: SpeedSelection::ThousandMbs,
            asdv: SpeedSelection::TenMbs,
            pci66: true,
            bus64: false,
            pcix_mode1: true,
            pcixspd1: PciXBusSpeed::MID,
        }
    );
    assert_eq!(DeviceStatusRegister::from_bits(0x4).function_id, FunctionID::LanB);
    let timer = ReceiveDelayTimerRegister { delay_timer: 0x1234, flush_partial_descriptor_block: true };
    assert_eq!(timer.to_bits(), 0x8000_1234);
}

#[test]
fn receive_descriptor_lifecycle() {
    let mut driver = driver();
    let buffers: Vec<u64> = (0..256u64).map(|i| 0x40_0000 + i * 1024).collect();
    driver.init_receive(0x2000, &buffers, false);
    // the controller owns the descriptor
    assert_eq!(driver.take_received(3), None);
    // the controller writes a packet of 64 bytes: done and end of packet
    driver.complete_reception(3, 64, 0x03, 0);
    assert_eq!(driver.receive_descriptor(3).status.bits, 0x03);
    assert_eq!(
        driver.take_received(3),
        Some((0x40_0000 + 3 * 1024, 64, RegisterWrite { offset: 0x2818, value: 3 }))
    );
    // the descriptor is the controller's again
    assert_eq!(driver.receive_descriptor(3).status.bits, 0);
    assert_eq!(driver.receive_descriptor(3).base_address, 0x40_0000 + 3 * 1024);
    assert_eq!(driver.take_received(3), None);
    // a status without the done bit is no packet
    driver.complete_reception(4, 64, 0x02, 0);
    assert_eq!(driver.take_received(4), None);
}
