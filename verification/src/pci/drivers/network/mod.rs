use super::{DriverError, DriverKind, PciDriver};
use crate::network_stack::ethernet::EthernetAddress;
use crate::pci::config_space::{byte_at, BaseAddressRegister, PciConfigSpace};
use vstd::prelude::*;

pub mod descriptors;
pub mod registers;

use descriptors::{
    ReceiveDescriptor, TransmissionCommandRegister, TransmissionDescriptor,
    TransmissionStatusRegister, DESCRIPTOR_DONE, END_OF_PACKET, REPORT_STATUS,
};
use registers::{
    AddressSelect, EepromReadRegister, InterruptMaskRegister, LoopBackMode,
    ReceiveBufferSize, ReceiveControlRegister, ReceiveDescriptionMinThreshold,
    ReceiverAddressHighRegister, TransmissionControlRegister, TransmissionIpgRegister, EEPROM,
    EEPROM_ETHERNET_ADDRESS_OFFSET, INTERRUPT_MASK, MULTICAST_TABLE_ARRAY, RECEIVE_ADDRESS_HIGH_0,
    RECEIVE_ADDRESS_LOW_0, RECEIVE_CONTROL_REGISTER, RECEIVE_DESCRIPTOR_BASE_HEAD,
    RECEIVE_DESCRIPTOR_BASE_HIGH, RECEIVE_DESCRIPTOR_BASE_LOW, RECEIVE_DESCRIPTOR_BASE_TAIL,
    RECEIVE_DESCRIPTOR_LEN, TRANSMIT_CONTROL_REGISTER, TRANSMIT_DESCRIPTOR_BASE_HEAD,
    TRANSMIT_DESCRIPTOR_BASE_HIGH, TRANSMIT_DESCRIPTOR_BASE_LOW, TRANSMIT_DESCRIPTOR_BASE_TAIL,
    TRANSMIT_DESCRIPTOR_LEN, TRANSMIT_IPG_REGISTER,
};

verus! {

/// The most bytes that one transmit descriptor can carry.
pub const MAX_TRANSMIT_LENGTH: usize = 16384;

/// The size of the buffer behind each receive descriptor.
pub const RECEIVE_BUFFER_LENGTH: usize = 1024;

/// The number of descriptors in the transmit ring.
pub const TRANSMISSION_DESCRIPTOR_LIST_SIZE: usize = 256;

/// The number of descriptors in the receive ring.
pub const RECEIVE_DESCRIPTOR_LIST_SIZE: usize = 256;

/// The vector of the first interrupt that comes from a device.
pub const FIRST_DEVICE_VECTOR: u8 = 32;

/// Why a packet was not taken for transmission.
#[derive(Debug, Clone, Copy, PartialEq, Eq, Structural)]
pub enum NetworkError {
    FullTransmissionsQueue,
    BufferTooLarge,
}

/// A window of device memory.
#[derive(Debug, Clone, Copy, PartialEq, Eq, Structural)]
pub struct MemorySpace {
    pub address: u64,
    pub size: u64,
    pub prefetchable: bool,
}

/// One write of 32 bits to a register of the controller, at `offset` in
/// its window of memory.
#[derive(Debug, Clone, Copy, PartialEq, Eq, Structural)]
pub struct RegisterWrite {
    pub offset: usize,
    pub value: u32,
}

/// The driver entry for the Intel 82540EM.
pub fn e1000_driver_entry() -> (entry: PciDriver)
    ensures
        entry == (PciDriver { device_id: 0x100E, vendor_id: 0x8086, init_device: DriverKind::E1000 }),
{
    PciDriver { vendor_id: 0x8086, device_id: 0x100E, init_device: DriverKind::E1000 }
}

/// The window of memory that a base address register stands for, if it
/// stands for one.
pub open spec fn memory_window(register: BaseAddressRegister) -> Option<MemorySpace> {
    match register {
        BaseAddressRegister::MemorySpace32 { address, size, prefetchable } => Some(
            MemorySpace { address: address as u64, size: size as u64, prefetchable },
        ),
        BaseAddressRegister::MemorySpace64 { address, size, prefetchable } => Some(
            MemorySpace { address, size, prefetchable },
        ),
        _ => None,
    }
}

/// The value of the transmit control register after bring-up: transmitter
/// on, short packets padded, collision threshold 0xF, collision distance 0x40.
pub open spec fn transmit_control() -> TransmissionControlRegister {
    TransmissionControlRegister {
        enabled: true,
        pad_short_packets: true,
        collision_threshold: 0xF,
        collision_distance: 0x40,
        swxoff: false,
        rtlc: false,
        nrtu: false,
    }
}

/// The gaps between packets after bring-up: 10, 8 and 6.
pub open spec fn transmit_gaps() -> TransmissionIpgRegister {
    TransmissionIpgRegister { ipgt: 10, ipgr1: 8, ipgr2: 6 }
}

/// The value of the receive control register after bring-up: receiver on,
/// no loopback, bad packets stored, promiscuous for unicast and multicast,
/// threshold at a quarter, broadcast accepted, buffer size extension on with
/// the buffer size bits for 1024 bytes, CRC kept.
pub open spec fn receive_control() -> ReceiveControlRegister {
    ReceiveControlRegister {
        enabled: true,
        store_bad_packets: true,
        unicast_promiscuous: true,
        multicast_promiscuous: true,
        long_packet_reception: false,
        loopback_mod: LoopBackMode::NoLoopBack,
        receive_description_min_threshold: ReceiveDescriptionMinThreshold::Quarter,
        mo: 0,
        accept_broadcast: true,
        receive_buffer_size: ReceiveBufferSize::Bytes1024,
        vlan_filter: false,
        cfien: false,
        cfi: false,
        discard_pause_frames: false,
        pass_mac_control_frames: false,
        buffer_size_extension: true,
        strip_ethernet_crc: false,
    }
}

/// The interrupts allowed after bring-up: the receiver timer, and, if
/// asked for, a written-back transmit descriptor.
pub open spec fn interrupt_mask(transmit_written_back: bool) -> InterruptMaskRegister {
    InterruptMaskRegister {
        transmit_descriptor_written_back: transmit_written_back,
        transmit_queue_empty: false,
        link_status_change: false,
        rxseq: false,
        rxdmt0: false,
        receiver_fifo_overrun: false,
        receiver_timer_interrupt: true,
        mdac: false,
        rxcfg: false,
        phyint: false,
        gpi: 0,
        transmit_descriptor_low_threshold_hit: false,
        srpd: false,
    }
}

/// The register writes that bring the transmitter up, where the ring
/// stands at `ring_address`: ring base, ring length in bytes, head and
/// tail at 0, control, gaps.
pub open spec fn transmit_bring_up(ring_address: u32) -> Seq<RegisterWrite> {
    seq![
        RegisterWrite { offset: TRANSMIT_DESCRIPTOR_BASE_LOW, value: ring_address },
        RegisterWrite { offset: TRANSMIT_DESCRIPTOR_BASE_HIGH, value: 0 },
        RegisterWrite { offset: TRANSMIT_DESCRIPTOR_LEN, value: 4096 },
        RegisterWrite { offset: TRANSMIT_DESCRIPTOR_BASE_HEAD, value: 0 },
        RegisterWrite { offset: TRANSMIT_DESCRIPTOR_BASE_TAIL, value: 0 },
        RegisterWrite {
            offset: TRANSMIT_CONTROL_REGISTER,
            value: transmit_control().value() as u32,
        },
        RegisterWrite { offset: TRANSMIT_IPG_REGISTER, value: transmit_gaps().value() as u32 },
    ]
}

/// The first four bytes of an address as one number, the first byte the
/// least significant.
pub open spec fn address_low(address: EthernetAddress) -> u32 {
    (address.bytes@[0] as int + address.bytes@[1] as int * 0x100 + address.bytes@[2] as int
        * 0x1_0000 + address.bytes@[3] as int * 0x100_0000) as u32
}

/// The last two bytes of an address as one number, the fifth byte the
/// less significant.
pub open spec fn address_high(address: EthernetAddress) -> u16 {
    (address.bytes@[4] as int + address.bytes@[5] as int * 0x100) as u16
}

/// The register writes that bring the receiver up for the address
/// `address`, where the ring stands at `ring_address`: the address and its
/// valid bit, four cleared entries of the multicast table, ring base, ring
/// length in bytes, head at 0 and tail at the last descriptor, control, and
/// the interrupt mask.
pub open spec fn receive_bring_up(
    address: EthernetAddress,
    ring_address: u32,
    transmit_written_back: bool,
) -> Seq<RegisterWrite> {
    seq![
        RegisterWrite { offset: RECEIVE_ADDRESS_LOW_0, value: address_low(address) },
        RegisterWrite {
            offset: RECEIVE_ADDRESS_HIGH_0,
            value: (ReceiverAddressHighRegister {
                receiver_address_high: address_high(address),
                address_select: AddressSelect::DestinationAddress,
                address_valid: true,
            }).value() as u32,
        },
        RegisterWrite { offset: MULTICAST_TABLE_ARRAY, value: 0 },
        RegisterWrite { offset: (MULTICAST_TABLE_ARRAY + 4) as usize, value: 0 },
        RegisterWrite { offset: (MULTICAST_TABLE_ARRAY + 8) as usize, value: 0 },
        RegisterWrite { offset: (MULTICAST_TABLE_ARRAY + 12) as usize, value: 0 },
        RegisterWrite { offset: RECEIVE_DESCRIPTOR_BASE_LOW, value: ring_address },
        RegisterWrite { offset: RECEIVE_DESCRIPTOR_BASE_HIGH, value: 0 },
        RegisterWrite { offset: RECEIVE_DESCRIPTOR_LEN, value: 4096 },
        RegisterWrite { offset: RECEIVE_DESCRIPTOR_BASE_HEAD, value: 0 },
        RegisterWrite { offset: RECEIVE_DESCRIPTOR_BASE_TAIL, value: 255 },
        RegisterWrite { offset: RECEIVE_CONTROL_REGISTER, value: receive_control().value() as u32 },
        RegisterWrite {
            offset: INTERRUPT_MASK,
            value: interrupt_mask(transmit_written_back).value() as u32,
        },
    ]
}

/// The address whose six bytes are the bytes of three words of the EEPROM,
/// each word with its less significant byte first.
pub open spec fn address_of_words(words: [u16; 3]) -> Seq<u8> {
    seq![
        (words@[0] % 256) as u8,
        (words@[0] / 256) as u8,
        (words@[1] % 256) as u8,
        (words@[1] / 256) as u8,
        (words@[2] % 256) as u8,
        (words@[2] / 256) as u8,
    ]
}

/// The driver of one Intel 8254x Ethernet controller: its window of
/// registers, its address and its two rings of descriptors.
pub struct E1000Driver {
    pci_config_space: PciConfigSpace,
    ethernet_address: EthernetAddress,
    mmio_space: MemorySpace,
    transmission_descriptor_list: Vec<TransmissionDescriptor>,
    receive_descriptor_list: Vec<ReceiveDescriptor>,
}

impl E1000Driver {
    /// The transmit ring.
    pub closed spec fn transmit_ring(&self) -> Seq<TransmissionDescriptor> {
        self.transmission_descriptor_list@
    }

    /// The receive ring.
    pub closed spec fn receive_ring(&self) -> Seq<ReceiveDescriptor> {
        self.receive_descriptor_list@
    }

    /// The controller's Ethernet address as the driver knows it.
    pub closed spec fn address(&self) -> EthernetAddress {
        self.ethernet_address
    }

    /// The window of the controller's registers.
    pub closed spec fn registers_window(&self) -> MemorySpace {
        self.mmio_space
    }

    /// The header of the device.
    pub closed spec fn config_space(&self) -> PciConfigSpace {
        self.pci_config_space
    }

    /// Each ring has its 256 descriptors.
    pub open spec fn wf(&self) -> bool {
        &&& self.transmit_ring().len() == TRANSMISSION_DESCRIPTOR_LIST_SIZE
        &&& self.receive_ring().len() == RECEIVE_DESCRIPTOR_LIST_SIZE
    }

    /// A driver for the device with header `pci`, whose first base address
    /// register must stand for a window of memory. The rings hold empty
    /// descriptors and the address is unknown.
    pub fn new(pci: &PciConfigSpace) -> (driver: Result<Self, DriverError>)
        ensures
            match driver {
                Ok(driver) => {
                    &&& memory_window(pci.windows()[0]) == Some(driver.registers_window())
                    &&& driver.config_space() == *pci
                    &&& driver.wf()
                    &&& driver.address().bytes@ == seq![0u8, 0u8, 0u8, 0u8, 0u8, 0u8]
                    &&& forall|i: int|
                        0 <= i < 256 ==> #[trigger] driver.transmit_ring()[i]
                            == (TransmissionDescriptor {
                            base_address: 0,
                            length: 0,
                            cso: 0,
                            command: TransmissionCommandRegister { bits: REPORT_STATUS },
                            status: TransmissionStatusRegister { bits: DESCRIPTOR_DONE },
                            css: 0,
                            special: 0,
                        })
                    &&& forall|i: int|
                        0 <= i < 256 ==> #[trigger] driver.receive_ring()[i] == (ReceiveDescriptor {
                            base_address: 0,
                            length: 0,
                            packet_checksum: 0,
                            status: descriptors::ReceiveStatusRegister { bits: 0 },
                            errors: descriptors::ReceiveErrorRegister { bits: 0 },
                            special: 0,
                        })
                },
                Err(error) => memory_window(pci.windows()[0]).is_none() && error
                    == (DriverError::UnexpectedBaseRegisterLayout {
                    register: pci.windows()[0],
                    index: 0,
                }),
            },
    {
        let register = pci.window(0);
        let memory_space = match register {
            BaseAddressRegister::MemorySpace32 { address, size, prefetchable } => MemorySpace {
                address: address as u64,
                size: size as u64,
                prefetchable,
            },
            BaseAddressRegister::MemorySpace64 { address, size, prefetchable } => MemorySpace {
                address,
                size,
                prefetchable,
            },
            _ => {
                return Err(DriverError::UnexpectedBaseRegisterLayout { register, index: 0 });
            },
        };
        let mut transmission_descriptor_list: Vec<TransmissionDescriptor> = Vec::new();
        let mut receive_descriptor_list: Vec<ReceiveDescriptor> = Vec::new();
        let mut index: usize = 0;
        while index < 256
            invariant
                index <= 256,
                transmission_descriptor_list@.len() == index,
                receive_descriptor_list@.len() == index,
                forall|i: int|
                    0 <= i < index ==> #[trigger] transmission_descriptor_list@[i]
                        == (TransmissionDescriptor {
                        base_address: 0,
                        length: 0,
                        cso: 0,
                        command: TransmissionCommandRegister { bits: REPORT_STATUS },
                        status: TransmissionStatusRegister { bits: DESCRIPTOR_DONE },
                        css: 0,
                        special: 0,
                    }),
                forall|i: int|
                    0 <= i < index ==> #[trigger] receive_descriptor_list@[i] == (ReceiveDescriptor {
                        base_address: 0,
                        length: 0,
                        packet_checksum: 0,
                        status: descriptors::ReceiveStatusRegister { bits: 0 },
                        errors: descriptors::ReceiveErrorRegister { bits: 0 },
                        special: 0,
                    }),
            decreases 256 - index,
        {
            transmission_descriptor_list.push(TransmissionDescriptor::empty());
            receive_descriptor_list.push(ReceiveDescriptor::empty());
            index = index + 1;
        }
        let ethernet_address = EthernetAddress { bytes: [0, 0, 0, 0, 0, 0] };
        assert(ethernet_address.bytes@ =~= seq![0u8, 0u8, 0u8, 0u8, 0u8, 0u8]);
        Ok(
            E1000Driver {
                pci_config_space: *pci,
                mmio_space: memory_space,
                ethernet_address,
                transmission_descriptor_list,
                receive_descriptor_list,
            },
        )
    }

    /// Brings the transmitter up: hands every descriptor of the transmit
    /// ring to the driver and returns the register writes to make, in
    /// order. `ring_address` is where the controller finds the ring.
    pub fn init_transmit(&mut self, ring_address: u32) -> (writes: Vec<RegisterWrite>)
        requires
            old(self).wf(),
        ensures
            final(self).wf(),
            writes@ == transmit_bring_up(ring_address),
            forall|i: int|
                0 <= i < 256 ==> (#[trigger] final(self).transmit_ring()[i]).is_done() && final(self).transmit_ring()[i].status.bits == old(self).transmit_ring()[i].status.bits
                    | DESCRIPTOR_DONE && final(self).transmit_ring()[i].base_address == old(self).transmit_ring()[i].base_address,
            final(self).receive_ring() == old(self).receive_ring(),
            final(self).address() == old(self).address(),
            final(self).registers_window() == old(self).registers_window(),
            final(self).config_space() == old(self).config_space(),
    {
        let mut writes: Vec<RegisterWrite> = Vec::new();
        writes.push(RegisterWrite { offset: TRANSMIT_DESCRIPTOR_BASE_LOW, value: ring_address });
        writes.push(RegisterWrite { offset: TRANSMIT_DESCRIPTOR_BASE_HIGH, value: 0 });
        writes.push(
            RegisterWrite {
                offset: TRANSMIT_DESCRIPTOR_LEN,
                value: (TRANSMISSION_DESCRIPTOR_LIST_SIZE * 16) as u32,
            },
        );
        writes.push(RegisterWrite { offset: TRANSMIT_DESCRIPTOR_BASE_HEAD, value: 0 });
        writes.push(RegisterWrite { offset: TRANSMIT_DESCRIPTOR_BASE_TAIL, value: 0 });
        let control = TransmissionControlRegister {
            enabled: true,
            pad_short_packets: true,
            collision_threshold: 0xF,
            collision_distance: 0x40,
            swxoff: false,
            rtlc: false,
            nrtu: false,
        };
        writes.push(RegisterWrite { offset: TRANSMIT_CONTROL_REGISTER, value: control.to_bits() });
        let gaps = TransmissionIpgRegister { ipgt: 10, ipgr1: 8, ipgr2: 6 };
        writes.push(RegisterWrite { offset: TRANSMIT_IPG_REGISTER, value: gaps.to_bits() });
        assert(writes@ =~= transmit_bring_up(ring_address));

        // the first transmission must find a descriptor that it may claim
        let mut index: usize = 0;
        while index < 256
            invariant
                index <= 256,
                self.transmission_descriptor_list@.len() == 256,
                self.receive_descriptor_list == old(self).receive_descriptor_list,
                self.ethernet_address == old(self).ethernet_address,
                self.mmio_space == old(self).mmio_space,
                self.pci_config_space == old(self).pci_config_space,
                forall|i: int|
                    0 <= i < index ==> (#[trigger] self.transmission_descriptor_list@[i]).is_done()
                        && self.transmission_descriptor_list@[i].status.bits == old(self).transmission_descriptor_list@[i].status.bits | DESCRIPTOR_DONE
                        && self.transmission_descriptor_list@[i].base_address == old(self).transmission_descriptor_list@[i].base_address,
                forall|i: int|
                    index <= i < 256 ==> #[trigger] self.transmission_descriptor_list@[i] == old(self).transmission_descriptor_list@[i],
            decreases 256 - index,
        {
            let mut descriptor = self.transmission_descriptor_list[index];
            let before = descriptor.status.bits;
            descriptor.status.insert(DESCRIPTOR_DONE);
            assert((before | DESCRIPTOR_DONE) & DESCRIPTOR_DONE == DESCRIPTOR_DONE) by (bit_vector);
            self.transmission_descriptor_list.set(index, descriptor);
            index = index + 1;
        }
        writes
    }

    /// The register write that asks for word `word_index` of the Ethernet
    /// address in the EEPROM.
    pub fn eeprom_read_request(word_index: u8) -> (write: RegisterWrite)
        requires
            word_index < 3,
        ensures
            write == (RegisterWrite {
                offset: EEPROM,
                value: (EepromReadRegister {
                    start_read: true,
                    done: false,
                    read_address: (EEPROM_ETHERNET_ADDRESS_OFFSET + word_index) as u8,
                    read_data: 0,
                }).value() as u32,
            }),
    {
        let request = EepromReadRegister {
            start_read: true,
            done: false,
            read_address: EEPROM_ETHERNET_ADDRESS_OFFSET + word_index,
            read_data: 0,
        };
        RegisterWrite { offset: EEPROM, value: request.to_bits() }
    }

    /// The word that the EEPROM register holds, once the read is done.
    pub fn eeprom_read_result(value: u32) -> (word: Option<u16>)
        ensures
            word == if EepromReadRegister::of(value).done {
                Some(EepromReadRegister::of(value).read_data)
            } else {
                None
            },
    {
        let register = EepromReadRegister::from_bits(value);
        if register.done {
            Some(register.read_data)
        } else {
            None
        }
    }

    /// Takes the Ethernet address from the three words read from the
    /// EEPROM, each with its less significant byte first.
    pub fn set_ethernet_address(&mut self, words: [u16; 3])
        ensures
            final(self).address().bytes@ == address_of_words(words),
            final(self).transmit_ring() == old(self).transmit_ring(),
            final(self).receive_ring() == old(self).receive_ring(),
            final(self).registers_window() == old(self).registers_window(),
            final(self).config_space() == old(self).config_space(),
    {
        let bytes: [u8; 6] = [
            (words[0] % 256) as u8,
            (words[0] / 256) as u8,
            (words[1] % 256) as u8,
            (words[1] / 256) as u8,
            (words[2] % 256) as u8,
            (words[2] / 256) as u8,
        ];
        assert(bytes@ =~= address_of_words(words));
        self.ethernet_address = EthernetAddress { bytes };
    }

    /// Brings the receiver up: points each receive descriptor at its buffer
    /// and returns the register writes to make, in order. `ring_address`
    /// is where the controller finds the ring, and `buffers` holds the
    /// address of a buffer of 1024 bytes for each descriptor. The
    /// descriptors are to be in the controller's sight before the receive
    /// control register is written.
    pub fn init_receive(
        &mut self,
        ring_address: u32,
        buffers: &Vec<u64>,
        transmit_written_back: bool,
    ) -> (writes: Vec<RegisterWrite>)
        requires
            old(self).wf(),
            buffers@.len() == RECEIVE_DESCRIPTOR_LIST_SIZE,
        ensures
            final(self).wf(),
            writes@ == receive_bring_up(old(self).address(), ring_address, transmit_written_back),
            forall|i: int|
                0 <= i < 256 ==> #[trigger] final(self).receive_ring()[i] == (ReceiveDescriptor {
                    base_address: buffers@[i],
                    status: descriptors::ReceiveStatusRegister { bits: 0 },
                    ..old(self).receive_ring()[i]
                }),
            final(self).transmit_ring() == old(self).transmit_ring(),
            final(self).address() == old(self).address(),
            final(self).registers_window() == old(self).registers_window(),
            final(self).config_space() == old(self).config_space(),
    {
        let mut writes: Vec<RegisterWrite> = Vec::new();
        let bytes = self.ethernet_address.bytes;
        let low = (bytes[0] as u32) + (bytes[1] as u32) * 0x100 + (bytes[2] as u32) * 0x1_0000 + (
        bytes[3] as u32) * 0x100_0000;
        let high = (bytes[4] as u16) + (bytes[5] as u16) * 0x100;
        writes.push(RegisterWrite { offset: RECEIVE_ADDRESS_LOW_0, value: low });
        let address_high = ReceiverAddressHighRegister {
            receiver_address_high: high,
            address_select: AddressSelect::DestinationAddress,
            address_valid: true,
        };
        writes.push(RegisterWrite { offset: RECEIVE_ADDRESS_HIGH_0, value: address_high.to_bits() });

        writes.push(RegisterWrite { offset: MULTICAST_TABLE_ARRAY, value: 0 });
        writes.push(RegisterWrite { offset: MULTICAST_TABLE_ARRAY + 4, value: 0 });
        writes.push(RegisterWrite { offset: MULTICAST_TABLE_ARRAY + 8, value: 0 });
        writes.push(RegisterWrite { offset: MULTICAST_TABLE_ARRAY + 12, value: 0 });

        writes.push(RegisterWrite { offset: RECEIVE_DESCRIPTOR_BASE_LOW, value: ring_address });
        writes.push(RegisterWrite { offset: RECEIVE_DESCRIPTOR_BASE_HIGH, value: 0 });
        writes.push(
            RegisterWrite {
                offset: RECEIVE_DESCRIPTOR_LEN,
                value: (RECEIVE_DESCRIPTOR_LIST_SIZE * 16) as u32,
            },
        );
        writes.push(RegisterWrite { offset: RECEIVE_DESCRIPTOR_BASE_HEAD, value: 0 });
        writes.push(
            RegisterWrite {
                offset: RECEIVE_DESCRIPTOR_BASE_TAIL,
                value: (RECEIVE_DESCRIPTOR_LIST_SIZE - 1) as u32,
            },
        );

        let mut index: usize = 0;
        while index < 256
            invariant
                index <= 256,
                buffers@.len() == 256,
                self.receive_descriptor_list@.len() == 256,
                self.transmission_descriptor_list == old(self).transmission_descriptor_list,
                self.ethernet_address == old(self).ethernet_address,
                self.mmio_space == old(self).mmio_space,
                self.pci_config_space == old(self).pci_config_space,
                forall|i: int|
                    0 <= i < index ==> #[trigger] self.receive_descriptor_list@[i]
                        == (ReceiveDescriptor {
                        base_address: buffers@[i],
                        status: descriptors::ReceiveStatusRegister { bits: 0 },
                        ..old(self).receive_descriptor_list@[i]
                    }),
                forall|i: int|
                    index <= i < 256 ==> #[trigger] self.receive_descriptor_list@[i] == old(self).receive_descriptor_list@[i],
            decreases 256 - index,
        {
            let mut descriptor = self.receive_descriptor_list[index];
            descriptor.base_address = buffers[index];
            descriptor.status = descriptors::ReceiveStatusRegister::empty();
            self.receive_descriptor_list.set(index, descriptor);
            index = index + 1;
        }

        let control = ReceiveControlRegister {
            enabled: true,
            store_bad_packets: true,
            unicast_promiscuous: true,
            multicast_promiscuous: true,
            long_packet_reception: false,
            loopback_mod: LoopBackMode::NoLoopBack,
            receive_description_min_threshold: ReceiveDescriptionMinThreshold::Quarter,
            mo: 0,
            accept_broadcast: true,
            receive_buffer_size: ReceiveBufferSize::Bytes1024,
            vlan_filter: false,
            cfien: false,
            cfi: false,
            discard_pause_frames: false,
            pass_mac_control_frames: false,
            buffer_size_extension: true,
            strip_ethernet_crc: false,
        };
        writes.push(RegisterWrite { offset: RECEIVE_CONTROL_REGISTER, value: control.to_bits() });

        let mask = InterruptMaskRegister {
            transmit_descriptor_written_back: transmit_written_back,
            transmit_queue_empty: false,
            link_status_change: false,
            rxseq: false,
            rxdmt0: false,
            receiver_fifo_overrun: false,
            receiver_timer_interrupt: true,
            mdac: false,
            rxcfg: false,
            phyint: false,
            gpi: 0,
            transmit_descriptor_low_threshold_hit: false,
            srpd: false,
        };
        writes.push(RegisterWrite { offset: INTERRUPT_MASK, value: mask.to_bits() });
        assert(writes@ =~= receive_bring_up(
            old(self).address(),
            ring_address,
            transmit_written_back,
        ));
        writes
    }

    /// The interrupt vector of the controller: its interrupt line counted
    /// from the first device vector; `None` where that is no vector.
    pub fn interrupt_vector(&self) -> (vector: Option<u8>)
        ensures
            vector == if byte_at(self.config_space().registers()[15], 0x3C) as int + 32 <= 255 {
                Some((byte_at(self.config_space().registers()[15], 0x3C) + 32) as u8)
            } else {
                None
            },
    {
        let line = self.pci_config_space.get_interrupt_line();
        if line <= 255 - FIRST_DEVICE_VECTOR {
            Some(FIRST_DEVICE_VECTOR + line)
        } else {
            None
        }
    }

    /// The slot of the transmit ring that the tail register `tail` names.
    pub open spec fn slot_of(tail: u32) -> int {
        tail as int % 256
    }

    /// Hands one buffer to the controller for transmission. `tail` is what
    /// the transmit tail register reads, `buffer_address` is where the
    /// controller finds the `length` bytes, and `last_packet` says that the
    /// packet ends with them. Returns the write of the new tail, which hands
    /// the descriptor over, and which is to be made once the descriptor is
    /// in the controller's sight.
    ///
    /// Fails with `FullTransmissionsQueue` where the controller is not done
    /// with the descriptor at the tail, and with `BufferTooLarge` for more
    /// than 16384 bytes; nothing changes then. No descriptor that the
    /// controller owns is touched.
    pub fn transmit_packet(
        &mut self,
        tail: u32,
        buffer_address: u64,
        length: usize,
        last_packet: bool,
    ) -> (result: Result<RegisterWrite, NetworkError>)
        requires
            old(self).wf(),
        ensures
            final(self).wf(),
            final(self).receive_ring() == old(self).receive_ring(),
            final(self).address() == old(self).address(),
            final(self).registers_window() == old(self).registers_window(),
            final(self).config_space() == old(self).config_space(),
            match result {
                Ok(write) => {
                    let slot = Self::slot_of(tail);
                    &&& old(self).transmit_ring()[slot].is_done()
                    &&& length <= MAX_TRANSMIT_LENGTH
                    &&& write == (RegisterWrite {
                        offset: TRANSMIT_DESCRIPTOR_BASE_TAIL,
                        value: ((slot + 1) % 256) as u32,
                    })
                    &&& final(self).transmit_ring() == old(self).transmit_ring().update(
                        slot,
                        TransmissionDescriptor {
                            base_address: buffer_address,
                            length: length as u16,
                            command: TransmissionCommandRegister {
                                bits: if last_packet {
                                    END_OF_PACKET
                                } else {
                                    0
                                },
                            },
                            status: TransmissionStatusRegister {
                                bits: old(self).transmit_ring()[slot].status.bits
                                    & !DESCRIPTOR_DONE,
                            },
                            ..old(self).transmit_ring()[slot]
                        },
                    )
                    &&& !final(self).transmit_ring()[slot].is_done()
                },
                Err(error) => {
                    &&& final(self).transmit_ring() == old(self).transmit_ring()
                    &&& error == if !old(self).transmit_ring()[Self::slot_of(tail)].is_done() {
                        NetworkError::FullTransmissionsQueue
                    } else {
                        NetworkError::BufferTooLarge
                    }
                    &&& !old(self).transmit_ring()[Self::slot_of(tail)].is_done() || length
                        > MAX_TRANSMIT_LENGTH
                },
            },
    {
        let slot = (tail % (TRANSMISSION_DESCRIPTOR_LIST_SIZE as u32)) as usize;
        let mut current_descriptor = self.transmission_descriptor_list[slot];

        if !current_descriptor.status.contains(DESCRIPTOR_DONE) {
            return Err(NetworkError::FullTransmissionsQueue);
        }
        if length > MAX_TRANSMIT_LENGTH {
            return Err(NetworkError::BufferTooLarge);
        }
        let before = current_descriptor.status.bits;
        current_descriptor.status.remove(DESCRIPTOR_DONE);
        assert((before & !DESCRIPTOR_DONE) & DESCRIPTOR_DONE != DESCRIPTOR_DONE) by (bit_vector);

        current_descriptor.base_address = buffer_address;
        current_descriptor.length = length as u16;
        current_descriptor.command = TransmissionCommandRegister {
            bits: if last_packet {
                END_OF_PACKET
            } else {
                0
            },
        };
        self.transmission_descriptor_list.set(slot, current_descriptor);

        Ok(
            RegisterWrite {
                offset: TRANSMIT_DESCRIPTOR_BASE_TAIL,
                value: ((slot + 1) % TRANSMISSION_DESCRIPTOR_LIST_SIZE) as u32,
            },
        )
    }

    /// Takes note that the controller is done with the descriptor at
    /// `slot`, as the controller's write-back to the ring says: the driver
    /// owns the descriptor again.
    pub fn complete_transmission(&mut self, slot: usize)
        requires
            old(self).wf(),
            slot < TRANSMISSION_DESCRIPTOR_LIST_SIZE,
        ensures
            final(self).wf(),
            final(self).transmit_ring() == old(self).transmit_ring().update(
                slot as int,
                TransmissionDescriptor {
                    status: TransmissionStatusRegister {
                        bits: old(self).transmit_ring()[slot as int].status.bits | DESCRIPTOR_DONE,
                    },
                    ..old(self).transmit_ring()[slot as int]
                },
            ),
            final(self).transmit_ring()[slot as int].is_done(),
            final(self).receive_ring() == old(self).receive_ring(),
            final(self).address() == old(self).address(),
            final(self).registers_window() == old(self).registers_window(),
            final(self).config_space() == old(self).config_space(),
    {
        let mut descriptor = self.transmission_descriptor_list[slot];
        let before = descriptor.status.bits;
        descriptor.status.insert(DESCRIPTOR_DONE);
        assert((before | DESCRIPTOR_DONE) & DESCRIPTOR_DONE == DESCRIPTOR_DONE) by (bit_vector);
        self.transmission_descriptor_list.set(slot, descriptor);
    }

    /// Takes note that the controller has put a packet of `length` bytes
    /// into the buffer of the descriptor at `slot`, with the status and
    /// error bits given, as the controller's write-back to the ring says.
    pub fn complete_reception(&mut self, slot: usize, length: u16, status: u8, errors: u8)
        requires
            old(self).wf(),
            slot < RECEIVE_DESCRIPTOR_LIST_SIZE,
        ensures
            final(self).wf(),
            final(self).receive_ring() == old(self).receive_ring().update(
                slot as int,
                ReceiveDescriptor {
                    length,
                    status: descriptors::ReceiveStatusRegister { bits: status },
                    errors: descriptors::ReceiveErrorRegister { bits: errors },
                    ..old(self).receive_ring()[slot as int]
                },
            ),
            final(self).transmit_ring() == old(self).transmit_ring(),
            final(self).address() == old(self).address(),
            final(self).registers_window() == old(self).registers_window(),
            final(self).config_space() == old(self).config_space(),
    {
        let mut descriptor = self.receive_descriptor_list[slot];
        descriptor.length = length;
        descriptor.status = descriptors::ReceiveStatusRegister { bits: status };
        descriptor.errors = descriptors::ReceiveErrorRegister { bits: errors };
        self.receive_descriptor_list.set(slot, descriptor);
    }

    /// Takes the packet out of the descriptor at `slot` of the receive
    /// ring, if the controller has put one there: returns where the packet
    /// lies, how long it is, and the write of the receive tail that hands
    /// the descriptor back to the controller, and clears the descriptor's
    /// status. `None`, and no change, while the controller owns the
    /// descriptor.
    pub fn take_received(&mut self, slot: usize) -> (packet: Option<(u64, u16, RegisterWrite)>)
        requires
            old(self).wf(),
            slot < RECEIVE_DESCRIPTOR_LIST_SIZE,
        ensures
            final(self).wf(),
            final(self).transmit_ring() == old(self).transmit_ring(),
            final(self).address() == old(self).address(),
            final(self).registers_window() == old(self).registers_window(),
            final(self).config_space() == old(self).config_space(),
            old(self).receive_ring()[slot as int].is_done() ==> packet == Some(
                (
                    old(self).receive_ring()[slot as int].base_address,
                    old(self).receive_ring()[slot as int].length,
                    RegisterWrite { offset: RECEIVE_DESCRIPTOR_BASE_TAIL, value: slot as u32 },
                ),
            ) && final(self).receive_ring() == old(self).receive_ring().update(
                slot as int,
                ReceiveDescriptor {
                    status: descriptors::ReceiveStatusRegister { bits: 0 },
                    ..old(self).receive_ring()[slot as int]
                },
            ) && !final(self).receive_ring()[slot as int].is_done(),
            !old(self).receive_ring()[slot as int].is_done() ==> packet.is_none() && final(self).receive_ring() == old(self).receive_ring(),
    {
        let mut descriptor = self.receive_descriptor_list[slot];
        if !descriptor.status.contains(descriptors::RECEIVE_DESCRIPTOR_DONE) {
            return None;
        }
        let packet = (
            descriptor.base_address,
            descriptor.length,
            RegisterWrite { offset: RECEIVE_DESCRIPTOR_BASE_TAIL, value: slot as u32 },
        );
        descriptor.status = descriptors::ReceiveStatusRegister::empty();
        assert(0u8 & 1u8 != 1u8) by (bit_vector);
        self.receive_descriptor_list.set(slot, descriptor);
        Some(packet)
    }

    /// The descriptor at `slot` of the transmit ring.
    pub fn transmission_descriptor(&self, slot: usize) -> (descriptor: TransmissionDescriptor)
        requires
            self.wf(),
            slot < TRANSMISSION_DESCRIPTOR_LIST_SIZE,
        ensures
            descriptor == self.transmit_ring()[slot as int],
    {
        self.transmission_descriptor_list[slot]
    }

    /// The descriptor at `slot` of the receive ring.
    pub fn receive_descriptor(&self, slot: usize) -> (descriptor: ReceiveDescriptor)
        requires
            self.wf(),
            slot < RECEIVE_DESCRIPTOR_LIST_SIZE,
        ensures
            descriptor == self.receive_ring()[slot as int],
    {
        self.receive_descriptor_list[slot]
    }

    /// The window of the controller's registers.
    pub fn mmio_space(&self) -> (window: MemorySpace)
        ensures
            window == self.registers_window(),
    {
        self.mmio_space
    }

    /// The controller's Ethernet address.
    pub fn get_address(&self) -> (address: EthernetAddress)
        ensures
            address == self.address(),
    {
        self.ethernet_address
    }

    /// A transmission changes no descriptor but the one at the tail, and
    /// that one only where the controller was done with it: a descriptor
    /// that the controller owns stays as it is, and one that the controller
    /// is done with stays so until the driver claims it.
    pub proof fn lemma_transmission_respects_ownership(
        before: Seq<TransmissionDescriptor>,
        after: Seq<TransmissionDescriptor>,
        tail: u32,
        slot: int,
    )
        requires
            before.len() == 256,
            0 <= slot < 256,
            after == before || (before[Self::slot_of(tail)].is_done() && after.len() == 256
                && forall|i: int|
                0 <= i < 256 && i != Self::slot_of(tail) ==> after[i] == before[i]),
        ensures
            !before[slot].is_done() ==> after[slot] == before[slot],
            before[slot].is_done() && slot != Self::slot_of(tail) ==> after[slot].is_done(),
    {
    }
}

} // verus!
