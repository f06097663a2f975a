use crate::bits::{bit, bit_value, has_bit, test_bit};
use vstd::prelude::*;

verus! {

pub const DEVICE_CONTROL: usize = 0x0000;

pub const DEVICE_STATUS: usize = 0x0008;

pub const EEPROM: usize = 0x0014;

pub const INTERRUPT_MASK: usize = 0x00D0;

pub const RECEIVE_CONTROL_REGISTER: usize = 0x0100;

pub const TRANSMIT_CONTROL_REGISTER: usize = 0x0400;

pub const TRANSMIT_IPG_REGISTER: usize = 0x0410;

pub const RECEIVE_DESCRIPTOR_BASE_LOW: usize = 0x2800;

pub const RECEIVE_DESCRIPTOR_BASE_HIGH: usize = 0x2804;

pub const RECEIVE_DESCRIPTOR_LEN: usize = 0x2808;

pub const RECEIVE_DESCRIPTOR_BASE_HEAD: usize = 0x2810;

pub const RECEIVE_DESCRIPTOR_BASE_TAIL: usize = 0x2818;

pub const RECEIVE_DELAY_TIMER: usize = 0x2820;

pub const TRANSMIT_DESCRIPTOR_BASE_LOW: usize = 0x3800;

pub const TRANSMIT_DESCRIPTOR_BASE_HIGH: usize = 0x3804;

pub const TRANSMIT_DESCRIPTOR_LEN: usize = 0x3808;

pub const TRANSMIT_DESCRIPTOR_BASE_HEAD: usize = 0x3810;

pub const TRANSMIT_DESCRIPTOR_BASE_TAIL: usize = 0x3818;

pub const MULTICAST_TABLE_ARRAY: usize = 0x5200;

pub const RECEIVE_ADDRESS_LOW_0: usize = 0x5400;

pub const RECEIVE_ADDRESS_HIGH_0: usize = 0x5404;

/// The word of the EEPROM at which the Ethernet address starts.
pub const EEPROM_ETHERNET_ADDRESS_OFFSET: u8 = 0x0;

/// The speed of the link.
#[derive(Debug, Clone, Copy, PartialEq, Eq, Structural)]
pub enum SpeedSelection {
    TenMbs,
    HundredMbs,
    ThousandMbs,
}

impl SpeedSelection {
    /// The two bits that stand for the speed.
    pub open spec fn value(self) -> int {
        match self {
            SpeedSelection::TenMbs => 0,
            SpeedSelection::HundredMbs => 1,
            SpeedSelection::ThousandMbs => 2,
        }
    }

    /// The speed that two bits stand for: 0 is 10 Mb/s, 1 is 100 Mb/s, and
    /// 2 and 3 are 1000 Mb/s.
    pub open spec fn of(bits: int) -> SpeedSelection {
        if bits % 4 == 0 {
            SpeedSelection::TenMbs
        } else if bits % 4 == 1 {
            SpeedSelection::HundredMbs
        } else {
            SpeedSelection::ThousandMbs
        }
    }

    /// The two bits that stand for the speed.
    pub fn to_bits(self) -> (bits: u32)
        ensures
            bits == self.value(),
            bits <= 3,
    {
        match self {
            SpeedSelection::TenMbs => 0,
            SpeedSelection::HundredMbs => 1,
            SpeedSelection::ThousandMbs => 2,
        }
    }

    /// The speed that the two low bits of `bits` stand for.
    pub fn from_bits(bits: u32) -> (speed: Self)
        ensures
            speed == Self::of(bits as int),
    {
        match bits % 4 {
            0 => SpeedSelection::TenMbs,
            1 => SpeedSelection::HundredMbs,
            _ => SpeedSelection::ThousandMbs,
        }
    }
}

/// How the controller and its link are set up.
#[derive(Debug, Clone, Copy, PartialEq, Eq, Structural)]
pub struct DeviceControlRegister {
    pub full_duplex: bool,
    pub link_reset: bool,
    pub auto_speed_detection_enabled: bool,
    pub set_link_up: bool,
    pub ilos: bool,
    pub speed: SpeedSelection,
    pub force_speed: bool,
    pub force_duplex: bool,
    pub sdp0_data: bool,
    pub sdp1_data: bool,
    pub advd3wuc: bool,
    pub en_phy_pwr_mgmt: bool,
    pub sdp0_iodir: bool,
    pub sdp1_iodir: bool,
    pub device_reset: bool,
    pub rfce: bool,
    pub tfce: bool,
    pub vme: bool,
    pub phy_rst: bool,
}

impl DeviceControlRegister {
    /// The bits of the register below bit 16.
    pub open spec fn link_bits(&self) -> int {
        bit(self.full_duplex, 0x1) + bit(self.link_reset, 0x8) + bit(
            self.auto_speed_detection_enabled,
            0x20,
        ) + bit(self.set_link_up, 0x40) + bit(self.ilos, 0x80) + self.speed.value() * 0x100 + bit(
            self.force_speed,
            0x800,
        ) + bit(self.force_duplex, 0x1000)
    }

    /// The bits of the register from bit 16 on.
    pub open spec fn device_bits(&self) -> int {
        bit(self.sdp0_data, 0x4_0000) + bit(self.sdp1_data, 0x8_0000) + bit(
            self.advd3wuc,
            0x10_0000,
        ) + bit(self.en_phy_pwr_mgmt, 0x20_0000) + bit(self.sdp0_iodir, 0x40_0000) + bit(
            self.sdp1_iodir,
            0x80_0000,
        ) + bit(self.device_reset, 0x400_0000) + bit(self.rfce, 0x800_0000) + bit(
            self.tfce,
            0x1000_0000,
        ) + bit(self.vme, 0x4000_0000) + bit(self.phy_rst, 0x8000_0000)
    }

    /// The register's value: bit 0 is full duplex, bit 3 resets the link,
    /// bit 5 enables speed detection, bit 6 sets the link up, bit 7 inverts
    /// loss of signal, bits 8 and 9 hold the speed, bits 11 and 12 force
    /// speed and duplex, bits 18 and 19 hold the data of the two pins, bits
    /// 20 and 21 deal with wake-up and power, bits 22 and 23 hold the
    /// direction of the pins, bit 26 resets the device, bits 27 and 28
    /// enable flow control for receiving and transmitting, bit 30 enables
    /// VLAN mode and bit 31 resets the PHY.
    pub open spec fn value(&self) -> int {
        self.link_bits() + self.device_bits()
    }

    /// The bits of the register below bit 16.
    fn link_value(&self) -> (bits: u32)
        ensures
            bits == self.link_bits(),
            bits < 0x2000,
    {
        bit_value(self.full_duplex, 0x1) + bit_value(self.link_reset, 0x8) + bit_value(
            self.auto_speed_detection_enabled,
            0x20,
        ) + bit_value(self.set_link_up, 0x40) + bit_value(self.ilos, 0x80) + self.speed.to_bits()
            * 0x100 + bit_value(self.force_speed, 0x800) + bit_value(self.force_duplex, 0x1000)
    }

    /// The bits of the register from bit 16 on.
    fn device_value(&self) -> (bits: u32)
        ensures
            bits == self.device_bits(),
            bits <= 0xDCFC_0000,
    {
        bit_value(self.sdp0_data, 0x4_0000) + bit_value(self.sdp1_data, 0x8_0000) + bit_value(
            self.advd3wuc,
            0x10_0000,
        ) + bit_value(self.en_phy_pwr_mgmt, 0x20_0000) + bit_value(self.sdp0_iodir, 0x40_0000)
            + bit_value(self.sdp1_iodir, 0x80_0000) + bit_value(self.device_reset, 0x400_0000)
            + bit_value(self.rfce, 0x800_0000) + bit_value(self.tfce, 0x1000_0000) + bit_value(
            self.vme,
            0x4000_0000,
        ) + bit_value(self.phy_rst, 0x8000_0000)
    }

    /// The register's value.
    pub fn to_bits(&self) -> (bits: u32)
        ensures
            bits == self.value(),
    {
        self.link_value() + self.device_value()
    }
}

/// Which of the two ports of a dual controller a function is.
#[derive(Debug, Clone, Copy, PartialEq, Eq, Structural)]
pub enum FunctionID {
    LanA,
    LanB,
}

/// The speed of a PCI-X bus.
#[derive(Debug, Clone, Copy, PartialEq, Eq, Structural)]
pub enum PciXBusSpeed {
    LOW,
    MID,
    HIGH,
}

impl FunctionID {
    /// The port that two bits stand for: an even number is port A, an odd
    /// one port B.
    pub open spec fn of(bits: int) -> FunctionID {
        if bits % 2 == 0 {
            FunctionID::LanA
        } else {
            FunctionID::LanB
        }
    }

    /// The port that the low bits of `bits` stand for.
    pub fn from_bits(bits: u32) -> (function: Self)
        ensures
            function == Self::of(bits as int),
    {
        if bits % 2 == 0 {
            FunctionID::LanA
        } else {
            FunctionID::LanB
        }
    }
}

impl PciXBusSpeed {
    /// The bus speed that two bits stand for: 0 is the low range, 1 the
    /// middle range, and 2 and 3 the high range.
    pub open spec fn of(bits: int) -> PciXBusSpeed {
        if bits % 4 == 0 {
            PciXBusSpeed::LOW
        } else if bits % 4 == 1 {
            PciXBusSpeed::MID
        } else {
            PciXBusSpeed::HIGH
        }
    }

    /// The bus speed that the two low bits of `bits` stand for.
    pub fn from_bits(bits: u32) -> (speed: Self)
        ensures
            speed == Self::of(bits as int),
    {
        match bits % 4 {
            0 => PciXBusSpeed::LOW,
            1 => PciXBusSpeed::MID,
            _ => PciXBusSpeed::HIGH,
        }
    }
}

/// What the controller says of itself and its link.
#[derive(Debug, Clone, Copy, PartialEq, Eq, Structural)]
pub struct DeviceStatusRegister {
    pub full_duplex: bool,
    pub link_up_indication: bool,
    pub function_id: FunctionID,
    pub transmission_paused: bool,
    pub tbimode: bool,
    pub speed: SpeedSelection,
    pub asdv: SpeedSelection,
    pub pci66: bool,
    pub bus64: bool,
    pub pcix_mode1: bool,
    pub pcixspd1: PciXBusSpeed,
}

impl DeviceStatusRegister {
    /// What a value of the register says: bit 0 is full duplex, bit 1 says
    /// that the link is up, bits 2 and 3 hold the function, bit 4 says that
    /// transmission is paused, bit 5 is the TBI mode, bits 6 and 7 hold the
    /// speed, bits 8 and 9 the speed that was detected, bits 11 to 13 tell
    /// of the bus, and bits 14 and 15 hold the speed of a PCI-X bus.
    pub open spec fn of(bits: u32) -> DeviceStatusRegister {
        DeviceStatusRegister {
            full_duplex: has_bit(bits as int, 0x1),
            link_up_indication: has_bit(bits as int, 0x2),
            function_id: FunctionID::of(bits as int / 0x4),
            transmission_paused: has_bit(bits as int, 0x10),
            tbimode: has_bit(bits as int, 0x20),
            speed: SpeedSelection::of(bits as int / 0x40),
            asdv: SpeedSelection::of(bits as int / 0x100),
            pci66: has_bit(bits as int, 0x800),
            bus64: has_bit(bits as int, 0x1000),
            pcix_mode1: has_bit(bits as int, 0x2000),
            pcixspd1: PciXBusSpeed::of(bits as int / 0x4000),
        }
    }

    /// What a value of the register says.
    pub fn from_bits(bits: u32) -> (register: Self)
        ensures
            register == Self::of(bits),
    {
        Self {
            full_duplex: test_bit(bits, 0x1),
            link_up_indication: test_bit(bits, 0x2),
            function_id: FunctionID::from_bits(bits / 0x4),
            transmission_paused: test_bit(bits, 0x10),
            tbimode: test_bit(bits, 0x20),
            speed: SpeedSelection::from_bits(bits / 0x40),
            asdv: SpeedSelection::from_bits(bits / 0x100),
            pci66: test_bit(bits, 0x800),
            bus64: test_bit(bits, 0x1000),
            pcix_mode1: test_bit(bits, 0x2000),
            pcixspd1: PciXBusSpeed::from_bits(bits / 0x4000),
        }
    }
}

/// How long the controller waits before it tells of a received packet.
#[derive(Debug, Clone, Copy, PartialEq, Eq, Structural)]
pub struct ReceiveDelayTimerRegister {
    pub delay_timer: u16,
    pub flush_partial_descriptor_block: bool,
}

impl ReceiveDelayTimerRegister {
    /// The register's value: bits 0 to 15 hold the delay in steps of 1.024
    /// microseconds, and bit 31 flushes a partial block of descriptors.
    pub open spec fn value(&self) -> int {
        self.delay_timer + bit(self.flush_partial_descriptor_block, 0x8000_0000)
    }

    /// The register's value.
    pub fn to_bits(&self) -> (bits: u32)
        ensures
            bits == self.value(),
    {
        (self.delay_timer as u32) + bit_value(self.flush_partial_descriptor_block, 0x8000_0000)
    }
}

/// Which interrupts the controller may raise.
#[derive(Debug, Clone, Copy, PartialEq, Eq, Structural)]
pub struct InterruptMaskRegister {
    pub transmit_descriptor_written_back: bool,
    pub transmit_queue_empty: bool,
    pub link_status_change: bool,
    pub rxseq: bool,
    pub rxdmt0: bool,
    pub receiver_fifo_overrun: bool,
    pub receiver_timer_interrupt: bool,
    pub mdac: bool,
    pub rxcfg: bool,
    pub phyint: bool,
    pub gpi: u8,
    pub transmit_descriptor_low_threshold_hit: bool,
    pub srpd: bool,
}

impl InterruptMaskRegister {
    /// No interrupt allowed.
    pub fn new() -> (register: Self)
        ensures
            register.value() == 0,
            !register.transmit_descriptor_written_back,
            !register.receiver_timer_interrupt,
    {
        reveal(bit);
        Self {
            transmit_descriptor_written_back: false,
            transmit_queue_empty: false,
            link_status_change: false,
            rxseq: false,
            rxdmt0: false,
            receiver_fifo_overrun: false,
            receiver_timer_interrupt: false,
            mdac: false,
            rxcfg: false,
            phyint: false,
            gpi: 0,
            transmit_descriptor_low_threshold_hit: false,
            srpd: false,
        }
    }

    /// The bits of the register for what the transmitter and the link
    /// tell of, and for receive errors.
    pub open spec fn cause_bits(&self) -> int {
        bit(self.transmit_descriptor_written_back, 0x1) + bit(self.transmit_queue_empty, 0x2)
            + bit(self.link_status_change, 0x4) + bit(self.rxseq, 0x8) + bit(self.rxdmt0, 0x10)
            + bit(self.receiver_fifo_overrun, 0x40) + bit(self.receiver_timer_interrupt, 0x80)
    }

    /// The bits of the register from bit 9 on.
    pub open spec fn management_bits(&self) -> int {
        bit(self.mdac, 0x200) + bit(self.rxcfg, 0x400) + bit(self.phyint, 0x1000) + (self.gpi % 4)
            * 0x2000 + bit(self.transmit_descriptor_low_threshold_hit, 0x8000) + bit(
            self.srpd,
            0x1_0000,
        )
    }

    /// The register's value: bit 0 for a written-back transmit descriptor,
    /// bit 1 for an empty transmit queue, bit 2 for a link status change,
    /// bits 3 and 4 for receive sequence errors and the receive threshold,
    /// bit 6 for a receiver overrun, bit 7 for the receiver timer, bits 9,
    /// 10 and 12 for MDIO, receive configuration and the PHY, bits 13 and 14
    /// for the general purpose pins, bit 15 for the transmit threshold and
    /// bit 16 for a small packet.
    pub open spec fn value(&self) -> int {
        self.cause_bits() + self.management_bits()
    }

    /// The bits of the register below bit 9.
    fn cause_value(&self) -> (bits: u32)
        ensures
            bits == self.cause_bits(),
            bits < 0x100,
    {
        bit_value(self.transmit_descriptor_written_back, 0x1) + bit_value(
            self.transmit_queue_empty,
            0x2,
        ) + bit_value(self.link_status_change, 0x4) + bit_value(self.rxseq, 0x8) + bit_value(
            self.rxdmt0,
            0x10,
        ) + bit_value(self.receiver_fifo_overrun, 0x40) + bit_value(
            self.receiver_timer_interrupt,
            0x80,
        )
    }

    /// The bits of the register from bit 9 on.
    fn management_value(&self) -> (bits: u32)
        ensures
            bits == self.management_bits(),
            bits < 0x2_0000,
    {
        bit_value(self.mdac, 0x200) + bit_value(self.rxcfg, 0x400) + bit_value(
            self.phyint,
            0x1000,
        ) + ((self.gpi % 4) as u32) * 0x2000 + bit_value(
            self.transmit_descriptor_low_threshold_hit,
            0x8000,
        ) + bit_value(self.srpd, 0x1_0000)
    }

    /// The register's value.
    pub fn to_bits(&self) -> (bits: u32)
        ensures
            bits == self.value(),
    {
        self.cause_value() + self.management_value()
    }
}

/// How the transmitter works.
#[derive(Debug, Clone, Copy, PartialEq, Eq, Structural)]
pub struct TransmissionControlRegister {
    pub enabled: bool,
    pub pad_short_packets: bool,
    pub collision_threshold: u8,
    pub collision_distance: u16,
    pub swxoff: bool,
    pub rtlc: bool,
    pub nrtu: bool,
}

impl TransmissionControlRegister {
    /// The transmitter switched off, all fields 0.
    pub fn new() -> (register: Self)
        ensures
            register.value() == 0,
    {
        reveal(bit);
        Self {
            enabled: false,
            pad_short_packets: false,
            collision_threshold: 0,
            collision_distance: 0,
            swxoff: false,
            rtlc: false,
            nrtu: false,
        }
    }

    /// The collision distance fits its ten bits.
    pub open spec fn wf(&self) -> bool {
        self.collision_distance < 1024
    }

    /// The register's value: bit 1 enables, bit 3 pads short packets, bits
    /// 4 to 11 hold the collision threshold, bits 12 to 21 the collision
    /// distance, bit 22 is software XOFF, bit 24 retransmits on late
    /// collision and bit 25 is the no-retransmit-on-underrun bit.
    pub open spec fn value(&self) -> int {
        bit(self.enabled, 0x2) + bit(self.pad_short_packets, 0x8) + self.collision_threshold * 0x10
            + self.collision_distance * 0x1000 + bit(self.swxoff, 0x40_0000) + bit(
            self.rtlc,
            0x100_0000,
        ) + bit(self.nrtu, 0x200_0000)
    }

    /// The register's value.
    pub fn to_bits(&self) -> (bits: u32)
        requires
            self.wf(),
        ensures
            bits == self.value(),
    {
        bit_value(self.enabled, 0x2) + bit_value(self.pad_short_packets, 0x8)
            + (self.collision_threshold as u32) * 0x10 + (self.collision_distance as u32) * 0x1000
            + bit_value(self.swxoff, 0x40_0000) + bit_value(self.rtlc, 0x100_0000) + bit_value(
            self.nrtu,
            0x200_0000,
        )
    }
}

/// The gaps that the transmitter leaves between packets.
#[derive(Debug, Clone, Copy, PartialEq, Eq, Structural)]
pub struct TransmissionIpgRegister {
    pub ipgt: u16,
    pub ipgr1: u16,
    pub ipgr2: u16,
}

impl TransmissionIpgRegister {
    /// Each gap fits its ten bits.
    pub open spec fn wf(&self) -> bool {
        self.ipgt < 1024 && self.ipgr1 < 1024 && self.ipgr2 < 1024
    }

    /// The register's value: the three gaps in ten bits each, from bit 0,
    /// bit 10 and bit 20.
    pub open spec fn value(&self) -> int {
        self.ipgt + self.ipgr1 * 0x400 + self.ipgr2 * 0x10_0000
    }

    /// The register's value.
    pub fn to_bits(&self) -> (bits: u32)
        requires
            self.wf(),
        ensures
            bits == self.value(),
    {
        (self.ipgt as u32) + (self.ipgr1 as u32) * 0x400 + (self.ipgr2 as u32) * 0x10_0000
    }
}

/// A read of one word of the EEPROM: what is asked and what came back.
#[derive(Debug, Clone, Copy, PartialEq, Eq, Structural)]
pub struct EepromReadRegister {
    pub start_read: bool,
    pub done: bool,
    pub read_address: u8,
    pub read_data: u16,
}

impl EepromReadRegister {
    /// The register's value: bit 0 starts a read, bit 4 says that it is
    /// done, bits 8 to 15 hold the address of the word and bits 16 to 31
    /// the word.
    pub open spec fn value(&self) -> int {
        bit(self.start_read, 0x1) + bit(self.done, 0x10) + self.read_address * 0x100
            + self.read_data * 0x1_0000
    }

    /// What a value of the register says.
    pub open spec fn of(bits: u32) -> EepromReadRegister {
        EepromReadRegister {
            start_read: bits % 2 == 1,
            done: (bits / 0x10) % 2 == 1,
            read_address: ((bits / 0x100) % 0x100) as u8,
            read_data: (bits / 0x1_0000) as u16,
        }
    }

    /// The register's value.
    pub fn to_bits(&self) -> (bits: u32)
        ensures
            bits == self.value(),
    {
        bit_value(self.start_read, 0x1) + bit_value(self.done, 0x10) + (self.read_address as u32)
            * 0x100 + (self.read_data as u32) * 0x1_0000
    }

    /// What a value of the register says.
    pub fn from_bits(bits: u32) -> (register: Self)
        ensures
            register == Self::of(bits),
    {
        Self {
            start_read: bits % 2 == 1,
            done: (bits / 0x10) % 2 == 1,
            read_address: ((bits / 0x100) % 0x100) as u8,
            read_data: (bits / 0x1_0000) as u16,
        }
    }

    /// Reading a register's value gives the register back.
    pub proof fn lemma_round_trip(self)
        ensures
            0 <= self.value() <= u32::MAX,
            Self::of(self.value() as u32) == self,
    {
        reveal(bit);
    }
}

/// Whether the receiver hears what the transmitter sends.
#[derive(Debug, Clone, Copy, PartialEq, Eq, Structural)]
pub enum LoopBackMode {
    NoLoopBack,
    PhyOrExternal,
}

impl LoopBackMode {
    /// The two bits that stand for the mode.
    pub open spec fn value(self) -> int {
        match self {
            LoopBackMode::NoLoopBack => 0,
            LoopBackMode::PhyOrExternal => 3,
        }
    }

    /// The two bits that stand for the mode.
    pub fn to_bits(self) -> (bits: u32)
        ensures
            bits == self.value(),
            bits <= 3,
    {
        match self {
            LoopBackMode::NoLoopBack => 0,
            LoopBackMode::PhyOrExternal => 3,
        }
    }
}

/// At which share of free receive descriptors the controller warns.
#[derive(Debug, Clone, Copy, PartialEq, Eq, Structural)]
pub enum ReceiveDescriptionMinThreshold {
    Half,
    Quarter,
    Eight,
}

impl ReceiveDescriptionMinThreshold {
    /// The two bits that stand for the threshold.
    pub open spec fn value(self) -> int {
        match self {
            ReceiveDescriptionMinThreshold::Half => 0,
            ReceiveDescriptionMinThreshold::Quarter => 1,
            ReceiveDescriptionMinThreshold::Eight => 2,
        }
    }

    /// The two bits that stand for the threshold.
    pub fn to_bits(self) -> (bits: u32)
        ensures
            bits == self.value(),
            bits <= 3,
    {
        match self {
            ReceiveDescriptionMinThreshold::Half => 0,
            ReceiveDescriptionMinThreshold::Quarter => 1,
            ReceiveDescriptionMinThreshold::Eight => 2,
        }
    }
}

/// The size of the buffers that receive descriptors point to.
#[derive(Debug, Clone, Copy, PartialEq, Eq, Structural)]
pub enum ReceiveBufferSize {
    Bytes2048,
    Bytes1024,
    Bytes512,
    Bytes256,
}

impl ReceiveBufferSize {
    /// The two bits that stand for the size.
    pub open spec fn value(self) -> int {
        match self {
            ReceiveBufferSize::Bytes2048 => 0,
            ReceiveBufferSize::Bytes1024 => 1,
            ReceiveBufferSize::Bytes512 => 2,
            ReceiveBufferSize::Bytes256 => 3,
        }
    }

    /// The two bits that stand for the size.
    pub fn to_bits(self) -> (bits: u32)
        ensures
            bits == self.value(),
            bits <= 3,
    {
        match self {
            ReceiveBufferSize::Bytes2048 => 0,
            ReceiveBufferSize::Bytes1024 => 1,
            ReceiveBufferSize::Bytes512 => 2,
            ReceiveBufferSize::Bytes256 => 3,
        }
    }
}

/// How the receiver works.
#[derive(Debug, Clone, Copy, PartialEq, Eq, Structural)]
pub struct ReceiveControlRegister {
    pub enabled: bool,
    pub store_bad_packets: bool,
    pub unicast_promiscuous: bool,
    pub multicast_promiscuous: bool,
    pub long_packet_reception: bool,
    pub loopback_mod: LoopBackMode,
    pub receive_description_min_threshold: ReceiveDescriptionMinThreshold,
    pub mo: u8,
    pub accept_broadcast: bool,
    pub receive_buffer_size: ReceiveBufferSize,
    pub vlan_filter: bool,
    pub cfien: bool,
    pub cfi: bool,
    pub discard_pause_frames: bool,
    pub pass_mac_control_frames: bool,
    pub buffer_size_extension: bool,
    pub strip_ethernet_crc: bool,
}

impl ReceiveControlRegister {
    /// The receiver switched off, all fields 0.
    pub fn new() -> (register: Self)
        ensures
            register == (ReceiveControlRegister {
                enabled: false,
                store_bad_packets: false,
                unicast_promiscuous: false,
                multicast_promiscuous: false,
                long_packet_reception: false,
                loopback_mod: LoopBackMode::NoLoopBack,
                receive_description_min_threshold: ReceiveDescriptionMinThreshold::Half,
                mo: 0,
                accept_broadcast: false,
                receive_buffer_size: ReceiveBufferSize::Bytes2048,
                vlan_filter: false,
                cfien: false,
                cfi: false,
                discard_pause_frames: false,
                pass_mac_control_frames: false,
                buffer_size_extension: false,
                strip_ethernet_crc: false,
            }),
    {
        Self {
            enabled: false,
            store_bad_packets: false,
            unicast_promiscuous: false,
            multicast_promiscuous: false,
            long_packet_reception: false,
            loopback_mod: LoopBackMode::NoLoopBack,
            receive_description_min_threshold: ReceiveDescriptionMinThreshold::Half,
            mo: 0,
            accept_broadcast: false,
            receive_buffer_size: ReceiveBufferSize::Bytes2048,
            vlan_filter: false,
            cfien: false,
            cfi: false,
            discard_pause_frames: false,
            pass_mac_control_frames: false,
            buffer_size_extension: false,
            strip_ethernet_crc: false,
        }
    }

    /// The bits of the register below bit 16.
    pub open spec fn filter_bits(&self) -> int {
        bit(self.enabled, 0x2) + bit(self.store_bad_packets, 0x4) + bit(
            self.unicast_promiscuous,
            0x8,
        ) + bit(self.multicast_promiscuous, 0x10) + bit(self.long_packet_reception, 0x20)
            + self.loopback_mod.value() * 0x40 + self.receive_description_min_threshold.value()
            * 0x100 + (self.mo % 4) * 0x1000 + bit(self.accept_broadcast, 0x8000)
    }

    /// The bits of the register from bit 16 on.
    pub open spec fn buffer_bits(&self) -> int {
        self.receive_buffer_size.value() * 0x1_0000 + bit(self.vlan_filter, 0x4_0000) + bit(
            self.cfien,
            0x8_0000,
        ) + bit(self.cfi, 0x10_0000) + bit(self.discard_pause_frames, 0x40_0000) + bit(
            self.pass_mac_control_frames,
            0x80_0000,
        ) + bit(self.buffer_size_extension, 0x200_0000) + bit(self.strip_ethernet_crc, 0x400_0000)
    }

    /// The register's value: bit 1 enables, bit 2 stores bad packets, bits
    /// 3 and 4 make the receiver promiscuous for unicast and multicast, bit
    /// 5 admits long packets, bits 6 and 7 hold the loopback mode, bits 8
    /// and 9 the descriptor threshold, bits 12 and 13 the multicast offset,
    /// bit 15 accepts broadcast, bits 16 and 17 hold the buffer size, bits
    /// 18 to 20 the VLAN filter and its CFI bits, bits 22 and 23 deal with
    /// pause and MAC control frames, bit 25 extends the buffer size and bit
    /// 26 strips the CRC.
    pub open spec fn value(&self) -> int {
        self.filter_bits() + self.buffer_bits()
    }

    /// The bits of the register below bit 16.
    fn filter_value(&self) -> (bits: u32)
        ensures
            bits == self.filter_bits(),
            bits < 0x1_0000,
    {
        bit_value(self.enabled, 0x2) + bit_value(self.store_bad_packets, 0x4) + bit_value(
            self.unicast_promiscuous,
            0x8,
        ) + bit_value(self.multicast_promiscuous, 0x10) + bit_value(
            self.long_packet_reception,
            0x20,
        ) + self.loopback_mod.to_bits() * 0x40 + self.receive_description_min_threshold.to_bits()
            * 0x100 + ((self.mo % 4) as u32) * 0x1000 + bit_value(self.accept_broadcast, 0x8000)
    }

    /// The bits of the register from bit 16 on.
    fn buffer_value(&self) -> (bits: u32)
        ensures
            bits == self.buffer_bits(),
            bits < 0x800_0000,
    {
        self.receive_buffer_size.to_bits() * 0x1_0000 + bit_value(self.vlan_filter, 0x4_0000)
            + bit_value(self.cfien, 0x8_0000) + bit_value(self.cfi, 0x10_0000) + bit_value(
            self.discard_pause_frames,
            0x40_0000,
        ) + bit_value(self.pass_mac_control_frames, 0x80_0000) + bit_value(
            self.buffer_size_extension,
            0x200_0000,
        ) + bit_value(self.strip_ethernet_crc, 0x400_0000)
    }

    /// The register's value.
    pub fn to_bits(&self) -> (bits: u32)
        ensures
            bits == self.value(),
    {
        self.filter_value() + self.buffer_value()
    }
}

/// Which address of a packet a receive address is matched against.
#[derive(Debug, Clone, Copy, PartialEq, Eq, Structural)]
pub enum AddressSelect {
    DestinationAddress,
    SourceAddress,
}

impl AddressSelect {
    /// The two bits that stand for the choice.
    pub open spec fn value(self) -> int {
        match self {
            AddressSelect::DestinationAddress => 0,
            AddressSelect::SourceAddress => 1,
        }
    }

    /// The two bits that stand for the choice.
    pub fn to_bits(self) -> (bits: u32)
        ensures
            bits == self.value(),
            bits <= 3,
    {
        match self {
            AddressSelect::DestinationAddress => 0,
            AddressSelect::SourceAddress => 1,
        }
    }
}

/// The upper part of a receive address, with what it is matched against
/// and whether it is in use.
#[derive(Debug, Clone, Copy, PartialEq, Eq, Structural)]
pub struct ReceiverAddressHighRegister {
    pub receiver_address_high: u16,
    pub address_select: AddressSelect,
    pub address_valid: bool,
}

impl ReceiverAddressHighRegister {
    /// The register's value: bits 0 to 15 hold the last two bytes of the
    /// address, bits 16 and 17 the address select, and bit 31 says that the
    /// address is in use.
    pub open spec fn value(&self) -> int {
        self.receiver_address_high + self.address_select.value() * 0x1_0000 + bit(
            self.address_valid,
            0x8000_0000,
        )
    }

    /// The register's value.
    pub fn to_bits(&self) -> (bits: u32)
        ensures
            bits == self.value(),
    {
        (self.receiver_address_high as u32) + self.address_select.to_bits() * 0x1_0000 + bit_value(
            self.address_valid,
            0x8000_0000,
        )
    }
}

} // verus!
