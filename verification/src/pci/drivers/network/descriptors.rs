use vstd::prelude::*;

verus! {

pub const END_OF_PACKET: u8 = 0x01;

pub const IFCS: u8 = 0x02;

pub const IC: u8 = 0x04;

pub const REPORT_STATUS: u8 = 0x08;

pub const REPORT_PACKET_SEND: u8 = 0x10;

pub const DEXT: u8 = 0x20;

pub const VLE: u8 = 0x40;

pub const IDE: u8 = 0x80;

/// The command byte of a transmit descriptor.
#[derive(Debug, Default, Clone, Copy, PartialEq, Eq, Structural)]
pub struct TransmissionCommandRegister {
    pub bits: u8,
}

/// Where the status byte stands among the sixteen bytes of a transmit
/// descriptor.
pub const TRANSMIT_STATUS_OFFSET: usize = 12;

pub const DESCRIPTOR_DONE: u8 = 0x01;

pub const EXCESS_COLLISIONS: u8 = 0x02;

pub const LATE_COLLISION: u8 = 0x04;

pub const TRANSMIT_UNDERRUN: u8 = 0x08;

/// The status byte of a transmit descriptor.
#[derive(Debug, Default, Clone, Copy, PartialEq, Eq, Structural)]
pub struct TransmissionStatusRegister {
    pub bits: u8,
}

impl TransmissionStatusRegister {
    /// Whether every bit of `flags` is set.
    pub fn contains(&self, flags: u8) -> (all: bool)
        ensures
            all == (self.bits & flags == flags),
    {
        self.bits & flags == flags
    }

    /// Clears the bits of `flags`.
    pub fn remove(&mut self, flags: u8)
        ensures
            final(self).bits == old(self).bits & !flags,
    {
        self.bits = self.bits & !flags;
    }

    /// Sets the bits of `flags`.
    pub fn insert(&mut self, flags: u8)
        ensures
            final(self).bits == old(self).bits | flags,
    {
        self.bits = self.bits | flags;
    }
}

/// One entry of the transmit ring, sixteen bytes that the controller reads
/// and writes.
#[derive(Debug, Default, Clone, Copy, PartialEq, Eq, Structural)]
pub struct TransmissionDescriptor {
    pub base_address: u64,
    pub length: u16,
    pub cso: u8,
    pub command: TransmissionCommandRegister,
    pub status: TransmissionStatusRegister,
    pub css: u8,
    pub special: u16,
}

/// The bytes of `value`, the least significant first.
pub open spec fn le16(value: u16) -> Seq<u8> {
    seq![(value % 256) as u8, (value / 256) as u8]
}

/// The bytes of `value`, the least significant first.
pub open spec fn le64(value: u64) -> Seq<u8> {
    Seq::new(8, |i: int| ((value as int / pow256(i)) % 256) as u8)
}

/// 256 to the power of `exponent`, for the eight bytes of a `u64`.
pub open spec fn pow256(exponent: int) -> int {
    if exponent <= 0 {
        1
    } else if exponent == 1 {
        0x100
    } else if exponent == 2 {
        0x1_0000
    } else if exponent == 3 {
        0x100_0000
    } else if exponent == 4 {
        0x1_0000_0000
    } else if exponent == 5 {
        0x100_0000_0000
    } else if exponent == 6 {
        0x1_0000_0000_0000
    } else {
        0x100_0000_0000_0000
    }
}

/// Appends the eight bytes of `value`, the least significant first.
fn push_le64(bytes: &mut Vec<u8>, value: u64)
    ensures
        final(bytes)@ == old(bytes)@ + le64(value),
{
    bytes.push((value % 256) as u8);
    bytes.push(((value / 0x100) % 256) as u8);
    bytes.push(((value / 0x1_0000) % 256) as u8);
    bytes.push(((value / 0x100_0000) % 256) as u8);
    bytes.push(((value / 0x1_0000_0000) % 256) as u8);
    bytes.push(((value / 0x100_0000_0000) % 256) as u8);
    bytes.push(((value / 0x1_0000_0000_0000) % 256) as u8);
    bytes.push(((value / 0x100_0000_0000_0000) % 256) as u8);
    assert(final(bytes)@ =~= old(bytes)@ + le64(value));
}

/// Appends the two bytes of `value`, the less significant first.
fn push_le16(bytes: &mut Vec<u8>, value: u16)
    ensures
        final(bytes)@ == old(bytes)@ + le16(value),
{
    bytes.push((value % 256) as u8);
    bytes.push((value / 256) as u8);
    assert(final(bytes)@ =~= old(bytes)@ + le16(value));
}

impl TransmissionDescriptor {
    /// A descriptor without a buffer that the controller is done with, so
    /// that the driver may claim it.
    pub fn empty() -> (descriptor: Self)
        ensures
            descriptor == (TransmissionDescriptor {
                base_address: 0,
                length: 0,
                cso: 0,
                command: TransmissionCommandRegister { bits: REPORT_STATUS },
                status: TransmissionStatusRegister { bits: DESCRIPTOR_DONE },
                css: 0,
                special: 0,
            }),
            descriptor.is_done(),
    {
        let descriptor = Self {
            base_address: 0,
            command: TransmissionCommandRegister { bits: REPORT_STATUS },
            cso: 0,
            length: 0,
            css: 0,
            special: 0,
            status: TransmissionStatusRegister { bits: DESCRIPTOR_DONE },
        };
        assert(DESCRIPTOR_DONE & DESCRIPTOR_DONE == DESCRIPTOR_DONE) by (bit_vector);
        descriptor
    }

    /// The controller is done with the descriptor: the driver owns it.
    /// While this does not hold the controller owns it.
    pub open spec fn is_done(&self) -> bool {
        self.status.bits & DESCRIPTOR_DONE == DESCRIPTOR_DONE
    }

    /// The sixteen bytes of the descriptor as the controller reads them:
    /// buffer address, length, checksum offset, command, status, checksum
    /// start, special; numbers with their least significant byte first.
    pub open spec fn bytes(&self) -> Seq<u8> {
        le64(self.base_address) + le16(self.length) + seq![
            self.cso,
            self.command.bits,
            self.status.bits,
            self.css,
        ] + le16(self.special)
    }

    /// The sixteen bytes of the descriptor as the controller reads them.
    pub fn to_bytes(&self) -> (bytes: Vec<u8>)
        ensures
            bytes@ == self.bytes(),
            bytes@.len() == 16,
    {
        let mut bytes: Vec<u8> = Vec::new();
        push_le64(&mut bytes, self.base_address);
        push_le16(&mut bytes, self.length);
        bytes.push(self.cso);
        bytes.push(self.command.bits);
        bytes.push(self.status.bits);
        bytes.push(self.css);
        assert(bytes@ =~= le64(self.base_address) + le16(self.length) + seq![
            self.cso,
            self.command.bits,
            self.status.bits,
            self.css,
        ]);
        push_le16(&mut bytes, self.special);
        bytes
    }
}

pub const RECEIVE_DESCRIPTOR_DONE: u8 = 0x01;

pub const RECEIVE_END_OF_PACKET: u8 = 0x02;

pub const IGNORE_CHECKSUM_INDICATION: u8 = 0x04;

pub const VP: u8 = 0x08;

pub const TCP_CHECKSUM_CALCULATED: u8 = 0x20;

pub const IP_CHECKSUM_CALCULATED: u8 = 0x40;

pub const PIF: u8 = 0x80;

/// The status byte of a receive descriptor.
#[derive(Debug, Default, Clone, Copy, PartialEq, Eq, Structural)]
pub struct ReceiveStatusRegister {
    pub bits: u8,
}

impl ReceiveStatusRegister {
    /// No bit set.
    pub fn empty() -> (status: Self)
        ensures
            status.bits == 0,
    {
        Self { bits: 0 }
    }

    /// Whether every bit of `flags` is set.
    pub fn contains(&self, flags: u8) -> (all: bool)
        ensures
            all == (self.bits & flags == flags),
    {
        self.bits & flags == flags
    }
}

pub const CRC_OR_ALIGNMENT_ERROR: u8 = 0x01;

pub const SYMBOL_ERROR: u8 = 0x02;

pub const SEQUENCE_ERROR: u8 = 0x04;

pub const CARRIER_EXTENSION_ERROR: u8 = 0x10;

pub const TCP_UDP_CHECKSUM_ERROR: u8 = 0x20;

pub const IP_CHECKSUM_ERROR: u8 = 0x40;

pub const RX_DATA_ERROR: u8 = 0x80;

/// The error byte of a receive descriptor.
#[derive(Debug, Default, Clone, Copy, PartialEq, Eq, Structural)]
pub struct ReceiveErrorRegister {
    pub bits: u8,
}

impl ReceiveErrorRegister {
    /// No bit set.
    pub fn empty() -> (errors: Self)
        ensures
            errors.bits == 0,
    {
        Self { bits: 0 }
    }
}

/// One entry of the receive ring, sixteen bytes that the controller reads
/// and writes.
#[derive(Debug, Default, Clone, Copy, PartialEq, Eq, Structural)]
pub struct ReceiveDescriptor {
    pub base_address: u64,
    pub length: u16,
    pub packet_checksum: u16,
    pub status: ReceiveStatusRegister,
    pub errors: ReceiveErrorRegister,
    pub special: u16,
}

impl ReceiveDescriptor {
    /// A descriptor without a buffer and without a packet.
    pub fn empty() -> (descriptor: Self)
        ensures
            descriptor == (ReceiveDescriptor {
                base_address: 0,
                length: 0,
                packet_checksum: 0,
                status: ReceiveStatusRegister { bits: 0 },
                errors: ReceiveErrorRegister { bits: 0 },
                special: 0,
            }),
    {
        Self {
            base_address: 0,
            length: 0,
            packet_checksum: 0,
            status: ReceiveStatusRegister::empty(),
            errors: ReceiveErrorRegister::empty(),
            special: 0,
        }
    }

    /// The controller has put a packet into the buffer: the driver owns the
    /// descriptor. While this does not hold the controller owns it.
    pub open spec fn is_done(&self) -> bool {
        self.status.bits & RECEIVE_DESCRIPTOR_DONE == RECEIVE_DESCRIPTOR_DONE
    }

    /// The sixteen bytes of the descriptor as the controller reads them:
    /// buffer address, length, packet checksum, status, errors, special;
    /// numbers with their least significant byte first.
    pub open spec fn bytes(&self) -> Seq<u8> {
        le64(self.base_address) + le16(self.length) + le16(self.packet_checksum) + seq![
            self.status.bits,
            self.errors.bits,
        ] + le16(self.special)
    }

    /// The sixteen bytes of the descriptor as the controller reads them.
    pub fn to_bytes(&self) -> (bytes: Vec<u8>)
        ensures
            bytes@ == self.bytes(),
            bytes@.len() == 16,
    {
        let mut bytes: Vec<u8> = Vec::new();
        push_le64(&mut bytes, self.base_address);
        push_le16(&mut bytes, self.length);
        push_le16(&mut bytes, self.packet_checksum);
        bytes.push(self.status.bits);
        bytes.push(self.errors.bits);
        assert(bytes@ =~= le64(self.base_address) + le16(self.length) + le16(
            self.packet_checksum,
        ) + seq![self.status.bits, self.errors.bits]);
        push_le16(&mut bytes, self.special);
        bytes
    }
}

} // verus!
