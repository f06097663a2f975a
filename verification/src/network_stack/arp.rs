use super::ethernet::EitherType;
use super::{be16, from_be16, push_all, push_be16, read_be16};
use vstd::prelude::*;
use vstd::slice::slice_subrange;

verus! {

/// What an ARP packet asks for.
#[derive(Debug, Clone, Copy, PartialEq, Eq, Structural)]
pub enum Operation {
    Request,
    Replay,
}

impl Operation {
    /// The number that stands for the operation in a packet.
    pub open spec fn value(self) -> u16 {
        match self {
            Operation::Request => 1,
            Operation::Replay => 2,
        }
    }

    /// The operation that `value` stands for, if any.
    pub open spec fn of(value: u16) -> Option<Operation> {
        if value == 1 {
            Some(Operation::Request)
        } else if value == 2 {
            Some(Operation::Replay)
        } else {
            None
        }
    }

    /// The number that stands for the operation in a packet.
    pub fn to_u16(self) -> (value: u16)
        ensures
            value == self.value(),
    {
        match self {
            Operation::Request => 1,
            Operation::Replay => 2,
        }
    }

    /// The operation that `value` stands for, if any.
    pub fn from_u16(value: u16) -> (operation: Option<Operation>)
        ensures
            operation == Operation::of(value),
    {
        if value == 1 {
            Some(Operation::Request)
        } else if value == 2 {
            Some(Operation::Replay)
        } else {
            None
        }
    }
}

/// The kind of network that hardware addresses belong to.
#[derive(Debug, Clone, Copy, PartialEq, Eq, Structural)]
pub enum HardwareType {
    Ethernet,
}

impl HardwareType {
    /// The number that stands for the hardware type in a packet.
    pub open spec fn value(self) -> u16 {
        1
    }

    /// The hardware type that `value` stands for, if any.
    pub open spec fn of(value: u16) -> Option<HardwareType> {
        if value == 1 {
            Some(HardwareType::Ethernet)
        } else {
            None
        }
    }

    /// The number that stands for the hardware type in a packet.
    pub fn to_u16(self) -> (value: u16)
        ensures
            value == self.value(),
    {
        1
    }

    /// The hardware type that `value` stands for, if any.
    pub fn from_u16(value: u16) -> (hardware_type: Option<HardwareType>)
        ensures
            hardware_type == HardwareType::of(value),
    {
        if value == 1 {
            Some(HardwareType::Ethernet)
        } else {
            None
        }
    }
}

/// An ARP packet as RFC 826 lays it out.
pub struct ArpPacket<'a> {
    pub hardware_type: HardwareType,
    pub protocol_type: EitherType,
    pub hardware_len: u8,
    pub protocol_len: u8,
    pub operation: Operation,
    pub sender_hardware_address: &'a [u8],
    pub sender_protocol_address: &'a [u8],
    pub target_hardware_address: &'a [u8],
    pub target_protocol_address: &'a [u8],
}

/// The eight bytes that precede the addresses.
pub open spec fn header_bytes(
    hardware_type: HardwareType,
    protocol_type: EitherType,
    hardware_len: u8,
    protocol_len: u8,
    operation: Operation,
) -> Seq<u8> {
    be16(hardware_type.value()) + be16(protocol_type.value()) + seq![hardware_len, protocol_len]
        + be16(operation.value())
}

impl<'a> ArpPacket<'a> {
    /// The addresses have the lengths that the packet states.
    pub open spec fn wf(&self) -> bool {
        &&& self.sender_hardware_address@.len() == self.hardware_len
        &&& self.target_hardware_address@.len() == self.hardware_len
        &&& self.sender_protocol_address@.len() == self.protocol_len
        &&& self.target_protocol_address@.len() == self.protocol_len
    }

    /// The bytes of the packet: hardware type, protocol type, the two
    /// lengths, the operation, then the sender's and the target's addresses,
    /// hardware before protocol; numbers of two bytes with the more
    /// significant first.
    pub open spec fn bytes(&self) -> Seq<u8> {
        header_bytes(
            self.hardware_type,
            self.protocol_type,
            self.hardware_len,
            self.protocol_len,
            self.operation,
        ) + self.sender_hardware_address@ + self.sender_protocol_address@
            + self.target_hardware_address@ + self.target_protocol_address@
    }

    /// The packet as it goes on the wire.
    pub fn to_bytes(&self) -> (bytes: Vec<u8>)
        ensures
            bytes@ == self.bytes(),
    {
        let mut vec: Vec<u8> = Vec::new();

        push_be16(&mut vec, self.hardware_type.to_u16());
        push_be16(&mut vec, self.protocol_type.to_u16());
        vec.push(self.hardware_len);
        vec.push(self.protocol_len);
        push_be16(&mut vec, self.operation.to_u16());
        assert(vec@ =~= header_bytes(
            self.hardware_type,
            self.protocol_type,
            self.hardware_len,
            self.protocol_len,
            self.operation,
        ));
        push_all(&mut vec, self.sender_hardware_address);
        push_all(&mut vec, self.sender_protocol_address);
        push_all(&mut vec, self.target_hardware_address);
        push_all(&mut vec, self.target_protocol_address);

        vec
    }

    /// Whether `bytes` hold a packet: eight bytes of header with known
    /// types and a known operation, and the four addresses in full.
    pub open spec fn holds_packet(bytes: Seq<u8>) -> bool {
        &&& bytes.len() >= 8
        &&& HardwareType::of(from_be16(bytes[0], bytes[1])).is_some()
        &&& EitherType::of(from_be16(bytes[2], bytes[3])).is_some()
        &&& Operation::of(from_be16(bytes[6], bytes[7])).is_some()
        &&& bytes.len() >= 8 + 2 * bytes[4] + 2 * bytes[5]
    }

    /// What `parse` makes of bytes: the packet that they hold, if any. What
    /// follows the fourth address is padding.
    pub open spec fn parsed(bytes: Seq<u8>, packet: Option<ArpPacket<'a>>) -> bool {
        if Self::holds_packet(bytes) {
            let h = bytes[4] as int;
            let p = bytes[5] as int;
            &&& packet matches Some(packet)
            &&& Some(packet.hardware_type) == HardwareType::of(from_be16(bytes[0], bytes[1]))
            &&& Some(packet.protocol_type) == EitherType::of(from_be16(bytes[2], bytes[3]))
            &&& packet.hardware_len == bytes[4]
            &&& packet.protocol_len == bytes[5]
            &&& Some(packet.operation) == Operation::of(from_be16(bytes[6], bytes[7]))
            &&& packet.sender_hardware_address@ == bytes.subrange(8, 8 + h)
            &&& packet.sender_protocol_address@ == bytes.subrange(8 + h, 8 + h + p)
            &&& packet.target_hardware_address@ == bytes.subrange(8 + h + p, 8 + 2 * h + p)
            &&& packet.target_protocol_address@ == bytes.subrange(8 + 2 * h + p, 8 + 2 * h + 2 * p)
        } else {
            packet.is_none()
        }
    }

    /// Reads a packet. `None` for bytes that do not hold one.
    pub fn parse(bytes: &'a [u8]) -> (packet: Option<ArpPacket<'a>>)
        ensures
            Self::parsed(bytes@, packet),
    {
        if bytes.len() < 8 {
            return None;
        }
        let hardware_type = match HardwareType::from_u16(read_be16(bytes, 0)) {
            Some(hardware_type) => hardware_type,
            None => {
                return None;
            },
        };
        let protocol_type = match EitherType::from_u16(read_be16(bytes, 2)) {
            Some(protocol_type) => protocol_type,
            None => {
                return None;
            },
        };
        let hardware_len = bytes[4];
        let protocol_len = bytes[5];
        let operation = match Operation::from_u16(read_be16(bytes, 6)) {
            Some(operation) => operation,
            None => {
                return None;
            },
        };
        let h = hardware_len as usize;
        let p = protocol_len as usize;
        if bytes.len() < 8 + 2 * h + 2 * p {
            return None;
        }
        Some(
            ArpPacket {
                hardware_type,
                protocol_type,
                hardware_len,
                protocol_len,
                operation,
                sender_hardware_address: slice_subrange(bytes, 8, 8 + h),
                sender_protocol_address: slice_subrange(bytes, 8 + h, 8 + h + p),
                target_hardware_address: slice_subrange(bytes, 8 + h + p, 8 + 2 * h + p),
                target_protocol_address: slice_subrange(bytes, 8 + 2 * h + p, 8 + 2 * h + 2 * p),
            },
        )
    }

    /// A packet whose addresses have the stated lengths, written and read
    /// again, is the same packet.
    pub proof fn lemma_round_trip(self, packet: Option<ArpPacket<'a>>)
        requires
            self.wf(),
            Self::parsed(self.bytes(), packet),
        ensures
            packet matches Some(read) && read.hardware_type == self.hardware_type
                && read.protocol_type == self.protocol_type && read.hardware_len
                == self.hardware_len && read.protocol_len == self.protocol_len && read.operation
                == self.operation && read.sender_hardware_address@ == self.sender_hardware_address@
                && read.sender_protocol_address@ == self.sender_protocol_address@
                && read.target_hardware_address@ == self.target_hardware_address@
                && read.target_protocol_address@ == self.target_protocol_address@,
    {
        let bytes = self.bytes();
        let header = header_bytes(
            self.hardware_type,
            self.protocol_type,
            self.hardware_len,
            self.protocol_len,
            self.operation,
        );
        let h = self.hardware_len as int;
        let p = self.protocol_len as int;
        assert(header.len() == 8);
        assert(bytes.len() == 8 + 2 * h + 2 * p);
        assert(bytes[0] == be16(self.hardware_type.value())[0]);
        assert(bytes[1] == be16(self.hardware_type.value())[1]);
        assert(bytes[2] == be16(self.protocol_type.value())[0]);
        assert(bytes[3] == be16(self.protocol_type.value())[1]);
        assert(bytes[4] == self.hardware_len);
        assert(bytes[5] == self.protocol_len);
        assert(bytes[6] == be16(self.operation.value())[0]);
        assert(bytes[7] == be16(self.operation.value())[1]);
        super::lemma_be16_round_trip(self.hardware_type.value());
        super::lemma_be16_round_trip(self.protocol_type.value());
        super::lemma_be16_round_trip(self.operation.value());
        assert(Self::holds_packet(bytes));
        assert(bytes.subrange(8, 8 + h) =~= self.sender_hardware_address@);
        assert(bytes.subrange(8 + h, 8 + h + p) =~= self.sender_protocol_address@);
        assert(bytes.subrange(8 + h + p, 8 + 2 * h + p) =~= self.target_hardware_address@);
        assert(bytes.subrange(8 + 2 * h + p, 8 + 2 * h + 2 * p)
            =~= self.target_protocol_address@);
    }
}

} // verus!
