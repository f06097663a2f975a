use super::{be16, be32, from_be16, from_be32, push_all, push_be16, push_be32, read_be16, read_be32};
use vstd::prelude::*;
use vstd::slice::slice_subrange;

verus! {

/// The upper-case hexadecimal digit for a number below 16, in ASCII.
pub open spec fn hex_digit(nibble: u8) -> u8 {
    if nibble < 10 {
        (0x30 + nibble) as u8
    } else {
        (0x37 + nibble) as u8
    }
}

/// The upper-case hexadecimal digit for a number below 16, in ASCII.
pub fn to_hex_digit(nibble: u8) -> (digit: u8)
    requires
        nibble < 16,
    ensures
        digit == hex_digit(nibble),
{
    if nibble < 10 {
        0x30 + nibble
    } else {
        0x37 + nibble
    }
}

/// A hardware address of six bytes.
#[derive(Debug, Clone, Copy)]
pub struct EthernetAddress {
    pub bytes: [u8; 6],
}

impl EthernetAddress {
    /// The address that every station listens to.
    pub fn broadcast() -> (address: Self)
        ensures
            address.bytes@ == seq![0xffu8, 0xffu8, 0xffu8, 0xffu8, 0xffu8, 0xffu8],
    {
        let address = Self { bytes: [0xff, 0xff, 0xff, 0xff, 0xff, 0xff] };
        assert(address.bytes@ =~= seq![0xffu8, 0xffu8, 0xffu8, 0xffu8, 0xffu8, 0xffu8]);
        address
    }

    /// The address as text: its six bytes in two upper-case hexadecimal
    /// digits each, with colons between them.
    pub open spec fn text(&self) -> Seq<u8> {
        Seq::new(
            17,
            |i: int|
                if i % 3 == 2 {
                    0x3Au8
                } else if i % 3 == 0 {
                    hex_digit(self.bytes@[i / 3] / 16)
                } else {
                    hex_digit(self.bytes@[i / 3] % 16)
                },
        )
    }

    /// The address as text in ASCII, such as `52:54:00:12:34:56`.
    pub fn to_text(&self) -> (text: Vec<u8>)
        ensures
            text@ == self.text(),
    {
        let mut text: Vec<u8> = Vec::new();
        let mut index: usize = 0;
        while index < 6
            invariant
                index <= 6,
                text@.len() == if index == 0 {
                    0
                } else {
                    3 * index - 1
                },
                forall|i: int| 0 <= i < text@.len() ==> text@[i] == self.text()[i],
            decreases 6 - index,
        {
            if index > 0 {
                text.push(0x3A);
            }
            let byte = self.bytes[index];
            text.push(to_hex_digit(byte / 16));
            text.push(to_hex_digit(byte % 16));
            index = index + 1;
        }
        assert(text@ =~= self.text());
        text
    }

    /// The address whose six bytes stand at `at`.
    pub fn read(bytes: &[u8], at: usize) -> (address: Self)
        requires
            at + 6 <= bytes@.len(),
        ensures
            address.bytes@ == bytes@.subrange(at as int, at + 6),
    {
        let address = Self {
            bytes: [
                bytes[at],
                bytes[at + 1],
                bytes[at + 2],
                bytes[at + 3],
                bytes[at + 4],
                bytes[at + 5],
            ],
        };
        assert(address.bytes@ =~= bytes@.subrange(at as int, at + 6));
        address
    }
}

/// What a frame carries, as its type field says.
#[derive(Debug, Clone, Copy, PartialEq, Eq, Structural)]
pub enum EitherType {
    Ipv4,
    Arp,
}

impl EitherType {
    /// The number that stands for the type in a frame.
    pub open spec fn value(self) -> u16 {
        match self {
            EitherType::Ipv4 => 0x0800,
            EitherType::Arp => 0x0806,
        }
    }

    /// The type that `value` stands for, if any.
    pub open spec fn of(value: u16) -> Option<EitherType> {
        if value == 0x0800 {
            Some(EitherType::Ipv4)
        } else if value == 0x0806 {
            Some(EitherType::Arp)
        } else {
            None
        }
    }

    /// The number that stands for the type in a frame.
    pub fn to_u16(self) -> (value: u16)
        ensures
            value == self.value(),
    {
        match self {
            EitherType::Ipv4 => 0x0800,
            EitherType::Arp => 0x0806,
        }
    }

    /// The type that `value` stands for, if any.
    pub fn from_u16(value: u16) -> (ether_type: Option<EitherType>)
        ensures
            ether_type == EitherType::of(value),
    {
        if value == 0x0800 {
            Some(EitherType::Ipv4)
        } else if value == 0x0806 {
            Some(EitherType::Arp)
        } else {
            None
        }
    }
}

/// The CRC-32 of a sequence of bytes as IEEE 802.3 defines it: polynomial
/// 0x04C11DB7, bits reflected on the way in and out.
pub uninterp spec fn crc32_iso_hdlc(bytes: Seq<u8>) -> u32;

/// The checksum that `crc::Crc::<u32>::checksum` computes with the algorithm
/// `CRC_32_ISO_HDLC`. It depends on the bytes alone; nothing else is claimed
/// of it.
#[verifier::external_body]
fn checksum(bytes: &[u8]) -> (crc: u32)
    ensures
        crc == crc32_iso_hdlc(bytes@),
{
    crc::Crc::<u32>::new(&crc::CRC_32_ISO_HDLC).checksum(bytes)
}

/// An Ethernet frame: where it goes, where it comes from, what it carries.
pub struct EthernetFrame<'a> {
    pub destination_address: EthernetAddress,
    pub source_address: EthernetAddress,
    pub ether_type: EitherType,
    pub data: &'a [u8],
}

/// The bytes of a frame without a checksum: destination, source, the type
/// with its more significant byte first, and the data.
pub open spec fn frame_bytes(
    destination: EthernetAddress,
    source: EthernetAddress,
    ether_type: EitherType,
    data: Seq<u8>,
) -> Seq<u8> {
    destination.bytes@ + source.bytes@ + be16(ether_type.value()) + data
}

/// `bytes` followed by the four bytes of `crc`, the most significant first.
pub open spec fn with_checksum(bytes: Seq<u8>, crc: u32) -> Seq<u8> {
    bytes + be32(crc)
}

/// The checksum that stands in the last four bytes.
pub open spec fn trailing_checksum(bytes: Seq<u8>) -> u32 {
    let n = bytes.len() as int;
    from_be32(bytes[n - 4], bytes[n - 3], bytes[n - 2], bytes[n - 1])
}

impl<'a> EthernetFrame<'a> {
    /// The bytes of the frame without a checksum.
    pub open spec fn bytes(&self) -> Seq<u8> {
        frame_bytes(self.destination_address, self.source_address, self.ether_type, self.data@)
    }

    /// The frame's header and data as bytes.
    pub fn header_and_data(&self) -> (bytes: Vec<u8>)
        ensures
            bytes@ == self.bytes(),
    {
        let mut vec: Vec<u8> = Vec::new();
        push_all(&mut vec, self.destination_address.bytes.as_slice());
        push_all(&mut vec, self.source_address.bytes.as_slice());
        push_be16(&mut vec, self.ether_type.to_u16());
        push_all(&mut vec, self.data);
        vec
    }

    /// Appends a checksum, its most significant byte first.
    pub fn append_checksum(bytes: Vec<u8>, crc: u32) -> (framed: Vec<u8>)
        ensures
            framed@ == with_checksum(bytes@, crc),
    {
        let mut vec = bytes;
        push_be32(&mut vec, crc);
        vec
    }

    /// The frame as it goes on the wire: destination, source, type, data,
    /// and, with `add_crc`, the CRC-32 of all of these.
    pub fn to_bytes(&self, add_crc: bool) -> (bytes: Vec<u8>)
        ensures
            add_crc ==> bytes@ == with_checksum(self.bytes(), crc32_iso_hdlc(self.bytes())),
            !add_crc ==> bytes@ == self.bytes(),
    {
        let vec = self.header_and_data();
        if add_crc {
            let crc = checksum(vec.as_slice());
            Self::append_checksum(vec, crc)
        } else {
            vec
        }
    }

    /// What `parse` makes of bytes without a checksum: the frame whose bytes
    /// they are, where the type field holds a known type.
    pub open spec fn parsed(bytes: Seq<u8>, frame: Option<EthernetFrame<'a>>) -> bool {
        if bytes.len() >= 14 && EitherType::of(from_be16(bytes[12], bytes[13])).is_some() {
            frame matches Some(f) && f.destination_address.bytes@ == bytes.subrange(0, 6)
                && f.source_address.bytes@ == bytes.subrange(6, 12) && Some(f.ether_type)
                == EitherType::of(from_be16(bytes[12], bytes[13])) && f.data@ == bytes.subrange(
                14,
                bytes.len() as int,
            )
        } else {
            frame.is_none()
        }
    }

    /// Reads a frame without a checksum. `None` for fewer than 14 bytes and
    /// for a type that is not known.
    pub fn parse(bytes: &'a [u8]) -> (frame: Option<EthernetFrame<'a>>)
        ensures
            Self::parsed(bytes@, frame),
    {
        if bytes.len() < 14 {
            return None;
        }
        let ether_type = match EitherType::from_u16(read_be16(bytes, 12)) {
            Some(ether_type) => ether_type,
            None => {
                return None;
            },
        };
        Some(
            EthernetFrame {
                destination_address: EthernetAddress::read(bytes, 0),
                source_address: EthernetAddress::read(bytes, 6),
                ether_type,
                data: slice_subrange(bytes, 14, bytes.len()),
            },
        )
    }

    /// Whether the last four bytes are the checksum `crc`.
    pub fn ends_with_checksum(bytes: &[u8], crc: u32) -> (matches: bool)
        requires
            bytes@.len() >= 4,
        ensures
            matches == (trailing_checksum(bytes@) == crc),
    {
        read_be32(bytes, bytes.len() - 4) == crc
    }

    /// Reads a frame that ends with its checksum. `None` where `parse`
    /// returns `None` for what precedes the checksum, for fewer than 4
    /// bytes, and where the checksum is not that of what precedes it.
    pub fn parse_checked(bytes: &'a [u8]) -> (frame: Option<EthernetFrame<'a>>)
        ensures
            bytes@.len() >= 4 && trailing_checksum(bytes@) == crc32_iso_hdlc(
                bytes@.subrange(0, bytes@.len() - 4),
            ) ==> Self::parsed(bytes@.subrange(0, bytes@.len() - 4), frame),
            !(bytes@.len() >= 4 && trailing_checksum(bytes@) == crc32_iso_hdlc(
                bytes@.subrange(0, bytes@.len() - 4),
            )) ==> frame.is_none(),
    {
        if bytes.len() < 4 {
            return None;
        }
        let body = slice_subrange(bytes, 0, bytes.len() - 4);
        let crc = checksum(body);
        if !Self::ends_with_checksum(bytes, crc) {
            return None;
        }
        Self::parse(body)
    }

    /// A frame written without a checksum and read again is the same frame.
    pub proof fn lemma_round_trip(self, frame: Option<EthernetFrame<'a>>)
        requires
            Self::parsed(self.bytes(), frame),
        ensures
            frame matches Some(f) && f.destination_address == self.destination_address
                && f.source_address == self.source_address && f.ether_type == self.ether_type
                && f.data@ == self.data@,
    {
        let bytes = self.bytes();
        let header = self.destination_address.bytes@ + self.source_address.bytes@ + be16(
            self.ether_type.value(),
        );
        assert(bytes == header + self.data@);
        assert(header.len() == 14);
        assert(bytes[12] == be16(self.ether_type.value())[0]);
        assert(bytes[13] == be16(self.ether_type.value())[1]);
        super::lemma_be16_round_trip(self.ether_type.value());
        assert(bytes.subrange(0, 6) =~= self.destination_address.bytes@);
        assert(bytes.subrange(6, 12) =~= self.source_address.bytes@);
        assert(bytes.subrange(14, bytes.len() as int) =~= self.data@);
        let f = frame.unwrap();
        assert(f.destination_address.bytes =~= self.destination_address.bytes);
        assert(f.source_address.bytes =~= self.source_address.bytes);
    }

    /// A frame written with its checksum and read again is the same
    /// frame: what `parse_checked` makes of the bytes that `to_bytes` gives
    /// is the frame.
    pub proof fn lemma_round_trip_with_checksum(self, frame: Option<EthernetFrame<'a>>)
        requires
            ({
                let wire = with_checksum(self.bytes(), crc32_iso_hdlc(self.bytes()));
                Self::parsed(wire.subrange(0, wire.len() - 4), frame)
            }),
        ensures
            frame matches Some(f) && f.destination_address == self.destination_address
                && f.source_address == self.source_address && f.ether_type == self.ether_type
                && f.data@ == self.data@,
    {
        self.lemma_round_trip_checked();
        self.lemma_round_trip(frame);
    }

    /// The bytes of a frame written with its checksum end with the
    /// checksum of the bytes before it, which are the frame's: so
    /// `parse_checked` accepts them.
    pub proof fn lemma_round_trip_checked(self)
        ensures
            ({
                let wire = with_checksum(self.bytes(), crc32_iso_hdlc(self.bytes()));
                &&& wire.len() >= 4
                &&& wire.subrange(0, wire.len() - 4) == self.bytes()
                &&& trailing_checksum(wire) == crc32_iso_hdlc(self.bytes())
            }),
    {
        let crc = crc32_iso_hdlc(self.bytes());
        let wire = with_checksum(self.bytes(), crc);
        super::lemma_be32_round_trip(crc);
        assert(wire.subrange(0, wire.len() - 4) =~= self.bytes());
        let n = wire.len() as int;
        assert(wire[n - 4] == be32(crc)[0]);
        assert(wire[n - 3] == be32(crc)[1]);
        assert(wire[n - 2] == be32(crc)[2]);
        assert(wire[n - 1] == be32(crc)[3]);
    }
}

} // verus!
