use kernel_core::network_stack::arp::{ArpPacket, HardwareType, Operation};
use kernel_core::network_stack::ethernet::{EitherType, EthernetAddress, EthernetFrame};
use kernel_core::network_stack::{push_be16, push_be32, read_be16, read_be32};

const CARD: [u8; 6] = [0x52, 0x54, 0x00, 0x12, 0x34, 0x56];

fn arp_request<'a>(sender: &'a [u8], target: &'a [u8]) -> ArpPacket<'a> {
    ArpPacket {
        hardware_type: HardwareType::Ethernet,
        protocol_type: EitherType::Ipv4,
        hardware_len: 6,
        protocol_len: 4,
        operation: Operation::Request,
        sender_hardware_address: sender,
        sender_protocol_address: &[1, 1, 1, 1],
        target_hardware_address: target,
        target_protocol_address: &[10, 0, 2, 2],
    }
}

const ARP_REQUEST_BYTES: [u8; 28] = [
    0x00, 0x01, 0x08, 0x00, 0x06, 0x04, 0x00, 0x01, 0x52, 0x54, 0x00, 0x12, 0x34, 0x56, 0x01, 0x01,
    0x01, 0x01, 0xff, 0xff, 0xff, 0xff, 0xff, 0xff, 0x0a, 0x00, 0x02, 0x02,
];

#[test]
fn arp_request_encoding() {
    let packet = arp_request(&CARD, &[0xff; 6]);
    let bytes = packet.to_bytes();
    assert_eq!(bytes.len(), 28);
    assert_eq!(bytes, ARP_REQUEST_BYTES.to_vec());
}

#[test]
fn arp_reply_encoding() {
    let mut packet = arp_request(&CARD, &[0xff; 6]);
    packet.operation = Operation::Replay;
    packet.protocol_type = EitherType::Arp;
    let bytes = packet.to_bytes();
    assert_eq!(&bytes[..8], &[0x00, 0x01, 0x08, 0x06, 0x06, 0x04, 0x00, 0x02]);
}

#[test]
fn arp_round_trip() {
    let packet = arp_request(&CARD, &[0xff; 6]);
    let bytes = packet.to_bytes();
    let read = ArpPacket::parse(&bytes).unwrap();
    assert_eq!(read.hardware_type, HardwareType::Ethernet);
    assert_eq!(read.protocol_type, EitherType::Ipv4);
    assert_eq!(read.hardware_len, 6);
    assert_eq!(read.protocol_len, 4);
    assert_eq!(read.operation, Operation::Request);
    assert_eq!(read.sender_hardware_address, &CARD);
    assert_eq!(read.sender_protocol_address, &[1, 1, 1, 1]);
    assert_eq!(read.target_hardware_address, &[0xff; 6]);
    assert_eq!(read.target_protocol_address, &[10, 0, 2, 2]);
}

#[test]
fn arp_parse_passes_over_padding() {
    let mut bytes = ARP_REQUEST_BYTES.to_vec();
    bytes.extend_from_slice(&[0; 18]);
    let read = ArpPacket::parse(&bytes).unwrap();
    assert_eq!(read.target_protocol_address, &[10, 0, 2, 2]);
}

#[test]
fn arp_parse_rejects_what_is_no_packet() {
    assert!(ArpPacket::parse(&ARP_REQUEST_BYTES[..27]).is_none());
    assert!(ArpPacket::parse(&ARP_REQUEST_BYTES[..7]).is_none());
    assert!(ArpPacket::parse(&[]).is_none());
    let mut unknown_hardware = ARP_REQUEST_BYTES;
    unknown_hardware[1] = 2;
    assert!(ArpPacket::parse(&unknown_hardware).is_none());
    let mut unknown_protocol = ARP_REQUEST_BYTES;
    unknown_protocol[3] = 1;
    assert!(ArpPacket::parse(&unknown_protocol).is_none());
    let mut unknown_operation = ARP_REQUEST_BYTES;
    unknown_operation[7] = 3;
    assert!(ArpPacket::parse(&unknown_operation).is_none());
    let mut longer_addresses = ARP_REQUEST_BYTES;
    longer_addresses[4] = 7;
    assert!(ArpPacket::parse(&longer_addresses).is_none());
}

fn arp_frame(data: &[u8]) -> EthernetFrame<'_> {
    EthernetFrame {
        data,
        destination_address: EthernetAddress::broadcast(),
        source_address: EthernetAddress { bytes: CARD },
        ether_type: EitherType::Arp,
    }
}

#[test]
fn broadcast_address() {
    assert_eq!(EthernetAddress::broadcast().bytes, [0xff; 6]);
}

#[test]
fn address_as_text() {
    assert_eq!(EthernetAddress { bytes: CARD }.to_text(), b"52:54:00:12:34:56".to_vec());
    assert_eq!(EthernetAddress::broadcast().to_text(), b"FF:FF:FF:FF:FF:FF".to_vec());
    let mixed = EthernetAddress { bytes: [0x0A, 0x9F, 0xB0, 0x01, 0xC9, 0xDE] };
    assert_eq!(mixed.to_text(), b"0A:9F:B0:01:C9:DE".to_vec());
}

#[test]
fn ethernet_frame_without_crc() {
    let bytes = arp_frame(&ARP_REQUEST_BYTES).to_bytes(false);
    assert_eq!(bytes.len(), 42);
    assert_eq!(&bytes[..6], &[0xff; 6]);
    assert_eq!(&bytes[6..12], &CARD);
    assert_eq!(&bytes[12..14], &[0x08, 0x06]);
    assert_eq!(&bytes[14..], &ARP_REQUEST_BYTES);
}

#[test]
fn ethernet_frame_with_crc() {
    let bytes = arp_frame(&ARP_REQUEST_BYTES).to_bytes(true);
    assert_eq!(bytes.len(), 46);
    assert_eq!(&bytes[..42], arp_frame(&ARP_REQUEST_BYTES).to_bytes(false).as_slice());
    // CRC-32/ISO-HDLC of the first 42 bytes, most significant byte first
    assert_eq!(&bytes[42..], &[0x16, 0x01, 0xb0, 0xe4]);
    let crc = crc::Crc::<u32>::new(&crc::CRC_32_ISO_HDLC);
    assert_eq!(&bytes[42..], &crc.checksum(&bytes[..42]).to_be_bytes());
}

#[test]
fn ethernet_frame_crc_of_an_empty_payload() {
    let frame = EthernetFrame {
        data: &[],
        destination_address: EthernetAddress::broadcast(),
        source_address: EthernetAddress { bytes: CARD },
        ether_type: EitherType::Ipv4,
    };
    let bytes = frame.to_bytes(true);
    assert_eq!(bytes.len(), 18);
    assert_eq!(&bytes[14..], &[0x52, 0xef, 0x6e, 0xa1]);
}

#[test]
fn append_checksum_puts_the_most_significant_byte_first() {
    let framed = EthernetFrame::append_checksum(vec![1, 2, 3], 0xAABBCCDD);
    assert_eq!(framed, vec![1, 2, 3, 0xAA, 0xBB, 0xCC, 0xDD]);
    assert!(EthernetFrame::ends_with_checksum(&framed, 0xAABBCCDD));
    assert!(!EthernetFrame::ends_with_checksum(&framed, 0xAABBCCDE));
}

#[test]
fn ethernet_round_trip() {
    let bytes = arp_frame(&ARP_REQUEST_BYTES).to_bytes(false);
    let read = EthernetFrame::parse(&bytes).unwrap();
    assert_eq!(read.destination_address.bytes, [0xff; 6]);
    assert_eq!(read.source_address.bytes, CARD);
    assert_eq!(read.ether_type, EitherType::Arp);
    assert_eq!(read.data, &ARP_REQUEST_BYTES);
}

#[test]
fn ethernet_round_trip_with_crc() {
    let bytes = arp_frame(&ARP_REQUEST_BYTES).to_bytes(true);
    let read = EthernetFrame::parse_checked(&bytes).unwrap();
    assert_eq!(read.destination_address.bytes, [0xff; 6]);
    assert_eq!(read.source_address.bytes, CARD);
    assert_eq!(read.ether_type, EitherType::Arp);
    assert_eq!(read.data, &ARP_REQUEST_BYTES);
    let packet = ArpPacket::parse(read.data).unwrap();
    assert_eq!(packet.sender_hardware_address, &CARD);
}

#[test]
fn ethernet_parse_rejects_a_wrong_crc() {
    let mut bytes = arp_frame(&ARP_REQUEST_BYTES).to_bytes(true);
    bytes[20] ^= 1;
    assert!(EthernetFrame::parse_checked(&bytes).is_none());
    let mut bytes = arp_frame(&ARP_REQUEST_BYTES).to_bytes(true);
    bytes[45] ^= 0x80;
    assert!(EthernetFrame::parse_checked(&bytes).is_none());
    assert!(EthernetFrame::parse_checked(&[1, 2, 3]).is_none());
}

#[test]
fn ethernet_parse_rejects_what_is_no_frame() {
    let bytes = arp_frame(&ARP_REQUEST_BYTES).to_bytes(false);
    assert!(EthernetFrame::parse(&bytes[..13]).is_none());
    assert!(EthernetFrame::parse(&bytes[..14]).is_some());
    let mut unknown_type = bytes.clone();
    unknown_type[13] = 0x07;
    assert!(EthernetFrame::parse(&unknown_type).is_none());
}

#[test]
fn ether_type_numbers() {
    assert_eq!(EitherType::Ipv4.to_u16(), 0x0800);
    assert_eq!(EitherType::Arp.to_u16(), 0x0806);
    assert_eq!(EitherType::from_u16(0x0800), Some(EitherType::Ipv4));
    assert_eq!(EitherType::from_u16(0x0806), Some(EitherType::Arp));
    assert_eq!(EitherType::from_u16(0x86DD), None);
    assert_eq!(Operation::Request.to_u16(), 1);
    assert_eq!(Operation::Replay.to_u16(), 2);
    assert_eq!(Operation::from_u16(0), None);
    assert_eq!(HardwareType::Ethernet.to_u16(), 1);
    assert_eq!(HardwareType::from_u16(6), None);
}

#[test]
fn big_endian_numbers() {
    let mut bytes = Vec::new();
    push_be16(&mut bytes, 0x1234);
    push_be32(&mut bytes, 0xA1B2C3D4);
    assert_eq!(bytes, vec![0x12, 0x34, 0xA1, 0xB2, 0xC3, 0xD4]);
    assert_eq!(read_be16(&bytes, 0), 0x1234);
    assert_eq!(read_be32(&bytes, 2), 0xA1B2C3D4);
    assert_eq!(read_be16(&bytes, 4), 0xC3D4);
}
