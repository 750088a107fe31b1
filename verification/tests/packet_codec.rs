use rusty_vban::header::Header;
use rusty_vban::packet::{Error, Packet, MAX_PACKET_SIZE};

#[test]
fn parse_splits_header_and_payload() {
    let mut header = Header::new(b"Mic");
    header.set_frame_number(9);
    let mut wire = header.encode();
    wire.extend_from_slice(&[0x10, 0x20, 0x30, 0x40]);
    let pkt = Packet::parse(&wire).expect("a well-formed packet must parse");
    assert_eq!(pkt.header().frame_number(), 9);
    assert_eq!(pkt.header().stream_name(), b"Mic".to_vec());
    assert_eq!(pkt.data(), &vec![0x10, 0x20, 0x30, 0x40]);
}

#[test]
fn parse_rejects_bad_magic() {
    let mut wire = Header::new(b"Mic").encode();
    wire[2] = 0;
    wire.extend_from_slice(&[1, 2]);
    assert!(matches!(Packet::parse(&wire), Err(Error::MissingMagicNumber)));
}

#[test]
fn parse_copies_payload() {
    // the parsed packet owns its payload: clearing the receive buffer
    // afterwards must not change it
    let mut wire = Header::new(b"Mic").encode();
    wire.extend_from_slice(&[7, 8, 9]);
    let pkt = Packet::parse(&wire).unwrap();
    for b in wire.iter_mut() {
        *b = 0;
    }
    assert_eq!(pkt.data(), &vec![7, 8, 9]);
}

#[test]
fn serialize_is_header_then_payload() {
    let mut header = Header::new(b"Mic");
    header.set_frame_number(5);
    let header_bytes = header.encode();
    let pkt = Packet::new(header, vec![0xAA, 0xBB]);
    let wire = pkt.serialize();
    assert_eq!(wire.len(), 30);
    assert_eq!(&wire[..28], header_bytes.as_slice());
    assert_eq!(&wire[28..], &[0xAA, 0xBB]);
}

#[test]
fn serialize_parse_round_trip() {
    let mut header = Header::new(b"Loop");
    header.set_num_samples(3);
    header.set_frame_number(77);
    let pkt = Packet::new(header, vec![1, 0, 2, 0, 3, 0, 4, 0]);
    let wire = pkt.serialize();
    let back = Packet::parse(&wire).expect("the serialization must parse");
    assert_eq!(back.header().num_samples(), 3);
    assert_eq!(back.header().frame_number(), 77);
    assert_eq!(back.data(), pkt.data());
}

#[test]
fn header_mut_updates_the_packet() {
    let pkt_header = Header::new(b"Mic");
    let mut pkt = Packet::new(pkt_header, vec![]);
    pkt.header_mut().set_frame_number(123);
    assert_eq!(pkt.header().frame_number(), 123);
}

#[test]
fn max_packet_size_is_the_wire_maximum() {
    assert_eq!(MAX_PACKET_SIZE, 1464);
}
