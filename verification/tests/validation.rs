use rusty_vban::header::Header;
use rusty_vban::ip::IpV4;
use rusty_vban::jitter::JitterBuffer;
use rusty_vban::packet::Packet;
use rusty_vban::validate::{check_audio_pkt, check_src, handle_datagram, receive_packet, ReceiveError};

fn peer() -> IpV4 {
    IpV4 { a: 192, b: 168, c: 0, d: 10 }
}

fn other() -> IpV4 {
    IpV4 { a: 192, b: 168, c: 0, d: 11 }
}

fn mic_datagram(payload: &[u8]) -> Vec<u8> {
    let mut header = Header::new(b"Mic");
    header.set_num_samples((payload.len() as u8) / 2 - 1);
    let mut wire = header.encode();
    wire.extend_from_slice(payload);
    wire
}

fn drain(jb: &mut JitterBuffer) -> Vec<i16> {
    let mut out = Vec::new();
    while let Some(s) = jb.pop() {
        out.push(s);
    }
    out
}

#[test]
fn check_src_compares_addresses() {
    assert!(check_src(&peer(), &peer()).is_ok());
    assert!(matches!(check_src(&peer(), &other()), Err(ReceiveError::WrongSource)));
}

#[test]
fn matching_packet_is_accepted() {
    let wire = mic_datagram(&[1, 0, 2, 0]);
    let r = receive_packet(&peer(), &peer(), b"Mic", &2, &wire);
    let pkt = r.expect("a matching packet must be accepted");
    assert_eq!(pkt.data(), &vec![1, 0, 2, 0]);
}

#[test]
fn wrong_source_is_dropped() {
    let wire = mic_datagram(&[1, 0]);
    let r = receive_packet(&peer(), &other(), b"Mic", &2, &wire);
    assert!(matches!(r, Err(ReceiveError::WrongSource)));
}

#[test]
fn wrong_stream_name_is_dropped() {
    let wire = mic_datagram(&[1, 0]);
    let r = receive_packet(&peer(), &peer(), b"Other", &2, &wire);
    assert!(matches!(r, Err(ReceiveError::WrongStreamName)));
}

#[test]
fn wrong_channel_count_is_dropped() {
    let wire = mic_datagram(&[1, 0]);
    let r = receive_packet(&peer(), &peer(), b"Mic", &4, &wire);
    assert!(matches!(r, Err(ReceiveError::WrongChannelCount)));
}

#[test]
fn wrong_sub_protocol_is_dropped() {
    let mut wire = mic_datagram(&[1, 0]);
    wire[4] |= 0x20; // rewrite the sub-protocol to serial
    let r = receive_packet(&peer(), &peer(), b"Mic", &2, &wire);
    assert!(matches!(r, Err(ReceiveError::WrongSubProtocol)));
}

#[test]
fn wrong_codec_is_dropped() {
    let mut wire = mic_datagram(&[1, 0]);
    wire[7] |= 0x10; // rewrite the codec to VBCA
    let r = receive_packet(&peer(), &peer(), b"Mic", &2, &wire);
    assert!(matches!(r, Err(ReceiveError::WrongCodec)));
}

#[test]
fn short_datagram_is_dropped() {
    let r = receive_packet(&peer(), &peer(), b"Mic", &2, &[0x56, 0x42, 0x41, 0x4E, 0, 0]);
    assert!(matches!(r, Err(ReceiveError::Truncated)));
}

#[test]
fn bad_magic_is_dropped() {
    let mut wire = mic_datagram(&[1, 0]);
    wire[0] = 0;
    let r = receive_packet(&peer(), &peer(), b"Mic", &2, &wire);
    assert!(matches!(r, Err(ReceiveError::MissingMagicNumber)));
}

#[test]
fn reserved_bit_is_dropped() {
    let mut wire = mic_datagram(&[1, 0]);
    wire[7] |= 0x08;
    let r = receive_packet(&peer(), &peer(), b"Mic", &2, &wire);
    assert!(matches!(r, Err(ReceiveError::MalformedFormat)));
}

#[test]
fn check_audio_pkt_reports_the_first_mismatch() {
    let wire = mic_datagram(&[1, 0]);
    let pkt = Packet::parse(&wire).unwrap();
    assert!(check_audio_pkt(b"Mic", &2, &pkt).is_ok());
    assert!(matches!(check_audio_pkt(b"Other", &2, &pkt), Err(ReceiveError::WrongStreamName)));
    assert!(matches!(check_audio_pkt(b"Mic", &3, &pkt), Err(ReceiveError::WrongChannelCount)));
}

#[test]
fn rejected_datagrams_leave_the_buffer_alone() {
    let mut jb = JitterBuffer::new(2);
    let wire = mic_datagram(&[1, 0, 2, 0]);

    let r = handle_datagram(&mut jb, &peer(), &other(), b"Mic", &2, &wire);
    assert!(matches!(r, Err(ReceiveError::WrongSource)));
    let r = handle_datagram(&mut jb, &peer(), &peer(), b"Other", &2, &wire);
    assert!(matches!(r, Err(ReceiveError::WrongStreamName)));
    let r = handle_datagram(&mut jb, &peer(), &peer(), b"Mic", &7, &wire);
    assert!(matches!(r, Err(ReceiveError::WrongChannelCount)));

    // nothing was pushed: only the two preloaded silent samples remain
    assert_eq!(drain(&mut jb), vec![0, 0]);
}

#[test]
fn accepted_datagrams_feed_the_buffer() {
    let mut jb = JitterBuffer::new(2);
    let wire = mic_datagram(&[0x0A, 0x00, 0xF6, 0xFF]);
    let r = handle_datagram(&mut jb, &peer(), &peer(), b"Mic", &2, &wire);
    assert!(r.is_ok());
    assert_eq!(drain(&mut jb), vec![0, 0, 10, -10]);
}
