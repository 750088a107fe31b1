use rusty_vban::header::{
    BitResolution, Codec, Header, SampleRate, SubProtocol, HEADER_SIZE, MAX_NUM_SAMPLES,
};
use rusty_vban::packet::Error;

#[test]
fn header_constants() {
    assert_eq!(HEADER_SIZE, 28);
    assert_eq!(MAX_NUM_SAMPLES, 256);
    assert_eq!(Header::new(b"x").encode().len(), HEADER_SIZE);
}


#[test]
fn concrete_encode_example() {
    let mut header = Header::new(b"Mic");
    header.set_frame_number(42);
    let bytes = header.encode();
    let mut expected: Vec<u8> = vec![0x56, 0x42, 0x41, 0x4E, 0x03, 0xFF, 0x01, 0x01];
    expected.extend_from_slice(b"Mic");
    expected.extend_from_slice(&[0u8; 13]);
    expected.extend_from_slice(&[0x2A, 0x00, 0x00, 0x00]);
    assert_eq!(bytes, expected);
}

#[test]
fn round_trip_default_header() {
    let mut header = Header::new(b"Mic");
    header.set_frame_number(7);
    let bytes = header.encode();
    let decoded = Header::decode(&bytes).expect("the encoding must decode");
    assert_eq!(header, decoded);
}

#[test]
fn round_trip_modified_fields() {
    let mut header = Header::new(b"Stream1");
    header.set_num_samples(0);
    header.set_frame_number(u32::MAX);
    let bytes = header.encode();
    let decoded = Header::decode(&bytes).expect("the encoding must decode");
    assert_eq!(decoded.num_samples(), 0);
    assert_eq!(decoded.frame_number(), u32::MAX);
    assert_eq!(header, decoded);
}

#[test]
fn long_stream_name_is_truncated() {
    let header = Header::new(b"a-very-long-stream-name");
    let bytes = header.encode();
    assert_eq!(&bytes[8..24], b"a-very-long-stre");
    let decoded = Header::decode(&bytes).expect("the encoding must decode");
    assert_eq!(decoded.stream_name(), b"a-very-long-stre".to_vec());
}

#[test]
fn stream_name_strips_zero_bytes() {
    let header = Header::new(b"Mic");
    assert_eq!(header.stream_name(), b"Mic".to_vec());
}

#[test]
fn missing_magic_number_is_rejected() {
    let mut header = Header::new(b"Mic");
    header.set_frame_number(3);
    let mut bytes = header.encode();
    bytes[0] = 0x57;
    assert!(matches!(Header::decode(&bytes), Err(Error::MissingMagicNumber)));

    let zeros = [0u8; 64];
    assert!(matches!(Header::decode(&zeros), Err(Error::MissingMagicNumber)));
}

#[test]
fn reserved_bit_is_rejected() {
    let header = Header::new(b"Mic");
    let mut bytes = header.encode();
    bytes[7] |= 0x08;
    assert!(matches!(Header::decode(&bytes), Err(Error::MalformedFormat)));
}

#[test]
fn decode_reconstructs_packed_fields() {
    let mut bytes = vec![0x56, 0x42, 0x41, 0x4E];
    bytes.push(0x23); // Serial sub-protocol, sample rate index 3
    bytes.push(0x7F); // samples per frame minus one
    bytes.push(0x05); // channels minus one
    bytes.push(0x12); // VBCA codec, signed 24 bit
    bytes.extend_from_slice(b"abc");
    bytes.extend_from_slice(&[0u8; 13]);
    bytes.extend_from_slice(&[0x01, 0x02, 0x03, 0x04]);
    let decoded = Header::decode(&bytes).expect("a well-formed header must decode");
    assert!(matches!(decoded.sample_rate(), SampleRate::Hz48000));
    assert!(matches!(decoded.sub_protocol(), SubProtocol::Serial));
    assert_eq!(decoded.num_samples(), 0x7F);
    assert_eq!(decoded.num_channels(), 6);
    assert!(matches!(decoded.bit_resolution(), BitResolution::Signed24Bit));
    assert!(matches!(decoded.codec(), Codec::VBCA));
    assert_eq!(decoded.stream_name(), b"abc".to_vec());
    assert_eq!(decoded.frame_number(), 0x04030201);
}

#[test]
fn every_field_bit_pattern_decodes() {
    // every value of the packed rate/sub-protocol and format/codec bytes
    // decodes, except those with the reserved bit set
    for b4 in 0..=255u8 {
        let mut bytes = vec![0x56, 0x42, 0x41, 0x4E, b4, 0, 0, 0];
        bytes.extend_from_slice(&[0u8; 20]);
        assert!(Header::decode(&bytes).is_ok());
    }
    for b7 in 0..=255u8 {
        let mut bytes = vec![0x56, 0x42, 0x41, 0x4E, 0, 0, 0, b7];
        bytes.extend_from_slice(&[0u8; 20]);
        let r = Header::decode(&bytes);
        if b7 & 0x08 != 0 {
            assert!(matches!(r, Err(Error::MalformedFormat)));
        } else {
            assert!(r.is_ok());
        }
    }
}

#[test]
fn field_enums_round_trip_on_wire_values() {
    for v in 0..=31u8 {
        assert_eq!(SampleRate::from_u8(v).to_u8(), v);
    }
    for v in 0..=7u8 {
        assert_eq!(BitResolution::from_u8(v).to_u8(), v);
    }
    for i in 0..=15u8 {
        let v = i << 4;
        assert_eq!(Codec::from_u8(v).to_u8(), v);
    }
    assert!(matches!(SampleRate::from_u8(3), SampleRate::Hz48000));
    assert!(matches!(SampleRate::from_u8(25), SampleRate::Undefined5));
    assert!(matches!(SubProtocol::from_u8(0x00), SubProtocol::Audio));
    assert!(matches!(SubProtocol::from_u8(0xE0), SubProtocol::User));
}
