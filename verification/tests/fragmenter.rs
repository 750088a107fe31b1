use rusty_vban::fragment::{chunk_len, chunks_amount, make_frames};
use rusty_vban::header::Header;

#[test]
fn chunk_arithmetic_examples() {
    assert_eq!(chunks_amount(1), 1);
    assert_eq!(chunks_amount(255), 1);
    assert_eq!(chunks_amount(256), 1);
    assert_eq!(chunks_amount(257), 2);
    assert_eq!(chunks_amount(512), 2);
    assert_eq!(chunks_amount(700), 3);
    assert_eq!(chunk_len(256), 256);
    assert_eq!(chunk_len(257), 128);
    assert_eq!(chunk_len(512), 256);
    assert_eq!(chunk_len(700), 233);
}

#[test]
fn fragmentation_conservation() {
    // 700 samples over 2 channels: 3 chunks of 233 samples; 699 samples
    // are emitted and the trailing sample is dropped
    let samples = vec![1i16; 700];
    let mut header = Header::new(b"Mic");
    let mut frame_count: u32 = 0;
    let frames = make_frames(&samples, &mut header, &mut frame_count);
    assert_eq!(frames.len(), 3);
    let mut emitted = 0;
    for frame in &frames {
        assert_eq!(frame.len(), 28 + 2 * 233);
        emitted += (frame.len() - 28) / 2;
    }
    assert_eq!(emitted, 699);
    assert_eq!(frame_count, 3);
}

#[test]
fn frames_carry_consecutive_numbers_and_the_frame_field() {
    let samples = vec![0i16; 700];
    let mut header = Header::new(b"Mic");
    let mut frame_count: u32 = 40;
    let frames = make_frames(&samples, &mut header, &mut frame_count);
    assert_eq!(frames.len(), 3);
    for (i, frame) in frames.iter().enumerate() {
        // samples per frame minus one: 233 / 2 - 1 = 115
        assert_eq!(frame[5], 115);
        let fc = u32::from_le_bytes([frame[24], frame[25], frame[26], frame[27]]);
        assert_eq!(fc, 40 + i as u32);
    }
    assert_eq!(frame_count, 43);
}

#[test]
fn payload_is_little_endian_pcm() {
    let samples: Vec<i16> = vec![1, -1, 258, -2];
    let mut header = Header::new(b"Mic");
    let mut frame_count: u32 = 0;
    let frames = make_frames(&samples, &mut header, &mut frame_count);
    assert_eq!(frames.len(), 1);
    let payload = &frames[0][28..];
    assert_eq!(payload, &[0x01, 0x00, 0xFF, 0xFF, 0x02, 0x01, 0xFE, 0xFF]);
}

#[test]
fn frame_counter_wraps() {
    let samples = vec![0i16; 4];
    let mut header = Header::new(b"Mic");
    let mut frame_count: u32 = u32::MAX;
    let frames = make_frames(&samples, &mut header, &mut frame_count);
    assert_eq!(frames.len(), 1);
    let fc = u32::from_le_bytes([frames[0][24], frames[0][25], frames[0][26], frames[0][27]]);
    assert_eq!(fc, u32::MAX);
    assert_eq!(frame_count, 0);
}

#[test]
fn single_chunk_buffer_is_sent_whole() {
    let samples: Vec<i16> = (0..256).map(|v| v as i16).collect();
    let mut header = Header::new(b"Mic");
    let mut frame_count: u32 = 0;
    let frames = make_frames(&samples, &mut header, &mut frame_count);
    assert_eq!(frames.len(), 1);
    assert_eq!(frames[0].len(), 28 + 512);
    // 256 samples over 2 channels: the wire field holds 128 - 1
    assert_eq!(frames[0][5], 127);
}
