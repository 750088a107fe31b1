use rusty_vban::jitter::{start_buffer, JitterBuffer};

#[test]
fn initial_buffer_plays_silence() {
    // 16 ms at 48 kHz over 2 channels: 768 frames, 1536 silent samples
    let mut jb = start_buffer(16, 48000, 2);
    for _ in 0..1536 {
        assert_eq!(jb.pop_or_silence(), 0);
    }
    // drained: pops still return silence and never block or fail
    assert_eq!(jb.pop(), None);
    assert_eq!(jb.pop_or_silence(), 0);
    assert_eq!(jb.pop_or_silence(), 0);
}

#[test]
fn push_and_pop_are_fifo() {
    let mut jb = JitterBuffer::new(4);
    // construction preloads 4 silent samples into a queue of capacity 8
    for _ in 0..4 {
        assert_eq!(jb.pop_or_silence(), 0);
    }
    assert!(jb.push(10));
    assert!(jb.push(-20));
    assert!(jb.push(30));
    assert_eq!(jb.pop(), Some(10));
    assert_eq!(jb.pop(), Some(-20));
    assert_eq!(jb.pop(), Some(30));
    assert_eq!(jb.pop(), None);
}

#[test]
fn a_full_buffer_drops_pushed_samples() {
    let mut jb = JitterBuffer::new(2);
    // 2 preloaded samples, capacity 4: room for two more
    assert!(jb.push(1));
    assert!(jb.push(2));
    assert!(!jb.push(3));
    assert_eq!(jb.pop(), Some(0));
    assert_eq!(jb.pop(), Some(0));
    assert_eq!(jb.pop(), Some(1));
    assert_eq!(jb.pop(), Some(2));
    assert_eq!(jb.pop(), None);
}

#[test]
fn push_payload_decodes_little_endian_pairs() {
    let mut jb = JitterBuffer::new(4);
    for _ in 0..4 {
        jb.pop_or_silence();
    }
    jb.push_payload(&[0x01, 0x00, 0xFF, 0xFF, 0x02, 0x01]);
    assert_eq!(jb.pop(), Some(1));
    assert_eq!(jb.pop(), Some(-1));
    assert_eq!(jb.pop(), Some(258));
    assert_eq!(jb.pop(), None);
}

#[test]
fn push_payload_ignores_a_trailing_odd_byte() {
    let mut jb = JitterBuffer::new(4);
    for _ in 0..4 {
        jb.pop_or_silence();
    }
    jb.push_payload(&[0x05, 0x00, 0x07]);
    assert_eq!(jb.pop(), Some(5));
    assert_eq!(jb.pop(), None);
}

#[test]
fn push_payload_drops_samples_beyond_capacity() {
    let mut jb = JitterBuffer::new(1);
    // 1 preloaded sample, capacity 2: one free slot
    jb.push_payload(&[0x01, 0x00, 0x02, 0x00, 0x03, 0x00]);
    assert_eq!(jb.pop(), Some(0));
    assert_eq!(jb.pop(), Some(1));
    assert_eq!(jb.pop(), None);
}

#[test]
fn latency_is_rounded_before_scaling_by_channels() {
    // 7 ms at 44100 Hz: 308.7 frames, rounded to 309, times 2 channels
    let mut jb = start_buffer(7, 44100, 2);
    let mut count = 0;
    while jb.pop().is_some() {
        count += 1;
    }
    assert_eq!(count, 618);
}
