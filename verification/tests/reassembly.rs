use drone_tracking::reassembly::{
    reassemble_stream, FrameReassembler, BUFFER_CAPACITY, CONTROL_FRAME_LEN, MAX_CHUNK_LEN,
};

fn pattern(len: usize, salt: u8) -> Vec<u8> {
    (0..len).map(|k| (k as u8).wrapping_mul(31).wrapping_add(salt)).collect()
}

#[test]
fn reassembly_constants() {
    assert_eq!(BUFFER_CAPACITY, 500_000);
    assert_eq!(CONTROL_FRAME_LEN, 106);
    assert_eq!(MAX_CHUNK_LEN, 8192);
}

#[test]
fn new_reassembler_is_empty() {
    let r = FrameReassembler::new();
    assert_eq!(r.len(), 0);
    assert!(!r.is_full());
    assert!(r.bytes().is_empty());
}

#[test]
fn chunk_of_control_frame_length_is_discarded() {
    let mut r = FrameReassembler::new();
    assert_eq!(r.accept(&pattern(10, 1)), 10);
    assert_eq!(r.accept(&pattern(106, 2)), 0);
    assert_eq!(r.len(), 10);
    assert_eq!(r.bytes(), &pattern(10, 1));
}

#[test]
fn chunks_next_to_the_control_frame_length_are_kept() {
    let mut r = FrameReassembler::new();
    assert_eq!(r.accept(&pattern(105, 1)), 105);
    assert_eq!(r.accept(&pattern(107, 2)), 107);
    assert_eq!(r.accept(&pattern(0, 3)), 0);
    assert_eq!(r.len(), 212);
    let mut expected = pattern(105, 1);
    expected.extend(pattern(107, 2));
    assert_eq!(r.bytes(), &expected);
}

#[test]
fn chunks_are_appended_in_order() {
    let mut r = FrameReassembler::new();
    let mut expected = Vec::new();
    for k in 0..20u8 {
        let chunk = pattern(100 + k as usize, k);
        let appended = r.accept(&chunk);
        if chunk.len() == 106 {
            assert_eq!(appended, 0);
        } else {
            assert_eq!(appended, chunk.len());
            expected.extend(chunk);
        }
    }
    assert_eq!(r.into_bytes(), expected);
}

#[test]
fn buffer_never_exceeds_its_capacity() {
    let mut r = FrameReassembler::new();
    let chunk = pattern(MAX_CHUNK_LEN, 7);
    let mut total = 0;
    for _ in 0..61 {
        total += r.accept(&chunk);
        assert!(r.len() <= BUFFER_CAPACITY);
    }
    // 61 chunks of 8192 bytes are 499712 bytes.
    assert_eq!(total, 499_712);
    assert!(!r.is_full());
    // The next chunk fits only in part: 288 bytes.
    assert_eq!(r.accept(&chunk), 288);
    assert!(r.is_full());
    assert_eq!(r.len(), 500_000);
    assert_eq!(&r.bytes()[499_712..], &chunk[..288]);
    // Once full, nothing more is taken.
    assert_eq!(r.accept(&chunk), 0);
    assert_eq!(r.accept(&[1, 2, 3]), 0);
    assert_eq!(r.len(), 500_000);
}

#[test]
fn one_huge_chunk_is_cut_at_the_capacity() {
    let mut r = FrameReassembler::new();
    let chunk = pattern(BUFFER_CAPACITY + 1_000, 9);
    assert_eq!(r.accept(&chunk), BUFFER_CAPACITY);
    assert!(r.is_full());
    assert_eq!(r.into_bytes(), chunk[..BUFFER_CAPACITY].to_vec());
}

#[test]
fn control_frames_leave_a_stream_unchanged() {
    let chunks: Vec<Vec<u8>> = vec![pattern(300, 1), pattern(8192, 2), pattern(5, 3)];
    let mut plain = FrameReassembler::new();
    for c in &chunks {
        plain.accept(c);
    }
    let mut interleaved = FrameReassembler::new();
    for c in &chunks {
        interleaved.accept(&pattern(106, 0xAA));
        interleaved.accept(c);
    }
    interleaved.accept(&pattern(106, 0xBB));
    assert_eq!(plain.into_bytes(), interleaved.into_bytes());
}

#[test]
fn recorded_stream_is_reassembled_without_its_control_frames() {
    let chunks = vec![pattern(300, 1), pattern(106, 2), pattern(0, 3), pattern(107, 4)];
    let mut expected = pattern(300, 1);
    expected.extend(pattern(107, 4));
    assert_eq!(reassemble_stream(&chunks), expected);
    assert_eq!(reassemble_stream(&Vec::new()), Vec::<u8>::new());
    assert_eq!(reassemble_stream(&vec![pattern(106, 9), pattern(106, 8)]), Vec::<u8>::new());
}

#[test]
fn recorded_stream_is_cut_at_the_capacity() {
    let mut chunks = Vec::new();
    let mut expected = Vec::new();
    for k in 0..80u8 {
        let chunk = pattern(8_000, k);
        expected.extend(chunk.iter().copied());
        chunks.push(chunk);
        chunks.push(pattern(106, k));
    }
    expected.truncate(BUFFER_CAPACITY);
    let bytes = reassemble_stream(&chunks);
    assert_eq!(bytes.len(), 500_000);
    assert_eq!(bytes, expected);
}
