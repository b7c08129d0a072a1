use tcan455x::{DriverError, TCAN455xController};

fn parse_write_frame(frame: &[u8]) -> (u16, Vec<u32>) {
    let addr = ((frame[1] as u16) << 8) | frame[2] as u16;
    let count = frame[3] as usize;
    let mut words = Vec::new();
    for k in 0..count {
        let b = &frame[4 + 4 * k..8 + 4 * k];
        words.push(u32::from_be_bytes([b[0], b[1], b[2], b[3]]));
    }
    (addr, words)
}

#[test]
fn write_command_bytes() {
    let frame = TCAN455xController::generate_write_command(0x1018, &vec![0x0000_0303]);
    assert_eq!(frame, vec![0x61, 0x10, 0x18, 0x01, 0x00, 0x00, 0x03, 0x03]);
}

#[test]
fn write_command_two_words_big_endian() {
    let frame = TCAN455xController::generate_write_command(0x8000, &vec![0x1234_5678, 0xA1B2_C3D4]);
    assert_eq!(
        frame,
        vec![0x61, 0x80, 0x00, 0x02, 0x12, 0x34, 0x56, 0x78, 0xA1, 0xB2, 0xC3, 0xD4]
    );
}

#[test]
fn write_command_round_trip() {
    for n in [0usize, 1, 2, 17, 255] {
        let words: Vec<u32> = (0..n as u32).map(|i| i.wrapping_mul(0x9E37_79B9) ^ 0xDEAD_BEEF).collect();
        let frame = TCAN455xController::generate_write_command(0xABCD, &words);
        assert_eq!(frame.len(), 4 + 4 * n);
        assert_eq!(frame[0], 0x61);
        let (addr, back) = parse_write_frame(&frame);
        assert_eq!(addr, 0xABCD);
        assert_eq!(back, words);
    }
}

#[test]
fn read_command_shape() {
    for n in [0u8, 1, 4, 255] {
        let frame = TCAN455xController::generate_read_command(0x10A4, n);
        assert_eq!(frame.len(), 4 + 4 * n as usize);
        assert_eq!(&frame[0..4], &[0x41, 0x10, 0xA4, n]);
        assert!(frame[4..].iter().all(|b| *b == 0));
    }
}

#[test]
fn decode_word_reads_after_header() {
    let raw = vec![0x41, 0x08, 0x20, 0x01, 0xDE, 0xAD, 0xBE, 0xEF];
    assert_eq!(TCAN455xController::decode_word(&raw), Ok(0xDEAD_BEEF));
}

#[test]
fn decode_word_short_reply() {
    let raw = vec![0x41, 0x08, 0x20, 0x01, 0xDE, 0xAD, 0xBE];
    assert_eq!(TCAN455xController::decode_word(&raw), Err(DriverError::InvalidData));
    assert_eq!(TCAN455xController::decode_word(&Vec::new()), Err(DriverError::InvalidData));
}
