use bellovin_merritt::framing::{decode_frame, decode_length, encode_frame, encode_length, FrameError};

#[test]
fn length_encoding_is_big_endian() {
    assert_eq!(encode_length(0), vec![0, 0, 0, 0, 0, 0, 0, 0]);
    assert_eq!(encode_length(1), vec![0, 0, 0, 0, 0, 0, 0, 1]);
    assert_eq!(encode_length(0x0102030405060708), vec![1, 2, 3, 4, 5, 6, 7, 8]);
    assert_eq!(encode_length(u64::MAX), vec![255; 8]);
}

#[test]
fn length_round_trips() {
    for n in [0u64, 1, 7, 255, 256, 65535, 1 << 32, u64::MAX] {
        assert_eq!(decode_length(&encode_length(n)), n);
    }
}

#[test]
fn frame_prefixes_the_length() {
    let frame = encode_frame(&[9, 8, 7]);
    assert_eq!(frame, vec![0, 0, 0, 0, 0, 0, 0, 3, 9, 8, 7]);
}

#[test]
fn frame_round_trips() {
    for payload in [vec![], vec![42], vec![0; 100], (0..=255).collect::<Vec<u8>>()] {
        let mut buffer = encode_frame(&payload);
        buffer.extend_from_slice(&[1, 2, 3]);
        let (decoded, consumed) = decode_frame(&buffer, 1024).expect("frame should decode");
        assert_eq!(decoded, payload);
        assert_eq!(consumed, 8 + payload.len());
    }
}

#[test]
fn oversized_length_rejected_before_payload() {
    // The buffer holds nothing but the huge length prefix: rejection must not
    // depend on the payload being there at all.
    let header = encode_length(1 << 62);
    assert_eq!(decode_frame(&header, 1 << 20), Err(FrameError::Oversized));
}

#[test]
fn length_just_over_the_limit_rejected() {
    let mut buffer = encode_length(1025);
    buffer.extend_from_slice(&vec![0; 1025]);
    assert_eq!(decode_frame(&buffer, 1024), Err(FrameError::Oversized));
    let (payload, _) = decode_frame(&buffer, 1025).expect("at the limit it decodes");
    assert_eq!(payload.len(), 1025);
}

#[test]
fn short_buffer_rejected() {
    assert_eq!(decode_frame(&[0, 0, 0], 1024), Err(FrameError::Truncated));
    let mut buffer = encode_length(10);
    buffer.extend_from_slice(&[1, 2, 3]);
    assert_eq!(decode_frame(&buffer, 1024), Err(FrameError::Truncated));
}
