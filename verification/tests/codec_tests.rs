use textframe::codec::{decode, encode, DecodingError, EncodingError};

#[test]
fn encode_lays_out_the_frame() {
    let frame = encode("ab", b"xyz").unwrap();
    assert_eq!(frame, vec![2, b'a', b'b', b'x', b'y', b'z']);
}

#[test]
fn encode_accepts_empty_content() {
    let frame = encode("ab", b"").unwrap();
    assert_eq!(frame, vec![2, b'a', b'b']);
}

#[test]
fn encode_rejects_long_filename() {
    let name = "n".repeat(256);
    assert_eq!(encode(&name, b"data"), Err(EncodingError::FilenameTooLong));
    let name = "n".repeat(255);
    assert!(encode(&name, b"data").is_ok());
}

#[test]
fn decode_inverts_encode() {
    let frame = encode("file1.txt", b"Hello, World!").unwrap();
    let (name, content) = decode(&frame, frame.len()).unwrap();
    assert_eq!(name, "file1.txt");
    assert_eq!(content, b"Hello, World!");
}

#[test]
fn decode_splits_at_the_length_prefix() {
    let buffer = [3, b'a', b'b', b'c', b'1', b'2'];
    let (name, content) = decode(&buffer, buffer.len()).unwrap();
    assert_eq!(name, "abc");
    assert_eq!(content, b"12");
}

#[test]
fn decode_ignores_bytes_past_received() {
    let buffer = [1, b'a', b'x', b'y'];
    let (name, content) = decode(&buffer, 3).unwrap();
    assert_eq!(name, "a");
    assert_eq!(content, b"x");
}

#[test]
fn empty_filename_round_trips() {
    let frame = encode("", b"data").unwrap();
    assert_eq!(frame, vec![0, b'd', b'a', b't', b'a']);
    let (name, content) = decode(&frame, frame.len()).unwrap();
    assert_eq!(name, "");
    assert_eq!(content, b"data");
}

#[test]
fn decode_rejects_truncated_frames() {
    let buffer = [5, b'a', b'b'];
    assert_eq!(decode(&buffer, buffer.len()), Err(DecodingError::Truncated));
    assert_eq!(decode(&buffer, 0), Err(DecodingError::Truncated));
}

#[test]
fn decode_rejects_non_text_filenames() {
    let buffer = [2, 0xff, 0xfe, b'x'];
    assert_eq!(decode(&buffer, buffer.len()), Err(DecodingError::InvalidEncoding));
}
