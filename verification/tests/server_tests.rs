use textframe::codec::{encode, DecodingError};
use textframe::server::{
    conn_step, handle_frame, response_line, storage_name, u32_to_string, ConnEvent, ConnState,
};
use textframe::analysis::analyze;

#[test]
fn numbers_are_written_in_decimal() {
    assert_eq!(u32_to_string(0), "0");
    assert_eq!(u32_to_string(7), "7");
    assert_eq!(u32_to_string(1234), "1234");
    assert_eq!(u32_to_string(4294967295), "4294967295");
}

#[test]
fn response_line_formats_the_metrics() {
    let r = analyze(b"Hello, World!");
    assert_eq!(
        response_line("file1.txt", r),
        "Filename: file1.txt. Lines: 1, words: 2, characters: 13\n"
    );
}

#[test]
fn storage_name_prefixes_the_filename() {
    assert_eq!(storage_name("file1.txt"), "saved_file1.txt");
}

#[test]
fn handle_frame_answers_one_frame() {
    let frame = encode("file1.txt", b"Hello, World!").unwrap();
    let mut buffer = [0u8; 2048];
    buffer[..frame.len()].copy_from_slice(&frame);
    let served = handle_frame(&buffer, frame.len()).unwrap();
    assert_eq!(served.filename, "file1.txt");
    assert_eq!(served.storage_name, "saved_file1.txt");
    assert_eq!(served.content, b"Hello, World!");
    assert_eq!(
        served.response,
        "Filename: file1.txt. Lines: 1, words: 2, characters: 13\n"
    );
}

#[test]
fn handle_frame_counts_lines_of_multiline_content() {
    let frame = encode("log.txt", b"line1\nline2\n").unwrap();
    let served = handle_frame(&frame, frame.len()).unwrap();
    assert_eq!(
        served.response,
        "Filename: log.txt. Lines: 3, words: 2, characters: 12\n"
    );
}

#[test]
fn handle_frame_reports_decoding_errors() {
    let buffer = [200u8, b'a', b'b'];
    assert_eq!(handle_frame(&buffer, buffer.len()).unwrap_err(), DecodingError::Truncated);
    let buffer = [1u8, 0xff];
    assert_eq!(handle_frame(&buffer, buffer.len()).unwrap_err(), DecodingError::InvalidEncoding);
}

#[test]
fn connection_loops_until_closed_or_aborted() {
    assert_eq!(conn_step(ConnState::Receiving, ConnEvent::Responded), ConnState::Receiving);
    assert_eq!(conn_step(ConnState::Receiving, ConnEvent::PeerClosed), ConnState::Closed);
    assert_eq!(conn_step(ConnState::Receiving, ConnEvent::FrameInvalid), ConnState::Aborted);
    assert_eq!(conn_step(ConnState::Receiving, ConnEvent::PersistFailed), ConnState::Aborted);
    assert_eq!(conn_step(ConnState::Receiving, ConnEvent::RespondFailed), ConnState::Aborted);
    assert_eq!(conn_step(ConnState::Receiving, ConnEvent::ReadFailed), ConnState::Aborted);
    assert_eq!(conn_step(ConnState::Aborted, ConnEvent::Responded), ConnState::Aborted);
    assert_eq!(conn_step(ConnState::Closed, ConnEvent::Responded), ConnState::Closed);
}
