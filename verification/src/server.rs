//! The server's per-connection logic. Each accepted connection runs its own
//! loop: one read yields one frame, the frame is decoded, its content is
//! stored under the fixed prefix, analyzed, and answered with one formatted
//! line. The sockets and the filesystem stay outside; this module computes,
//! from the bytes of one read, everything the loop needs — the storage name,
//! the content to persist and the response to write — and decides how the
//! loop goes on.

use crate::analysis;
use crate::analysis::{line_count_spec, word_count_spec, AnalysisResult};
use crate::codec;
use crate::codec::{decode_spec, DecodingError};
use crate::words::string_push;
use vstd::prelude::*;
use vstd::string::StringExecFns;
use vstd::utf8::encode_utf8;

verus! {

/// The decimal digit character for a value below ten.
pub open spec fn digit_char(d: nat) -> char {
    ((48 + d) as u8) as char
}

/// The decimal digits of a number, most significant first, without leading
/// zeros (a zero is the single digit `0`).
pub open spec fn dec_digits(n: nat) -> Seq<char>
    decreases n,
{
    if n < 10 {
        seq![digit_char(n)]
    } else {
        dec_digits(n / 10) + seq![digit_char(n % 10)]
    }
}

/// The decimal digit character of `d`.
fn digit(d: u32) -> (c: char)
    requires
        d < 10,
    ensures
        c == digit_char(d as nat),
{
    ((48 + d) as u8) as char
}

/// Writes a number in decimal.
pub fn u32_to_string(n: u32) -> (r: String)
    ensures
        r@ == dec_digits(n as nat),
    decreases n,
{
    if n < 10 {
        let mut s = String::new();
        string_push(&mut s, digit(n));
        proof {
            assert(Seq::<char>::empty().push(digit_char(n as nat)) =~= seq![digit_char(n as nat)]);
        }
        s
    } else {
        let mut s = u32_to_string(n / 10);
        string_push(&mut s, digit(n % 10));
        proof {
            assert(dec_digits((n / 10) as nat).push(digit_char((n % 10) as nat)) =~= dec_digits(
                (n / 10) as nat,
            ) + seq![digit_char((n % 10) as nat)]);
        }
        s
    }
}

/// The response line for a filename and its metrics.
pub open spec fn response_spec(name: Seq<char>, lines: nat, words: nat, chars: nat) -> Seq<char> {
    "Filename: "@ + name + ". Lines: "@ + dec_digits(lines) + ", words: "@ + dec_digits(words)
        + ", characters: "@ + dec_digits(chars) + "\n"@
}

/// Formats the server's response: the filename and its metrics in one
/// newline-terminated line.
pub fn response_line(filename: &str, result: AnalysisResult) -> (r: String)
    ensures
        r@ == response_spec(
            filename@,
            result.line_count as nat,
            result.word_count as nat,
            result.char_count as nat,
        ),
{
    let mut r = String::from_str("Filename: ");
    r.append(filename);
    r.append(". Lines: ");
    let lines = u32_to_string(result.line_count);
    r.append(lines.as_str());
    r.append(", words: ");
    let words = u32_to_string(result.word_count);
    r.append(words.as_str());
    r.append(", characters: ");
    let chars = u32_to_string(result.char_count);
    r.append(chars.as_str());
    r.append("\n");
    r
}

/// The name under which a received file is stored: the fixed prefix, then
/// the filename as the client sent it.
pub fn storage_name(filename: &str) -> (r: String)
    ensures
        r@ == "saved_"@ + filename@,
{
    let mut r = String::from_str("saved_");
    r.append(filename);
    r
}

/// Everything the connection loop needs about one received frame: the
/// filename, the name to store the content under, the content itself, and
/// the response to send back.
#[derive(Debug)]
pub struct ServedFrame {
    pub filename: String,
    pub storage_name: String,
    pub content: Vec<u8>,
    pub response: String,
}

/// Decodes one received frame and computes the server's whole reaction to
/// it: the storage name, the content to persist, and the response line.
/// Fails exactly where decoding fails.
pub fn handle_frame(buffer: &[u8], received: usize) -> (r: Result<ServedFrame, DecodingError>)
    requires
        received <= buffer@.len(),
        received <= u32::MAX,
    ensures
        match r {
            Ok(f) => {
                &&& decode_spec(buffer@, received as int) == Ok::<_, DecodingError>(
                    (encode_utf8(f.filename@), f.content@),
                )
                &&& f.storage_name@ == "saved_"@ + f.filename@
                &&& f.response@ == response_spec(
                    f.filename@,
                    line_count_spec(f.content@),
                    word_count_spec(f.content@),
                    f.content@.len(),
                )
            },
            Err(e) => decode_spec(buffer@, received as int) == Err::<(Seq<u8>, Seq<u8>), _>(e),
        },
{
    match codec::decode(buffer, received) {
        Err(e) => Err(e),
        Ok((filename, content)) => {
            let result = analysis::analyze(content.as_slice());
            let response = response_line(filename.as_str(), result);
            let storage = storage_name(filename.as_str());
            Ok(ServedFrame { filename, storage_name: storage, content, response })
        },
    }
}

/// Where one connection's loop stands.
#[derive(Debug, Clone, Copy, PartialEq, Eq, Structural)]
pub enum ConnState {
    /// Waiting for the next frame on this connection.
    Receiving,
    /// The peer closed cleanly; the loop is over.
    Closed,
    /// An error ended this connection; the listener goes on.
    Aborted,
}

/// What one pass of the connection loop reports.
#[derive(Debug, Clone, Copy, PartialEq, Eq, Structural)]
pub enum ConnEvent {
    /// The read returned zero bytes: the peer closed cleanly.
    PeerClosed,
    /// The read failed.
    ReadFailed,
    /// The received bytes were not a decodable frame.
    FrameInvalid,
    /// Storing the content failed.
    PersistFailed,
    /// Writing the response failed.
    RespondFailed,
    /// The frame was stored and answered.
    Responded,
}

/// The transition of one connection on one event.
pub open spec fn conn_step_spec(state: ConnState, event: ConnEvent) -> ConnState {
    match state {
        ConnState::Receiving => match event {
            ConnEvent::PeerClosed => ConnState::Closed,
            ConnEvent::Responded => ConnState::Receiving,
            _ => ConnState::Aborted,
        },
        ConnState::Closed => ConnState::Closed,
        ConnState::Aborted => ConnState::Aborted,
    }
}

/// Advances one connection by one event.
pub fn conn_step(state: ConnState, event: ConnEvent) -> (r: ConnState)
    ensures
        r == conn_step_spec(state, event),
{
    match state {
        ConnState::Receiving => match event {
            ConnEvent::PeerClosed => ConnState::Closed,
            ConnEvent::Responded => ConnState::Receiving,
            _ => ConnState::Aborted,
        },
        ConnState::Closed => ConnState::Closed,
        ConnState::Aborted => ConnState::Aborted,
    }
}

/// A connection keeps receiving exactly as long as frames are answered: a
/// clean close ends it, every error aborts it and only it, and an ended
/// connection stays ended.
pub proof fn lemma_connection_isolation()
    ensures
        conn_step_spec(ConnState::Receiving, ConnEvent::Responded) == ConnState::Receiving,
        conn_step_spec(ConnState::Receiving, ConnEvent::PeerClosed) == ConnState::Closed,
        forall|e: ConnEvent|
            e != ConnEvent::Responded && e != ConnEvent::PeerClosed ==> #[trigger] conn_step_spec(
                ConnState::Receiving,
                e,
            ) == ConnState::Aborted,
        forall|e: ConnEvent| #[trigger] conn_step_spec(ConnState::Closed, e) == ConnState::Closed,
        forall|e: ConnEvent| #[trigger] conn_step_spec(ConnState::Aborted, e) == ConnState::Aborted,
{
}

} // verus!
