//! The wire frame: a one-byte filename length, the filename bytes, and the
//! file content bytes, with no delimiter and no content-length field. The
//! boundary between filename and content is purely positional, recovered
//! from the length prefix; the content's end is the end of the bytes
//! received in one read. A frame must therefore fit in one transmission
//! unit: a frame split across reads cannot be reassembled.

use vstd::prelude::*;
use vstd::utf8::{decode_utf8, encode_utf8, valid_utf8};
use vstd::slice::{slice_subrange, slice_to_vec};

verus! {

/// Why a frame could not be encoded.
#[derive(Debug, Clone, Copy, PartialEq, Eq, Structural)]
pub enum EncodingError {
    /// The filename does not fit the one-byte length prefix.
    FilenameTooLong,
}

/// Why a received buffer could not be decoded as a frame.
#[derive(Debug, Clone, Copy, PartialEq, Eq, Structural)]
pub enum DecodingError {
    /// Fewer bytes were received than the length prefix announces.
    Truncated,
    /// The filename bytes are not valid UTF-8 text.
    InvalidEncoding,
}

/// The bytes of a frame for a filename and a content.
pub open spec fn encode_spec(name: Seq<u8>, content: Seq<u8>) -> Seq<u8>
    recommends
        name.len() <= 255,
{
    seq![name.len() as u8] + name + content
}

/// What decoding the first `received` bytes of a buffer yields: the filename
/// bytes and the content bytes, or the error.
pub open spec fn decode_spec(buffer: Seq<u8>, received: int) -> Result<(Seq<u8>, Seq<u8>), DecodingError>
    recommends
        received <= buffer.len(),
{
    if received < 1 {
        Err(DecodingError::Truncated)
    } else {
        let len = buffer[0] as int;
        if received < 1 + len {
            Err(DecodingError::Truncated)
        } else if !valid_utf8(buffer.subrange(1, 1 + len)) {
            Err(DecodingError::InvalidEncoding)
        } else {
            Ok((buffer.subrange(1, 1 + len), buffer.subrange(1 + len, received)))
        }
    }
}

/// Relies on std::str::from_utf8: it returns Ok exactly on valid UTF-8, and
/// the returned text consists of those bytes.
#[verifier::external_body]
fn utf8_to_string(bytes: &[u8]) -> (r: Option<String>)
    ensures
        r is Some <==> valid_utf8(bytes@),
        r matches Some(s) ==> encode_utf8(s@) == bytes@,
{
    match std::str::from_utf8(bytes) {
        Ok(s) => Some(s.to_string()),
        Err(_) => None,
    }
}

/// Appends all of `src` to `dst`.
fn push_bytes(dst: &mut Vec<u8>, src: &[u8])
    ensures
        final(dst)@ == old(dst)@ + src@,
{
    let n = src.len();
    let mut i: usize = 0;
    while i < n
        invariant
            n == src@.len(),
            0 <= i <= n,
            dst@ == old(dst)@ + src@.take(i as int),
        decreases n - i,
    {
        dst.push(src[i]);
        proof {
            assert(old(dst)@ + src@.take(i + 1) =~= (old(dst)@ + src@.take(i as int)).push(
                src@[i as int],
            ));
        }
        i = i + 1;
    }
    proof {
        assert(src@.take(n as int) =~= src@);
    }
}

/// Encodes a filename and a content as one frame. The filename must fit the
/// one-byte length prefix; nothing is asked of the content.
pub fn encode(filename: &str, content: &[u8]) -> (r: Result<Vec<u8>, EncodingError>)
    ensures
        encode_utf8(filename@).len() > 255 <==> r == Err::<Vec<u8>, EncodingError>(
            EncodingError::FilenameTooLong,
        ),
        r matches Ok(frame) ==> frame@ == encode_spec(encode_utf8(filename@), content@),
{
    let name_bytes = filename.as_bytes();
    if name_bytes.len() > 255 {
        return Err(EncodingError::FilenameTooLong);
    }
    let mut frame: Vec<u8> = Vec::new();
    frame.push(name_bytes.len() as u8);
    proof {
        assert(frame@ =~= seq![encode_utf8(filename@).len() as u8]);
    }
    push_bytes(&mut frame, name_bytes);
    push_bytes(&mut frame, content);
    Ok(frame)
}

/// Decodes the first `received` bytes of a buffer as a frame, yielding the
/// filename and the raw content bytes. Fails with `Truncated` when the
/// buffer holds fewer bytes than the length prefix announces, and with
/// `InvalidEncoding` when the filename bytes are not text.
pub fn decode(buffer: &[u8], received: usize) -> (r: Result<(String, Vec<u8>), DecodingError>)
    requires
        received <= buffer@.len(),
    ensures
        match r {
            Ok((name, content)) => decode_spec(buffer@, received as int) == Ok::<_, DecodingError>(
                (encode_utf8(name@), content@),
            ) && name@ == decode_utf8(encode_utf8(name@)),
            Err(e) => decode_spec(buffer@, received as int) == Err::<(Seq<u8>, Seq<u8>), _>(e),
        },
{
    if received < 1 {
        return Err(DecodingError::Truncated);
    }
    let len = buffer[0] as usize;
    if received < 1 + len {
        return Err(DecodingError::Truncated);
    }
    let name_bytes = slice_subrange(buffer, 1, 1 + len);
    match utf8_to_string(name_bytes) {
        None => Err(DecodingError::InvalidEncoding),
        Some(name) => {
            proof {
                vstd::utf8::encode_utf8_decode_utf8(name@);
            }
            let content = slice_to_vec(slice_subrange(buffer, 1 + len, received));
            Ok((name, content))
        },
    }
}

/// The round-trip law: a decode of an encoded frame, taken whole as one
/// transmission unit, gives back the filename bytes and the content. The
/// filename must fit the length prefix and must be text, as every encoded
/// filename is.
pub proof fn lemma_encode_decode_round_trip(name: Seq<u8>, content: Seq<u8>)
    requires
        name.len() <= 255,
        valid_utf8(name),
    ensures
        decode_spec(encode_spec(name, content), encode_spec(name, content).len() as int) == Ok::<
            _,
            DecodingError,
        >((name, content)),
{
    let frame = encode_spec(name, content);
    assert(frame[0] == name.len() as u8);
    assert(frame.subrange(1, 1 + name.len() as int) =~= name);
    assert(frame.subrange(1 + name.len() as int, frame.len() as int) =~= content);
}

} // verus!
