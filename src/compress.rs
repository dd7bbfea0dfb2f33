//! Optional compression of stored values: a snappy frame stream, written as
//! base64 text.

use vstd::prelude::*;
use vstd::utf8::{decode_utf8, encode_utf8, encode_utf8_decode_utf8, encode_utf8_valid_utf8, valid_utf8};
use crate::error::{Error, ErrorKind, Result};
use crate::strings::owned;

verus! {

/// The snappy frame stream that `snap`'s frame encoder writes for `data`.
pub uninterp spec fn snappy_framed(data: Seq<u8>) -> Seq<u8>;

/// What `snap`'s frame decoder reads from `data`: `None` when it is not a
/// valid frame stream.
pub uninterp spec fn snappy_unframed(data: Seq<u8>) -> Option<Seq<u8>>;

/// The bytes that a standard base64 text denotes: `None` when it is not
/// valid base64.
pub uninterp spec fn base64_bytes(text: Seq<char>) -> Option<Seq<u8>>;

/// The digit of the standard base64 alphabet for a 6-bit value.
pub open spec fn base64_digit(v: nat) -> char {
    if v < 26 {
        (65 + v) as char
    } else if v < 52 {
        (71 + v) as char
    } else if v < 62 {
        (v - 4) as char
    } else if v == 62 {
        '+'
    } else {
        '/'
    }
}

/// The standard, padded base64 text of `data`: four digits for each three
/// bytes, the last group padded with `=`.
pub open spec fn base64_text(data: Seq<u8>) -> Seq<char>
    decreases data.len(),
{
    if data.len() == 0 {
        Seq::empty()
    } else if data.len() == 1 {
        let a = data[0] as nat;
        seq![base64_digit(a / 4), base64_digit((a % 4) * 16), '=', '=']
    } else if data.len() == 2 {
        let a = data[0] as nat;
        let b = data[1] as nat;
        seq![base64_digit(a / 4), base64_digit((a % 4) * 16 + b / 16), base64_digit((b % 16) * 4), '=']
    } else {
        let a = data[0] as nat;
        let b = data[1] as nat;
        let c = data[2] as nat;
        seq![
            base64_digit(a / 4),
            base64_digit((a % 4) * 16 + b / 16),
            base64_digit((b % 16) * 4 + c / 64),
            base64_digit(c % 64),
        ] + base64_text(data.subrange(3, data.len() as int))
    }
}

/// The text that stored text `p` holds when it is compressed: `None` when it
/// is not base64 of a snappy frame stream of UTF-8 bytes.
pub open spec fn decompressed_text(p: Seq<char>) -> Option<Seq<char>> {
    match base64_bytes(p) {
        Some(framed) => match snappy_unframed(framed) {
            Some(bytes) => if valid_utf8(bytes) {
                Some(decode_utf8(bytes))
            } else {
                None
            },
            None => None,
        },
        None => None,
    }
}

/// Relies on `snap::write::FrameEncoder` writing into a `Vec`: the result
/// is the frame stream of `data`, which the frame decoder reads back as
/// `data`. Writing into a `Vec` never fails, so the error arm is not taken.
#[verifier::external_body]
fn snap_frame_encode(data: &[u8]) -> (r: Vec<u8>)
    ensures
        r@ == snappy_framed(data@),
        snappy_unframed(r@) == Some(data@),
{
    let mut encoder = snap::write::FrameEncoder::new(Vec::new());
    let written = std::io::Write::write_all(&mut encoder, data);
    match (written, encoder.into_inner()) {
        (Ok(()), Ok(framed)) => framed,
        _ => Vec::new(),
    }
}

/// Relies on `snap::read::FrameDecoder` read to its end with `io::copy`:
/// the decoded bytes, or `None` when `data` is not a valid frame stream.
#[verifier::external_body]
fn snap_frame_decode(data: &[u8]) -> (r: Option<Vec<u8>>)
    ensures
        r is Some <==> snappy_unframed(data@) is Some,
        r is Some ==> r->0@ == snappy_unframed(data@)->0,
{
    let mut decoder = snap::read::FrameDecoder::new(data);
    let mut out = Vec::new();
    match std::io::copy(&mut decoder, &mut out) {
        Ok(_) => Some(out),
        Err(_) => None,
    }
}

/// Relies on `base64::encode` (standard alphabet, padded), which panics only
/// when the length of its text overflows `usize`; `base64::decode` reads its
/// text back as `data`.
#[verifier::external_body]
fn base64_encode(data: &[u8]) -> (r: String)
    requires
        data@.len() <= usize::MAX / 2,
    ensures
        r@ == base64_text(data@),
        base64_bytes(r@) == Some(data@),
{
    base64::encode(data)
}

/// Relies on `base64::decode` (standard alphabet), which panics only when
/// the length of its input plus 3 overflows `usize`.
#[verifier::external_body]
fn base64_decode(text: &str) -> (r: Option<Vec<u8>>)
    requires
        encode_utf8(text@).len() + 3 <= usize::MAX,
    ensures
        r is Some <==> base64_bytes(text@) is Some,
        r is Some ==> r->0@ == base64_bytes(text@)->0,
{
    base64::decode(text).ok()
}

/// Relies on `String::from_utf8`: the text of `bytes` when they are valid
/// UTF-8.
#[verifier::external_body]
fn string_from_utf8(bytes: Vec<u8>) -> (r: Option<String>)
    ensures
        r is Some <==> valid_utf8(bytes@),
        r is Some ==> r->0@ == decode_utf8(bytes@),
{
    String::from_utf8(bytes).ok()
}

/// The text stored for value `s`: itself when compression is off, else the
/// base64 text of its snappy frame stream, which decompresses back to `s`.
/// A frame stream too long for its base64 text to fit in memory is a
/// Runtime error.
pub fn maybe_compress(s: String, compress: bool) -> (r: Result<String>)
    ensures
        !compress ==> r is Ok && r->Ok_0@ == s@,
        compress ==> (r is Ok <==> snappy_framed(encode_utf8(s@)).len() <= usize::MAX / 2),
        compress && r is Ok ==> r->Ok_0@ == base64_text(snappy_framed(encode_utf8(s@)))
            && decompressed_text(r->Ok_0@) == Some(s@),
        r is Err ==> r->Err_0.kind() == ErrorKind::Runtime,
{
    if !compress {
        return Ok(s);
    }
    let bytes = s.as_str().as_bytes();
    let framed = snap_frame_encode(bytes);
    if framed.len() > usize::MAX / 2 {
        return Err(Error::Runtime(owned("the compressed value is too long")));
    }
    let text = base64_encode(framed.as_slice());
    proof {
        encode_utf8_valid_utf8(s@);
        encode_utf8_decode_utf8(s@);
    }
    Ok(text)
}

/// The value of stored text `s`: itself when compression is off, else the
/// text that its base64 snappy frame stream holds. Text that is not base64,
/// not a frame stream, or not UTF-8 once decoded is a Runtime error.
pub fn maybe_decompress(s: String, compress: bool) -> (r: Result<String>)
    ensures
        !compress ==> r is Ok && r->Ok_0@ == s@,
        compress && r is Ok ==> decompressed_text(s@) == Some(r->Ok_0@),
        compress && encode_utf8(s@).len() + 3 <= usize::MAX ==> (r is Ok <==> decompressed_text(s@) is Some),
        r is Err ==> r->Err_0.kind() == ErrorKind::Runtime,
{
    if !compress {
        return Ok(s);
    }
    let text = s.as_str();
    if text.as_bytes().len() > usize::MAX - 3 {
        return Err(Error::Runtime(owned("the stored value is too long")));
    }
    let compressed = match base64_decode(text) {
        Some(b) => b,
        None => {
            return Err(Error::Runtime(owned("the stored value is not base64")));
        },
    };
    let decompressed = match snap_frame_decode(compressed.as_slice()) {
        Some(b) => b,
        None => {
            return Err(Error::Runtime(owned("the stored value is not a snappy frame stream")));
        },
    };
    match string_from_utf8(decompressed) {
        Some(t) => Ok(t),
        None => Err(Error::Runtime(owned("the stored value is not UTF-8 text"))),
    }
}

} // verus!
