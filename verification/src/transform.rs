//! The transforms between the binary payload and text.
//!
//! A payload is compressed with gzip and written in base64; the texts of a
//! blueprint are written with percent escapes. Other crates do these
//! transforms: `flate2`, `base64` and `urlencoding`. Nothing is proved of
//! them here. The functions of this module call them, and state what this
//! library takes to hold of them: their contracts are believed, not proved.

use base64::Engine;
use std::io::{Read, Write};
use vstd::prelude::*;
use vstd::utf8::encode_utf8;

verus! {

/// The bytes that a text stands for in base64, with the standard alphabet and
/// padding. A text that is not base64 stands for none.
///
/// This names what `decode` of the engine `STANDARD` of the crate `base64`
/// returns.
pub uninterp spec fn base64_decoded(text: Seq<char>) -> Option<Seq<u8>>;

/// The bytes that a gzip stream holds. Bytes that are no gzip stream hold
/// none.
///
/// This names what reading a `GzDecoder` of the crate `flate2` to its end
/// gives.
pub uninterp spec fn gunzipped(stream: Seq<u8>) -> Option<Seq<u8>>;

/// The gzip stream that compressing bytes at a level from 0 to 9 gives.
///
/// This names what a `GzEncoder` of the crate `flate2` has written when the
/// bytes were written to it and it was finished. The stream holds no time
/// and no name, so the same bytes at the same level give the same stream.
pub uninterp spec fn gzipped(raw: Seq<u8>, level: u32) -> Seq<u8>;

/// The text that a text with percent escapes stands for, where it stands for
/// one.
///
/// This names what `decode` of the crate `urlencoding` returns.
pub uninterp spec fn url_decoded(text: Seq<char>) -> Option<Seq<char>>;

/// Whether a character belongs to base64 text: a letter, a digit, `+`, `/`,
/// or the padding `=`.
pub open spec fn is_base64_char(c: char) -> bool {
    ||| 'A' <= c <= 'Z'
    ||| 'a' <= c <= 'z'
    ||| '0' <= c <= '9'
    ||| c == '+'
    ||| c == '/'
    ||| c == '='
}

/// Whether a byte is written as it is in a text with percent escapes: a
/// letter, a digit, `-`, `.`, `_` or `~`.
pub open spec fn is_unreserved(b: u8) -> bool {
    ||| 0x30 <= b <= 0x39
    ||| 0x41 <= b <= 0x5a
    ||| 0x61 <= b <= 0x7a
    ||| b == 0x2d
    ||| b == 0x2e
    ||| b == 0x5f
    ||| b == 0x7e
}

/// The hexadecimal digit of a number below sixteen, with capital letters.
pub open spec fn escape_digit(d: u8) -> char {
    if d < 10 {
        (d + 0x30) as char
    } else {
        (d + 0x37) as char
    }
}

/// Bytes as text with percent escapes: a byte that is not written as it is
/// becomes a percent sign and its two hexadecimal digits.
pub open spec fn percent_encoded(bytes: Seq<u8>) -> Seq<char>
    decreases bytes.len(),
{
    if bytes.len() == 0 {
        Seq::empty()
    } else {
        let b = bytes.last();
        percent_encoded(bytes.drop_last()) + if is_unreserved(b) {
            seq![b as char]
        } else {
            seq!['%', escape_digit(b / 16), escape_digit(b % 16)]
        }
    }
}

/// The longest input that can be written in base64: beyond it, the length
/// of the text would not fit the machine.
pub open spec fn base64_fits(len: nat) -> bool {
    len / 3 * 4 + 4 <= usize::MAX
}

/// Reads base64.
///
/// Calls `decode` of the engine `STANDARD` of the crate `base64`. The claim
/// is only that the result is the one that [`base64_decoded`] names.
#[verifier::external_body]
pub(crate) fn base64_decode(text: &str) -> (r: Option<Vec<u8>>)
    ensures
        match r {
            Some(v) => base64_decoded(text@) == Some(v@),
            None => base64_decoded(text@) is None,
        },
{
    base64::engine::general_purpose::STANDARD.decode(text).ok()
}

/// Writes base64.
///
/// Calls `encode` of the engine `STANDARD` of the crate `base64`. The claim
/// is that the text is made of the characters of base64, and that it is read
/// again as the bytes that were written. The call would panic on an input so
/// long that the length of the text overflows; such an input is left out.
#[verifier::external_body]
pub(crate) fn base64_encode(bytes: &[u8]) -> (r: String)
    requires
        base64_fits(bytes@.len()),
    ensures
        base64_decoded(r@) == Some(bytes@),
        forall|i: int| 0 <= i < r@.len() ==> is_base64_char(#[trigger] r@[i]),
{
    base64::engine::general_purpose::STANDARD.encode(bytes)
}

/// Decompresses a gzip stream.
///
/// Reads a `GzDecoder` of the crate `flate2` to its end. The claim is only
/// that the result is the one that [`gunzipped`] names.
#[verifier::external_body]
pub(crate) fn inflate(stream: &[u8]) -> (r: Option<Vec<u8>>)
    ensures
        match r {
            Some(v) => gunzipped(stream@) == Some(v@),
            None => gunzipped(stream@) is None,
        },
{
    let mut out = Vec::new();
    match flate2::read::GzDecoder::new(stream).read_to_end(&mut out) {
        Ok(_) => Some(out),
        Err(_) => None,
    }
}

/// Compresses bytes into a gzip stream, at a level from 0 to 9.
///
/// Writes the bytes to a `GzEncoder` of the crate `flate2` and finishes it.
/// The claim is that the stream is the one that [`gzipped`] names, and that
/// it decompresses to the bytes that were written.
#[verifier::external_body]
pub(crate) fn deflate(raw: &[u8], level: u32) -> (r: Vec<u8>)
    requires
        level <= 9,
    ensures
        r@ == gzipped(raw@, level),
        gunzipped(r@) == Some(raw@),
{
    let mut e = flate2::write::GzEncoder::new(Vec::new(), flate2::Compression::new(level));
    e.write_all(raw).unwrap();
    e.finish().unwrap()
}

/// Resolves the percent escapes of a text.
///
/// Calls `decode` of the crate `urlencoding`. The claim is only that the
/// result is the one that [`url_decoded`] names.
#[verifier::external_body]
pub(crate) fn url_decode(text: &str) -> (r: Option<String>)
    ensures
        match r {
            Some(s) => url_decoded(text@) == Some(s@),
            None => url_decoded(text@) is None,
        },
{
    match urlencoding::decode(text) {
        Ok(s) => Some(s.into_owned()),
        Err(_) => None,
    }
}

/// Writes a text with percent escapes.
///
/// Calls `encode` of the crate `urlencoding`, which escapes every byte of
/// the text's UTF-8 form but letters, digits, `-`, `.`, `_` and `~`. The
/// second claim is that `decode` of the same crate resolves the escapes
/// that were written, and gives the text again.
#[verifier::external_body]
pub(crate) fn url_encode(text: &str) -> (r: String)
    ensures
        r@ == percent_encoded(encode_utf8(text@)),
        url_decoded(r@) == Some(text@),
{
    urlencoding::encode(text).into_owned()
}

} // verus!
