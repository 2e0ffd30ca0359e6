//! The two containers that hold a quiz document on disk.
//!
//! One holds the document as base64 text, the other as a zlib stream. The
//! kind of a container is an input: nothing here looks at the bytes to
//! guess it. Decoding yields the UTF-8 text inside or one error that says
//! which layer failed; encoding always writes the zlib container.

use vstd::prelude::*;
use vstd::utf8::{decode_utf8, encode_utf8, valid_utf8};

verus! {

/// The outer encoding of a quiz file.
#[derive(Debug, Clone, Copy, PartialEq, Eq, Structural)]
pub enum ContainerKind {
    /// Base64 text, with optional whitespace at its two ends.
    Base64,
    /// A zlib stream. This is the canonical container.
    Zlib,
}

/// Why a container could not be decoded.
#[derive(Debug, Clone, Copy, PartialEq, Eq, Structural)]
pub enum DecodeError {
    /// The payload of a base64 container is not base64.
    InvalidBase64,
    /// The payload of a zlib container is not a zlib stream.
    InvalidCompression,
    /// The bytes, before or after decoding, are not UTF-8.
    InvalidUtf8,
}

/// Whether `char::is_whitespace` holds of a character, that is whether it
/// has the Unicode property White_Space.
pub uninterp spec fn white_space(c: char) -> bool;

/// What the standard base64 engine of the `base64` crate decodes a text to,
/// or `None` where it reports an error.
pub uninterp spec fn base64_decoded(input: Seq<u8>) -> Option<Seq<u8>>;

/// What `flate2` reads from a zlib stream, or `None` where it reports an
/// error.
pub uninterp spec fn zlib_inflated(data: Seq<u8>) -> Option<Seq<u8>>;

/// The zlib stream that `flate2` writes for the given bytes at its default
/// level, or `None` where it reports an error.
pub uninterp spec fn zlib_deflated(data: Seq<u8>) -> Option<Seq<u8>>;

/// A text without the whitespace at its start.
pub open spec fn trimmed_start(text: Seq<char>) -> Seq<char>
    decreases text.len(),
{
    if text.len() > 0 && white_space(text[0]) {
        trimmed_start(text.drop_first())
    } else {
        text
    }
}

/// A text without the whitespace at its end.
pub open spec fn trimmed_end(text: Seq<char>) -> Seq<char>
    decreases text.len(),
{
    if text.len() > 0 && white_space(text.last()) {
        trimmed_end(text.drop_last())
    } else {
        text
    }
}

/// A text without the whitespace at its two ends.
pub open spec fn trimmed(text: Seq<char>) -> Seq<char> {
    trimmed_end(trimmed_start(text))
}

/// The text that a sequence of bytes holds, where it is UTF-8.
pub open spec fn utf8_text(bytes: Seq<u8>) -> Result<Seq<char>, DecodeError> {
    if valid_utf8(bytes) {
        Ok(decode_utf8(bytes))
    } else {
        Err(DecodeError::InvalidUtf8)
    }
}

/// The text inside a container, or the error of the first layer that fails.
///
/// A base64 container must be UTF-8 itself; its text is trimmed, decoded,
/// and the result must be UTF-8 again. A zlib container is inflated, and
/// the result must be UTF-8.
pub open spec fn decoded_container(content: Seq<u8>, kind: ContainerKind) -> Result<
    Seq<char>,
    DecodeError,
> {
    match kind {
        ContainerKind::Base64 => match utf8_text(content) {
            Ok(text) => match base64_decoded(encode_utf8(trimmed(text))) {
                Some(raw) => utf8_text(raw),
                None => Err(DecodeError::InvalidBase64),
            },
            Err(e) => Err(e),
        },
        ContainerKind::Zlib => match zlib_inflated(content) {
            Some(raw) => utf8_text(raw),
            None => Err(DecodeError::InvalidCompression),
        },
    }
}

/// The canonical container of a text: the zlib stream of its UTF-8 bytes.
pub open spec fn encoded_container(text: Seq<char>) -> Option<Seq<u8>> {
    zlib_deflated(encode_utf8(text))
}

/// Calls `std::str::from_utf8`. Taken on trust: the result is a string
/// slice of the same bytes where they are valid UTF-8, and nothing where
/// they are not.
#[verifier::external_body]
fn str_from_utf8(bytes: &[u8]) -> (r: Option<&str>)
    ensures
        match r {
            Some(text) => valid_utf8(bytes@) && encode_utf8(text@) == bytes@,
            None => !valid_utf8(bytes@),
        },
{
    std::str::from_utf8(bytes).ok()
}

/// Calls `str::trim`. Taken on trust: the result is the slice without the
/// characters at its two ends that `char::is_whitespace` accepts, so that
/// neither end of it is whitespace.
#[verifier::external_body]
fn trim(text: &str) -> (r: &str)
    ensures
        r@ == trimmed(text@),
        r@.len() > 0 ==> !white_space(r@.first()) && !white_space(r@.last()),
{
    text.trim()
}

/// Calls `Engine::decode` of the `base64` crate on its `STANDARD` engine.
/// Taken on trust: the result depends on the input alone, so that it can
/// be named, as [`base64_decoded`]; what the engine accepts and what it
/// decodes to is not stated here.
#[verifier::external_body]
fn base64_decode(input: &[u8]) -> (r: Option<Vec<u8>>)
    ensures
        match r {
            Some(raw) => base64_decoded(input@) == Some(raw@),
            None => base64_decoded(input@) is None,
        },
{
    base64::Engine::decode(&base64::engine::general_purpose::STANDARD, input).ok()
}

/// Reads a whole zlib stream with `flate2::read::ZlibDecoder` and
/// `Read::read_to_end`. Taken on trust: the result depends on the input
/// alone, so that it can be named, as [`zlib_inflated`]; what a valid
/// stream is and what it inflates to is not stated here.
#[verifier::external_body]
fn zlib_inflate(data: &[u8]) -> (r: Option<Vec<u8>>)
    ensures
        match r {
            Some(raw) => zlib_inflated(data@) == Some(raw@),
            None => zlib_inflated(data@) is None,
        },
{
    let mut decoder = flate2::read::ZlibDecoder::new(data);
    let mut raw = Vec::new();
    match std::io::Read::read_to_end(&mut decoder, &mut raw) {
        Ok(_) => Some(raw),
        Err(_) => None,
    }
}

/// Writes a zlib stream with `flate2::write::ZlibEncoder` at the default
/// level, by `Write::write_all` and `finish`. Taken on trust: the result
/// depends on the input alone, so that it can be named, as
/// [`zlib_deflated`]; the bytes of the stream are not stated here.
#[verifier::external_body]
fn zlib_deflate(data: &[u8]) -> (r: Option<Vec<u8>>)
    ensures
        match r {
            Some(stream) => zlib_deflated(data@) == Some(stream@),
            None => zlib_deflated(data@) is None,
        },
{
    let mut encoder = flate2::write::ZlibEncoder::new(Vec::new(), flate2::Compression::default());
    match std::io::Write::write_all(&mut encoder, data) {
        Ok(()) => encoder.finish().ok(),
        Err(_) => None,
    }
}

/// Reads bytes as UTF-8 text: the text that they encode where they are
/// valid UTF-8, and `InvalidUtf8` where they are not.
pub fn text_from_bytes(bytes: &[u8]) -> (r: Result<String, DecodeError>)
    ensures
        match r {
            Ok(text) => utf8_text(bytes@) == Ok::<Seq<char>, DecodeError>(text@),
            Err(e) => utf8_text(bytes@) == Err::<Seq<char>, DecodeError>(e),
        },
{
    match str_from_utf8(bytes) {
        Some(text) => {
            proof {
                vstd::utf8::encode_utf8_decode_utf8(text@);
            }
            Ok(text.to_owned())
        },
        None => Err(DecodeError::InvalidUtf8),
    }
}

/// Decodes a container of the given kind to the text inside it.
///
/// The result is exactly [`decoded_container`]: the text where every layer
/// decodes, and otherwise the error of the first layer that does not.
pub fn decode_container(content: &[u8], kind: ContainerKind) -> (r: Result<String, DecodeError>)
    ensures
        match r {
            Ok(text) => decoded_container(content@, kind) == Ok::<Seq<char>, DecodeError>(text@),
            Err(e) => decoded_container(content@, kind) == Err::<Seq<char>, DecodeError>(e),
        },
{
    match kind {
        ContainerKind::Base64 => {
            let text = match text_from_bytes(content) {
                Ok(text) => text,
                Err(e) => return Err(e),
            };
            let payload = trim(text.as_str());
            match base64_decode(payload.as_bytes()) {
                Some(raw) => text_from_bytes(raw.as_slice()),
                None => Err(DecodeError::InvalidBase64),
            }
        },
        ContainerKind::Zlib => match zlib_inflate(content) {
            Some(raw) => text_from_bytes(raw.as_slice()),
            None => Err(DecodeError::InvalidCompression),
        },
    }
}

/// Encodes a text into the canonical container. The result is exactly
/// [`encoded_container`].
pub fn encode_container(text: &str) -> (r: Option<Vec<u8>>)
    ensures
        match r {
            Some(stream) => encoded_container(text@) == Some(stream@),
            None => encoded_container(text@) is None,
        },
{
    zlib_deflate(text.as_bytes())
}

} // verus!
