//! Content fingerprinting: canonicalization and hashing of clipboard payloads.
//!
//! A payload's fingerprint is the lowercase hex encoding of the SHA-256
//! digest of its canonical byte form: for text, the UTF-8 bytes; for images,
//! a canonical lossless re-encoding (PNG) of the raw pixel buffer, so that
//! logically identical captures with different raw layouts hash alike.

use sha2::Digest;
use vstd::prelude::*;
use vstd::string::{StrSliceExecFns, StringExecFns};

verus! {

/// Upper bound, in Unicode scalar values, of the preview kept for a text clip.
pub const TEXT_PREVIEW_MAX: usize = 200;

/// Digest of a byte sequence under SHA-256, as a sequence of 32 bytes.
pub uninterp spec fn sha256_of(bytes: Seq<u8>) -> Seq<u8>;

/// Relies on sha2::Sha256 through sha2::Digest::digest: the digest is a
/// 32-byte value determined by the input bytes alone.
#[verifier::external_body]
fn sha256_digest(bytes: &[u8]) -> (r: Vec<u8>)
    ensures
        r@ == sha256_of(bytes@),
        r@.len() == 32,
{
    sha2::Sha256::digest(bytes).to_vec()
}

/// The character standing for one hex digit, lowercase.
pub open spec fn nibble_char(n: u8) -> char
    recommends
        n < 16,
{
    if n < 10 {
        (n + 48) as char
    } else {
        (n + 87) as char
    }
}

/// Lowercase hex encoding of a byte sequence: two digits per byte,
/// high nibble first.
pub open spec fn hex_of(bytes: Seq<u8>) -> Seq<char> {
    Seq::new(
        bytes.len() * 2,
        |i: int|
            if i % 2 == 0 {
                nibble_char(bytes[i / 2] / 16)
            } else {
                nibble_char(bytes[i / 2] % 16)
            },
    )
}

/// Relies on String::push: appends the given character at the end.
#[verifier::external_body]
fn push_char(s: &mut String, c: char)
    ensures
        final(s)@ == old(s)@.push(c),
{
    s.push(c);
}

fn nibble_to_char(n: u8) -> (c: char)
    requires
        n < 16,
    ensures
        c == nibble_char(n),
{
    if n < 10 {
        (n + 48) as char
    } else {
        (n + 87) as char
    }
}

/// Lowercase hex encoding of a byte slice.
fn to_hex(bytes: &[u8]) -> (r: String)
    requires
        bytes@.len() * 2 <= usize::MAX,
    ensures
        r@ == hex_of(bytes@),
{
    let mut r = String::new();
    let mut i: usize = 0;
    while i < bytes.len()
        invariant
            i <= bytes@.len(),
            bytes@.len() * 2 <= usize::MAX,
            r@ =~= hex_of(bytes@).take(2 * i),
        decreases bytes@.len() - i,
    {
        let b = bytes[i];
        push_char(&mut r, nibble_to_char(b / 16));
        push_char(&mut r, nibble_to_char(b % 16));
        i = i + 1;
        proof {
            assert(r@ =~= hex_of(bytes@).take(2 * i));
        }
    }
    proof {
        assert(hex_of(bytes@).take(2 * bytes@.len() as int) =~= hex_of(bytes@));
    }
    r
}

/// The fingerprint of a byte sequence: lowercase hex of its SHA-256 digest.
pub open spec fn spec_fingerprint(bytes: Seq<u8>) -> Seq<char> {
    hex_of(sha256_of(bytes))
}

/// Computes the dedup key of a canonical payload: a 64-character lowercase
/// hex rendering of its SHA-256 digest.
pub fn fingerprint_bytes(bytes: &[u8]) -> (r: String)
    ensures
        r@ == spec_fingerprint(bytes@),
        r@.len() == 64,
{
    let digest = sha256_digest(bytes);
    to_hex(digest.as_slice())
}

/// Equal byte sequences always fingerprint alike: the fingerprint is a
/// function of the content alone, stable across runs.
pub proof fn lemma_fingerprint_deterministic(a: Seq<u8>, b: Seq<u8>)
    requires
        a == b,
    ensures
        spec_fingerprint(a) == spec_fingerprint(b),
{
}

/// The bounded human-readable preview of a text payload: the whole text when
/// it is short, otherwise its first `TEXT_PREVIEW_MAX` Unicode scalar values.
pub open spec fn spec_preview(text: Seq<char>) -> Seq<char> {
    if text.len() <= TEXT_PREVIEW_MAX {
        text
    } else {
        text.take(TEXT_PREVIEW_MAX as int)
    }
}

/// Produces the preview of a text payload. Truncation counts Unicode scalar
/// values, never bytes, so a multi-byte character is kept whole or dropped.
pub fn text_preview(text: &str) -> (r: String)
    ensures
        r@ == spec_preview(text@),
        r@.len() <= TEXT_PREVIEW_MAX,
{
    let n = text.unicode_len();
    if n <= TEXT_PREVIEW_MAX {
        String::from_str(text)
    } else {
        String::from_str(text.substring_char(0, TEXT_PREVIEW_MAX))
    }
}

/// The constant preview shown for image clips.
pub open spec fn spec_image_placeholder() -> Seq<char> {
    "[Image]"@
}

/// Produces the placeholder preview used for every image clip.
pub fn image_placeholder() -> (r: String)
    ensures
        r@ == spec_image_placeholder(),
{
    String::from_str("[Image]")
}

/// Canonical lossless encoding of an RGBA pixel buffer with the given
/// dimensions, or `None` when the buffer and dimensions do not describe an
/// encodable image. The encoding is a function of its arguments alone, so
/// captures of the same logical image canonicalize identically.
pub uninterp spec fn png_encoding(width: u32, height: u32, rgba: Seq<u8>) -> Option<Seq<u8>>;

/// Relies on image::ImageBuffer::from_raw and ImageBuffer::write_to with
/// ImageOutputFormat::Png: a deterministic canonical PNG rendering of an
/// RGBA pixel buffer, refused when the buffer is smaller than the
/// dimensions require or the encoder rejects the image.
#[verifier::external_body]
pub(crate) fn encode_png(width: u32, height: u32, rgba: Vec<u8>) -> (r: Option<Vec<u8>>)
    ensures
        r is Some <==> png_encoding(width, height, rgba@) is Some,
        r is Some ==> r->0@ == png_encoding(width, height, rgba@)->0,
{
    let buffer = match image::ImageBuffer::<image::Rgba<u8>, Vec<u8>>::from_raw(
        width,
        height,
        rgba,
    ) {
        Some(b) => b,
        None => return None,
    };
    let mut out: Vec<u8> = Vec::new();
    let mut cursor = std::io::Cursor::new(&mut out);
    match buffer.write_to(&mut cursor, image::ImageOutputFormat::Png) {
        Ok(()) => Some(out),
        Err(_) => None,
    }
}

} // verus!
