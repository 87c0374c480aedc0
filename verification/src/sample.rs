//! Ephemeral clipboard samples: one per poll tick, canonicalized and
//! fingerprinted, discarded after the upsert decision.

use vstd::prelude::*;
use vstd::string::StrSliceExecFns;
use vstd::utf8::encode_utf8;

use crate::fingerprint::{
    encode_png, fingerprint_bytes, image_placeholder, png_encoding, spec_fingerprint,
    spec_image_placeholder, spec_preview, text_preview,
};

verus! {

/// The two content kinds the core handles; anything else on the clipboard
/// is ignored.
#[derive(Clone, Copy, PartialEq, Eq, Structural, Debug)]
pub enum ClipKind {
    Text,
    Image,
}

/// Dimensions and encoded size of an image payload.
#[derive(Clone, Copy, PartialEq, Eq, Structural, Debug)]
pub struct ImageMeta {
    pub width: u32,
    pub height: u32,
    pub size_bytes: usize,
}

/// Mathematical model of a sample: canonical content bytes, bounded preview,
/// and the fingerprint used as the dedup key.
#[verifier::ext_equal]
pub ghost struct SpecSample {
    pub kind: ClipKind,
    pub content: Seq<u8>,
    pub preview: Seq<char>,
    pub content_hash: Seq<char>,
    pub metadata: Option<ImageMeta>,
}

/// One canonicalized clipboard payload, produced fresh each poll tick.
pub struct Sample {
    pub kind: ClipKind,
    pub content: Vec<u8>,
    pub preview: String,
    pub content_hash: String,
    pub metadata: Option<ImageMeta>,
}

impl View for Sample {
    type V = SpecSample;

    open spec fn view(&self) -> SpecSample {
        SpecSample {
            kind: self.kind,
            content: self.content@,
            preview: self.preview@,
            content_hash: self.content_hash@,
            metadata: self.metadata,
        }
    }
}

/// The sample a text payload canonicalizes to: its UTF-8 bytes, hashed
/// directly, with a bounded preview.
pub open spec fn spec_text_sample(text: Seq<char>) -> SpecSample {
    SpecSample {
        kind: ClipKind::Text,
        content: encode_utf8(text),
        preview: spec_preview(text),
        content_hash: spec_fingerprint(encode_utf8(text)),
        metadata: None,
    }
}

/// The sample an RGBA capture canonicalizes to, when the canonical PNG
/// encoding succeeds: the PNG bytes are what is stored and hashed, so
/// differing raw layouts of the same logical image dedup together.
pub open spec fn spec_image_sample(width: u32, height: u32, rgba: Seq<u8>) -> Option<SpecSample> {
    match png_encoding(width, height, rgba) {
        Some(png) => Some(
            SpecSample {
                kind: ClipKind::Image,
                content: png,
                preview: spec_image_placeholder(),
                content_hash: spec_fingerprint(png),
                metadata: Some(
                    ImageMeta { width, height, size_bytes: png.len() as usize },
                ),
            },
        ),
        None => None,
    }
}

/// Canonicalizes and fingerprints a text payload.
pub fn sample_text(text: &str) -> (s: Sample)
    ensures
        s@ == spec_text_sample(text@),
{
    let content = text.as_bytes_vec();
    let preview = text_preview(text);
    let content_hash = fingerprint_bytes(content.as_slice());
    let s = Sample { kind: ClipKind::Text, content, preview, content_hash, metadata: None };
    proof {
        assert(s@ =~= spec_text_sample(text@));
    }
    s
}

/// Canonicalizes and fingerprints an image capture. Returns `None` exactly
/// when the canonical re-encoding fails, which the watch loop treats as "no
/// image present".
pub fn sample_image(width: u32, height: u32, rgba: Vec<u8>) -> (s: Option<Sample>)
    ensures
        s is Some <==> spec_image_sample(width, height, rgba@) is Some,
        s is Some ==> s->0@ == spec_image_sample(width, height, rgba@)->0,
{
    let png = match encode_png(width, height, rgba) {
        Some(png) => png,
        None => {
            return None;
        },
    };
    let size_bytes = png.len();
    let content_hash = fingerprint_bytes(png.as_slice());
    let preview = image_placeholder();
    let s = Sample {
        kind: ClipKind::Image,
        content: png,
        preview,
        content_hash,
        metadata: Some(ImageMeta { width, height, size_bytes }),
    };
    proof {
        assert(s@ =~= spec_image_sample(width, height, rgba@)->0);
    }
    Some(s)
}

} // verus!
