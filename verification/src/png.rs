//! The fixed PNG asset.  The image is embedded in its textual encoding
//! and decoded through the outside `base64` crate; both whether that
//! decode succeeds and what bytes it yields are fixed functions of the
//! embedded text, named by `base64_decode_of`.

use vstd::prelude::*;
use crate::http::{Response, MediaType, Body, ResponseModel, BodyModel};

verus! {

/// What `base64::decode` returns for a given text: `Some` with the
/// decoded bytes, or `None` when the text is not valid base64.  The
/// outcome depends on the text alone.
pub uninterp spec fn base64_decode_of(s: Seq<char>) -> Option<Seq<u8>>;

/// Relies on `base64::decode` of the `base64` crate: decoding with the
/// standard alphabet is a pure function of the input text — it succeeds,
/// or fails, and yields the same bytes, for the same text everywhere —
/// so the whole outcome is `base64_decode_of` of it.
#[verifier::external_body]
fn decode_base64(s: &str) -> (r: Option<Vec<u8>>)
    ensures
        r matches Some(b) ==> base64_decode_of(s@) == Some(b@),
        r is None ==> base64_decode_of(s@) is None,
{
    base64::decode(s).ok()
}

/// The embedded image, in its textual encoding.
pub open spec fn png_base64() -> Seq<char> {
    "iVBORw0KGgoAAAANSUhEUgAAAAEAAAABCAYAAAAfFcSJAAAADUlEQVR42mPk+89QDwADvgGOSHzRgAAAAABJRU5ErkJggg=="@
}

/// The decode of the embedded image: a fixed value, the same on every
/// request.
pub open spec fn png_decoded() -> Option<Seq<u8>> {
    base64_decode_of(png_base64())
}

/// The bytes of the embedded image, when its encoding decodes.
pub open spec fn png_bytes() -> Seq<u8> {
    match png_decoded() {
        Some(b) => b,
        None => Seq::empty(),
    }
}

/// Decodes the embedded image.  The outcome equals `png_decoded()`, so
/// `None` can come only if the embedded encoding itself were corrupt — a
/// defect of the crate's own text, not a run-time condition.
pub fn demo_png_body() -> (r: Option<Vec<u8>>)
    ensures
        r matches Some(b) ==> png_decoded() == Some(b@),
        r is None ==> png_decoded() is None,
{
    decode_base64(
        "iVBORw0KGgoAAAANSUhEUgAAAAEAAAABCAYAAAAfFcSJAAAADUlEQVR42mPk+89QDwADvgGOSHzRgAAAAABJRU5ErkJggg==",
    )
}

/// The image route's response: `200`, `image/png`, and the fixed bytes.
/// It is `None` exactly when the embedded encoding does not decode.
pub fn get_demo_png() -> (r: Option<Response>)
    ensures
        r matches Some(resp) ==> png_decoded() is Some && resp@ == (ResponseModel {
            status: 200,
            media: MediaType::ImagePng,
            body: BodyModel::Bytes(png_bytes()),
        }),
        r is None ==> png_decoded() is None,
{
    match demo_png_body() {
        Some(b) => Some(
            Response { status: 200, media: MediaType::ImagePng, body: Body::Bytes(b) },
        ),
        None => None,
    }
}

} // verus!
