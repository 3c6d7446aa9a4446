//! The response classifier: decides text versus binary handling from the
//! terminal response's content type, compared without regard to ASCII case.
//! A type is binary when it is an image other than SVG (SVG is textual XML),
//! an octet stream, audio, or video; everything else, including a missing
//! content type, is text.
use crate::text::{find_ci, lookup_ci, starts_ci, str_starts_ci};
use vstd::prelude::*;

verus! {

/// The value of the first content-type header, if any.
pub open spec fn content_type_of(h: Seq<(String, String)>) -> Option<Seq<char>> {
    lookup_ci(h, "content-type"@)
}

/// Whether a content-type value names a binary payload.
pub open spec fn is_binary_type(ct: Seq<char>) -> bool {
    ||| (starts_ci(ct, "image/"@) && !starts_ci(ct, "image/svg"@))
    ||| starts_ci(ct, "application/octet-stream"@)
    ||| starts_ci(ct, "audio/"@)
    ||| starts_ci(ct, "video/"@)
}

/// Whether a response with these headers is handled as binary.
pub open spec fn is_binary_response(h: Seq<(String, String)>) -> bool {
    match content_type_of(h) {
        Some(ct) => is_binary_type(ct),
        None => false,
    }
}

/// Classifies a response by its headers: true means binary handling, base64
/// output; false means text handling.
pub fn classify_headers(h: &Vec<(String, String)>) -> (b: bool)
    ensures
        b == is_binary_response(h@),
{
    match find_ci(h, "content-type") {
        None => false,
        Some(i) => {
            let ct = h[i].1.as_str();
            (str_starts_ci(ct, "image/") && !str_starts_ci(ct, "image/svg")) || str_starts_ci(
                ct,
                "application/octet-stream",
            ) || str_starts_ci(ct, "audio/") || str_starts_ci(ct, "video/")
        },
    }
}

} // verus!
