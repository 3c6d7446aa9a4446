//! The response decoder and final assembly: a binary payload is base64
//! encoded with its raw byte length recorded, a textual payload is kept as
//! decoded text with its UTF-8 byte length recorded, and the terminal
//! response, the recorded chain, the accumulated cookies, and the overall
//! timing and sizes are put together into the invocation's single result.
use crate::classify::is_binary_response;
use crate::cookies::{accumulate_cookies, accumulated_cookies};
use crate::exchange::Exchange;
use crate::sizes::{byte_len, headers_size, headers_size_spec, lemma_headers_size_nonneg};
use crate::timing::{make_overall_timing, overall_ok, overall_timing_spec, OverallMeasure};
use crate::types::{BodyPayload, HopResponse, ResponseData, ResponseSize};
use vstd::prelude::*;

verus! {

/// The base64 text of a byte string, standard alphabet with padding.
pub uninterp spec fn base64_of(bytes: Seq<u8>) -> Seq<char>;

/// Relies on base64::encode: standard alphabet with padding; the result
/// depends on the input bytes alone, and no bytes give no text.
#[verifier::external_body]
fn base64_encode(bytes: &Vec<u8>) -> (r: String)
    ensures
        r@ == base64_of(bytes@),
        bytes@.len() == 0 ==> r@.len() == 0,
{
    base64::encode(bytes.as_slice())
}

/// The recorded body size of a payload: the raw byte count before encoding
/// for a binary payload, the UTF-8 byte count for a textual one.
pub open spec fn payload_size(p: BodyPayload) -> int {
    match p {
        BodyPayload::Binary(b) => b@.len() as int,
        BodyPayload::Text(s) => byte_len(s@) as int,
    }
}

/// How the result's body fields relate to the payload that was read: binary
/// payloads are base64 encoded and flagged, textual ones kept verbatim.
pub open spec fn body_encoded_ok(p: BodyPayload, r: ResponseData) -> bool {
    match p {
        BodyPayload::Binary(b) => r.body@ == base64_of(b@) && r.is_base64,
        BodyPayload::Text(s) => r.body == s && !r.is_base64,
    }
}

/// Assembles the invocation's single result from the terminal response, the
/// body read in the mode the classifier chose, and the exchange's recorded
/// chain and clock readings.
pub fn finish(
    ex: Exchange,
    resp: HopResponse,
    payload: BodyPayload,
    t: &OverallMeasure,
) -> (r: ResponseData)
    requires
        overall_ok(*t),
        headers_size_spec(resp.headers@) + payload_size(payload) <= usize::MAX,
        payload is Binary <==> is_binary_response(resp.headers@),
    ensures
        r.status == resp.status,
        r.status_text == resp.status_text,
        r.headers == resp.headers,
        r.redirect_chain@ == ex.chain(),
        r.cookies@ == accumulated_cookies(ex.chain(), resp.set_cookies@),
        r.is_base64 == is_binary_response(resp.headers@),
        body_encoded_ok(payload, r),
        r.size.headers == headers_size_spec(resp.headers@),
        r.size.body == payload_size(payload),
        r.size.total == r.size.headers + r.size.body,
        r.timing == overall_timing_spec(*t),
{
    proof {
        lemma_headers_size_nonneg(resp.headers@);
    }
    let hsz = headers_size(&resp.headers);
    let all_cookies = accumulate_cookies(&ex.chain, &resp.set_cookies);
    let (body, body_size, is_base64): (String, usize, bool) = match payload {
        BodyPayload::Binary(b) => {
            let n = b.len();
            (base64_encode(&b), n, true)
        },
        BodyPayload::Text(s) => {
            let n = s.as_str().len();
            (s, n, false)
        },
    };
    ResponseData {
        status: resp.status,
        status_text: resp.status_text,
        headers: resp.headers,
        body,
        is_base64,
        redirect_chain: ex.chain,
        cookies: all_cookies,
        timing: make_overall_timing(t),
        size: ResponseSize { headers: hsz, body: body_size, total: hsz + body_size },
    }
}

} // verus!
