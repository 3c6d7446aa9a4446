//! The data model of one request invocation: its input options, the timing
//! and size records, the per-hop redirect records, and the final result.
use vstd::prelude::*;

verus! {

/// A cookie supplied by the caller. Only `name` and `value` are composed into
/// the `name=value` pair handed to the jar; the remaining attributes are
/// accepted but not transmitted.
#[derive(Debug)]
pub struct Cookie {
    pub name: String,
    pub value: String,
    pub domain: Option<String>,
    pub path: Option<String>,
    pub expires: Option<String>,
    pub secure: Option<bool>,
    pub http_only: Option<bool>,
}

/// The immutable input of one invocation.
#[derive(Debug)]
pub struct RequestOptions {
    pub method: String,
    pub url: String,
    pub headers: Vec<(String, String)>,
    pub body: Option<String>,
    pub content_type: Option<String>,
    pub cookies: Vec<Cookie>,
}

/// A normalized, re-issuable request template: the cookie header has been
/// stripped, every remaining header validated, and the content type attached
/// where it was owed.
#[derive(Debug)]
pub struct PreparedRequest {
    pub method: String,
    pub url: String,
    pub headers: Vec<(String, String)>,
    pub body: Option<String>,
}

/// Millisecond timestamps and durations around one hop or one whole exchange.
/// The transport exposes no connection phases, so `tcp`, `tls` and `request`
/// are always absent; `dns` and `first_byte` both approximate the time to the
/// first byte.
#[derive(Debug)]
pub struct ResponseTiming {
    pub start: u128,
    pub end: u128,
    pub duration: u128,
    pub dns: Option<u128>,
    pub tcp: Option<u128>,
    pub tls: Option<u128>,
    pub request: Option<u128>,
    pub first_byte: Option<u128>,
    pub download: Option<u128>,
    pub total: u128,
}

/// Byte counts for one response: encoded header bytes, body bytes, and their
/// sum.
#[derive(Debug)]
pub struct ResponseSize {
    pub headers: usize,
    pub body: usize,
    pub total: usize,
}

/// One recorded intermediate hop of a redirect sequence.
#[derive(Debug)]
pub struct RedirectInfo {
    pub url: String,
    pub status: u16,
    pub status_text: String,
    pub headers: Vec<(String, String)>,
    pub cookies: Vec<String>,
    pub timing: ResponseTiming,
    pub size: ResponseSize,
}

/// The sole output of one invocation.
#[derive(Debug)]
pub struct ResponseData {
    pub status: u16,
    pub status_text: String,
    pub headers: Vec<(String, String)>,
    pub body: String,
    pub is_base64: bool,
    pub redirect_chain: Vec<RedirectInfo>,
    pub cookies: Vec<String>,
    pub timing: ResponseTiming,
    pub size: ResponseSize,
}

/// What the transport hands back for one hop, reduced to plain values: the
/// status line, the response headers in arrival order, and every `set-cookie`
/// value of this response.
#[derive(Debug)]
pub struct HopResponse {
    pub status: u16,
    pub status_text: String,
    pub headers: Vec<(String, String)>,
    pub set_cookies: Vec<String>,
}

/// The three timestamps taken around one send: just before the request went
/// out, upon receiving the response head, and after the hop was handled.
#[derive(Debug)]
pub struct HopMeasure {
    pub start: u128,
    pub first_byte: u128,
    pub end: u128,
}

/// A hop measure is well formed when its clock readings are in order.
pub open spec fn measure_ok(m: HopMeasure) -> bool {
    m.start <= m.first_byte <= m.end
}

/// The body of the terminal response, read in the mode the classifier chose:
/// raw bytes for a binary response, a decoded string for a textual one.
#[derive(Debug)]
pub enum BodyPayload {
    Binary(Vec<u8>),
    Text(String),
}

/// Why an invocation failed. Every failure ends the whole invocation; there
/// is no partial result.
#[derive(Clone, Copy, Debug, PartialEq, Eq, Structural)]
pub enum RequestError {
    InvalidUrl,
    InvalidMethod,
    InvalidHeader,
    CloneFailure,
    RedirectLoopExceeded,
    NoResponse,
    BodyReadError,
}

/// The human-readable text of each failure.
pub open spec fn message_spec(e: RequestError) -> Seq<char> {
    match e {
        RequestError::InvalidUrl => "invalid URL"@,
        RequestError::InvalidMethod => "invalid method token"@,
        RequestError::InvalidHeader => "invalid header name or value"@,
        RequestError::CloneFailure => "Failed to clone request"@,
        RequestError::RedirectLoopExceeded => "Maximum redirect limit (10) exceeded. The server might be in a redirect loop."@,
        RequestError::NoResponse => "No response received"@,
        RequestError::BodyReadError => "failed to read response body"@,
    }
}

impl RequestError {
    /// The descriptive message surfaced verbatim to the caller.
    pub fn message(&self) -> (s: String)
        ensures
            s@ == message_spec(*self),
    {
        match self {
            RequestError::InvalidUrl => "invalid URL".to_owned(),
            RequestError::InvalidMethod => "invalid method token".to_owned(),
            RequestError::InvalidHeader => "invalid header name or value".to_owned(),
            RequestError::CloneFailure => "Failed to clone request".to_owned(),
            RequestError::RedirectLoopExceeded => "Maximum redirect limit (10) exceeded. The server might be in a redirect loop.".to_owned(),
            RequestError::NoResponse => "No response received".to_owned(),
            RequestError::BodyReadError => "failed to read response body".to_owned(),
        }
    }
}

} // verus!
