//! Request-execution engine for an API-testing tool: manual redirect
//! following over a transport with automatic redirects disabled, cookie-jar
//! synchronization, response classification and decoding, and timing/size
//! accounting.
use vstd::prelude::*;

pub mod body;
pub mod classify;
pub mod cookies;
pub mod exchange;
pub mod jar;
pub mod laws;
pub mod normalize;
pub mod sizes;
pub mod text;
pub mod timing;
pub mod types;
pub mod urls;

verus! {

/// A redirection status code in the sense of HTTP: the 3xx class.
pub open spec fn is_redirect_status(status: u16) -> bool {
    300 <= status <= 399
}

/// Decides whether a status code belongs to the 3xx redirection class.
pub fn status_is_redirect(status: u16) -> (b: bool)
    ensures
        b == is_redirect_status(status),
{
    300 <= status && status <= 399
}

} // verus!
