//! Cookie-jar synchronization. The jar is the process-wide, shared, mutable
//! cookie store of the transport (reqwest's `Jar`), consulted automatically
//! on every outgoing send; it synchronizes internally, so a shared reference
//! suffices for both insertion and lookup, and nothing about its contents
//! can be stated here. Before the first send of an invocation, every cookie
//! of the request is composed into a `name=value` pair and stored scoped to
//! the request's URL; the cookies persist for later invocations sharing the
//! jar.
use crate::cookies::cookie_pair;
use crate::types::{Cookie, RequestError};
use crate::urls::{parse_url, url_ok};
use reqwest::cookie::CookieStore;
use vstd::prelude::*;

verus! {

/// reqwest's shared cookie jar, carried opaquely.
#[verifier::external_type_specification]
#[verifier::external_body]
pub struct ExJar(reqwest::cookie::Jar);

/// Relies on reqwest::cookie::Jar::add_cookie_str: stores the cookie string
/// for the given URL's origin in the shared jar; an unparsable cookie
/// string is ignored. The jar mutates behind a shared reference.
#[verifier::external_body]
fn jar_add(jar: &reqwest::cookie::Jar, cookie: &str, url: &url::Url) {
    jar.add_cookie_str(cookie, url);
}

/// Relies on reqwest::cookie::CookieStore::cookies for Jar: the `Cookie`
/// request-header value the transport would attach for this URL, if any.
/// The outcome depends on the jar's hidden, shared state, so nothing is
/// stated of it.
#[verifier::external_body]
fn jar_request_value(jar: &reqwest::cookie::Jar, url: &url::Url) -> (r: Option<String>) {
    match CookieStore::cookies(jar, url) {
        Some(v) => match v.to_str() {
            Ok(s) => Some(s.to_string()),
            Err(_) => None,
        },
        None => None,
    }
}

/// Injects the request's cookies into the shared jar, scoped to the request
/// URL, before the first send. Fails with `InvalidUrl`, storing nothing,
/// exactly when the URL does not parse.
pub fn sync_cookies(
    jar: &reqwest::cookie::Jar,
    url: &str,
    cookies: &Vec<Cookie>,
) -> (r: Result<(), RequestError>)
    ensures
        r is Ok <==> url_ok(url@),
        r is Err ==> r == Result::<(), RequestError>::Err(RequestError::InvalidUrl),
{
    let parsed = match parse_url(url) {
        Some(u) => u,
        None => {
            return Err(RequestError::InvalidUrl);
        },
    };
    let n = cookies.len();
    let mut i: usize = 0;
    while i < n
        invariant
            n == cookies@.len(),
            i <= n,
        decreases n - i,
    {
        let pair = cookie_pair(&cookies[i]);
        jar_add(jar, pair.as_str(), &parsed);
        i = i + 1;
    }
    Ok(())
}

/// The `Cookie` header value the jar would currently contribute to a
/// request for this URL: what the transport sends on the caller's behalf.
/// Returns nothing when the URL does not parse.
pub fn stored_cookie_header(jar: &reqwest::cookie::Jar, url: &str) -> (r: Option<String>)
    ensures
        !url_ok(url@) ==> r is None,
{
    match parse_url(url) {
        Some(u) => jar_request_value(jar, &u),
        None => None,
    }
}

} // verus!
