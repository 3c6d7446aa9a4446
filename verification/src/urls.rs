//! URL handling, delegated to the `url` crate: validity of the request URL,
//! and resolution of a redirect's location against the URL it came from.
use crate::types::RequestError;
use vstd::prelude::*;

verus! {

/// The `url` crate's parsed URL, carried opaquely.
#[verifier::external_type_specification]
#[verifier::external_body]
pub struct ExUrl(url::Url);

/// Whether a string parses as an absolute URL.
pub uninterp spec fn url_ok(s: Seq<char>) -> bool;

/// The absolute URL a location header resolves to against a base URL, if
/// the base parses and the reference can be joined to it.
pub uninterp spec fn join_of(base: Seq<char>, location: Seq<char>) -> Option<Seq<char>>;

/// Relies on url::Url::parse: whether a string is accepted as an absolute
/// URL depends on the string alone.
#[verifier::external_body]
pub(crate) fn parse_url(s: &str) -> (r: Option<url::Url>)
    ensures
        r is Some <==> url_ok(s@),
{
    url::Url::parse(s).ok()
}

/// Relies on url::Url::parse, Url::join and Url's string form: reference
/// resolution against a base URL depends on the two strings alone.
#[verifier::external_body]
pub(crate) fn resolve_location(base: &str, location: &str) -> (r: Option<String>)
    ensures
        match r {
            Some(u) => join_of(base@, location@) == Some(u@),
            None => join_of(base@, location@) is None,
        },
{
    match url::Url::parse(base) {
        Ok(b) => match b.join(location) {
            Ok(u) => Some(u.to_string()),
            Err(_) => None,
        },
        Err(_) => None,
    }
}

/// Checks that the request URL is one the transport will accept.
pub fn validate_url(s: &str) -> (r: Result<(), RequestError>)
    ensures
        r is Ok <==> url_ok(s@),
        r is Err ==> r == Result::<(), RequestError>::Err(RequestError::InvalidUrl),
{
    match parse_url(s) {
        Some(_) => Ok(()),
        None => Err(RequestError::InvalidUrl),
    }
}

} // verus!
