//! The request normalizer: strips every header named `cookie` (in any case),
//! validates the remaining header names and values, attaches the given
//! content type when a body is present and no content-type header was
//! supplied, and checks the method token. Cookie headers are never forwarded
//! verbatim; cookie injection is the jar's responsibility alone.
use crate::text::{
    find_ci, is_header_value, is_token, lookup_ci, seq_eq_ci, str_eq_ci, token_ok, value_ok,
};
use crate::types::{PreparedRequest, RequestError, RequestOptions};
use vstd::prelude::*;

verus! {

/// A header name that equals `cookie` up to ASCII case.
pub open spec fn is_cookie_name(s: Seq<char>) -> bool {
    seq_eq_ci(s, "cookie"@)
}

/// Whether a header line survives normalization.
pub open spec fn keep_header(p: (String, String)) -> bool {
    !is_cookie_name(p.0@)
}

/// The header list with every `cookie`-named line removed, order kept.
pub open spec fn filtered_headers(h: Seq<(String, String)>) -> Seq<(String, String)>
    decreases h.len(),
{
    if h.len() == 0 {
        Seq::empty()
    } else {
        let rest = filtered_headers(h.drop_last());
        if keep_header(h.last()) {
            rest.push(h.last())
        } else {
            rest
        }
    }
}

/// Every header line of the block carries a token name and a valid value.
pub open spec fn headers_valid(h: Seq<(String, String)>) -> bool {
    forall|i: int| 0 <= i < h.len() ==> token_ok(h[i].0@) && value_ok(h[i].1@)
}

/// No header line of the block is named `cookie` in any case.
pub open spec fn no_cookie_headers(h: Seq<(String, String)>) -> bool {
    forall|i: int| 0 <= i < h.len() ==> !is_cookie_name(h[i].0@)
}

/// A content-type header is owed: a body is present, a content type was
/// given, and no content-type header survived normalization.
pub open spec fn wants_content_type(opts: RequestOptions) -> bool {
    &&& opts.body is Some
    &&& opts.content_type is Some
    &&& lookup_ci(filtered_headers(opts.headers@), "content-type"@) is None
}

/// The failure normalization reports for these options, if any: an invalid
/// surviving header (or an invalid given content type) before an invalid
/// method token.
pub open spec fn normalize_error(opts: RequestOptions) -> Option<RequestError> {
    if !headers_valid(filtered_headers(opts.headers@)) {
        Some(RequestError::InvalidHeader)
    } else if wants_content_type(opts) && !value_ok(opts.content_type->0@) {
        Some(RequestError::InvalidHeader)
    } else if !token_ok(opts.method@) {
        Some(RequestError::InvalidMethod)
    } else {
        None
    }
}

/// How a prepared request relates to the options it was built from.
pub open spec fn prepared_ok(opts: RequestOptions, p: PreparedRequest) -> bool {
    let fh = filtered_headers(opts.headers@);
    &&& p.method@ == opts.method@
    &&& p.url@ == opts.url@
    &&& p.body == opts.body
    &&& if wants_content_type(opts) {
        &&& p.headers@.len() == fh.len() + 1
        &&& p.headers@.take(fh.len() as int) == fh
        &&& p.headers@.last().0@ == "content-type"@
        &&& p.headers@.last().1 == opts.content_type->0
    } else {
        p.headers@ == fh
    }
}

/// Every line that survives filtering is a non-`cookie` line.
proof fn lemma_filtered_keep(h: Seq<(String, String)>)
    ensures
        no_cookie_headers(filtered_headers(h)),
    decreases h.len(),
{
    if h.len() > 0 {
        lemma_filtered_keep(h.drop_last());
    }
}

/// Filtering one more line keeps or drops exactly that line.
proof fn lemma_filtered_take_step(h: Seq<(String, String)>, i: int)
    requires
        0 <= i < h.len(),
    ensures
        filtered_headers(h.take(i + 1)) == if keep_header(h[i]) {
            filtered_headers(h.take(i)).push(h[i])
        } else {
            filtered_headers(h.take(i))
        },
{
    assert(h.take(i + 1).drop_last() =~= h.take(i));
    assert(h.take(i + 1).last() == h[i]);
}

/// Builds the re-issuable request template from the caller's options, or
/// reports why they cannot be sent.
pub fn build_request(options: RequestOptions) -> (r: Result<PreparedRequest, RequestError>)
    ensures
        match r {
            Ok(p) => {
                &&& normalize_error(options) is None
                &&& prepared_ok(options, p)
                &&& no_cookie_headers(p.headers@)
            },
            Err(e) => normalize_error(options) == Some(e),
        },
{
    let n = options.headers.len();
    let mut out: Vec<(String, String)> = Vec::new();
    proof {
        assert(options.headers@.take(0) =~= Seq::<(String, String)>::empty());
    }
    let mut i: usize = 0;
    while i < n
        invariant
            n == options.headers@.len(),
            i <= n,
            out@ == filtered_headers(options.headers@.take(i as int)),
        decreases n - i,
    {
        proof {
            lemma_filtered_take_step(options.headers@, i as int);
        }
        if !str_eq_ci(options.headers[i].0.as_str(), "cookie") {
            let pair = (options.headers[i].0.clone(), options.headers[i].1.clone());
            proof {
                assert(pair == options.headers@[i as int]);
            }
            out.push(pair);
        }
        i = i + 1;
    }
    proof {
        assert(options.headers@.take(n as int) =~= options.headers@);
        lemma_filtered_keep(options.headers@);
    }
    let m = out.len();
    let mut j: usize = 0;
    while j < m
        invariant
            m == out@.len(),
            j <= m,
            out@ == filtered_headers(options.headers@),
            forall|k: int| 0 <= k < j ==> token_ok(out@[k].0@) && value_ok(out@[k].1@),
        decreases m - j,
    {
        if !is_token(out[j].0.as_str()) || !is_header_value(out[j].1.as_str()) {
            proof {
                assert(!(token_ok(out@[j as int].0@) && value_ok(out@[j as int].1@)));
                assert(!headers_valid(filtered_headers(options.headers@)));
            }
            return Err(RequestError::InvalidHeader);
        }
        j = j + 1;
    }
    let mut headers_out = out;
    if options.body.is_some() {
        if find_ci(&headers_out, "content-type").is_none() {
            match options.content_type {
                Some(ct) => {
                    if !is_header_value(ct.as_str()) {
                        return Err(RequestError::InvalidHeader);
                    }
                    let ghost fh = filtered_headers(options.headers@);
                    let pair = ("content-type".to_owned(), ct);
                    headers_out.push(pair);
                    proof {
                        assert(headers_out@.take(fh.len() as int) =~= fh);
                        reveal_strlit("content-type");
                        reveal_strlit("cookie");
                        assert(!is_cookie_name(headers_out@.last().0@));
                    }
                },
                None => {},
            }
        }
    }
    if !is_token(options.method.as_str()) {
        return Err(RequestError::InvalidMethod);
    }
    Ok(PreparedRequest { method: options.method, url: options.url, headers: headers_out, body: options.body })
}

} // verus!
