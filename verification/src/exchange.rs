//! The redirect-following executor: a bounded state machine over one
//! transport send per hop. The transport has automatic redirects disabled;
//! this module owns all hop logic. For each response it decides whether to
//! follow a redirect, accept the response as terminal, or fail, recording
//! one `RedirectInfo` per followed hop. At most ten attempts are made; a
//! tenth redirect fails with `RedirectLoopExceeded` only after its hop has
//! been recorded, so the chain reflects all ten attempts.
use crate::sizes::{headers_size, headers_size_spec, lemma_headers_size_nonneg};
use crate::text::lookup_ci;
use crate::timing::hop_timing_spec;
use crate::types::{
    measure_ok, HopMeasure, HopResponse, RedirectInfo, RequestError, ResponseSize,
};
use crate::urls::{join_of, resolve_location};
use crate::{is_redirect_status, status_is_redirect};
use vstd::prelude::*;

verus! {

/// The running state of one redirect-following exchange: the URL the next
/// hop targets, the hops recorded so far (oldest first), and how many
/// responses have been handled.
pub struct Exchange {
    pub current_url: String,
    pub chain: Vec<RedirectInfo>,
    pub hops: usize,
}

/// What the executor decides after one response: re-issue the request
/// against the new current URL, accept this response as terminal, or fail
/// the whole invocation.
pub enum HopDecision {
    Follow,
    Terminal(HopResponse),
    Fail(RequestError),
}

/// A response that will be followed: a 3xx status carrying a location
/// header. Anything else is terminal.
pub open spec fn redirect_with_location(resp: HopResponse) -> bool {
    is_redirect_status(resp.status) && lookup_ci(resp.headers@, "location"@) is Some
}

/// The location header value of a response to be followed.
pub open spec fn location_of(resp: HopResponse) -> Seq<char>
    recommends
        redirect_with_location(resp),
{
    lookup_ci(resp.headers@, "location"@)->0
}

/// How a recorded hop relates to the response it records: the URL that was
/// visited, the status line and headers as received, the `set-cookie` values
/// seen at this hop, the hop's timing, and a size of header bytes only (a
/// redirect carries no recorded body).
pub open spec fn hop_record_ok(
    r: RedirectInfo,
    prev_url: String,
    resp: HopResponse,
    m: HopMeasure,
) -> bool {
    &&& r.url == prev_url
    &&& r.status == resp.status
    &&& r.status_text == resp.status_text
    &&& r.headers == resp.headers
    &&& r.cookies == resp.set_cookies
    &&& r.timing == hop_timing_spec(m)
    &&& r.size == (ResponseSize {
        headers: headers_size_spec(resp.headers@) as usize,
        body: 0,
        total: headers_size_spec(resp.headers@) as usize,
    })
}

/// The transition relation of the executor: how one handled response takes
/// the exchange from `pre` to `post` with decision `d`.
///
/// A non-redirect response, or a 3xx response without a location header, is
/// terminal and changes nothing. A redirect whose location does not resolve
/// against the current URL fails with `InvalidUrl` before anything is
/// recorded. A resolvable redirect records its hop; it is then followed,
/// unless it was the tenth attempt, which fails with `RedirectLoopExceeded`.
pub open spec fn step_rel(
    pre: Exchange,
    resp: HopResponse,
    m: HopMeasure,
    post: Exchange,
    d: HopDecision,
) -> bool {
    &&& post.hops == pre.hops + 1
    &&& if !redirect_with_location(resp) {
        &&& d == HopDecision::Terminal(resp)
        &&& post.chain == pre.chain
        &&& post.current_url == pre.current_url
    } else {
        match join_of(pre.current_url@, location_of(resp)) {
            None => {
                &&& d == HopDecision::Fail(RequestError::InvalidUrl)
                &&& post.chain == pre.chain
                &&& post.current_url == pre.current_url
            },
            Some(next) => {
                &&& post.chain@.len() == pre.chain@.len() + 1
                &&& post.chain@.take(pre.chain@.len() as int) == pre.chain@
                &&& hop_record_ok(post.chain@.last(), pre.current_url, resp, m)
                &&& if pre.hops == 9 {
                    &&& d == HopDecision::Fail(RequestError::RedirectLoopExceeded)
                    &&& post.current_url == pre.current_url
                } else {
                    &&& d == HopDecision::Follow
                    &&& post.current_url@ == next
                }
            },
        }
    }
}

impl Exchange {
    /// The URL the next hop will target.
    pub open spec fn url(self) -> Seq<char> {
        self.current_url@
    }

    /// The hops recorded so far, oldest first.
    pub open spec fn chain(self) -> Seq<RedirectInfo> {
        self.chain@
    }

    /// How many responses have been handled.
    pub open spec fn hops(self) -> int {
        self.hops as int
    }

    /// Starts an exchange that will first target the request URL.
    pub fn new(url: String) -> (ex: Exchange)
        ensures
            ex.url() == url@,
            ex.chain() == Seq::<RedirectInfo>::empty(),
            ex.hops() == 0,
    {
        let ex = Exchange { current_url: url, chain: Vec::new(), hops: 0 };
        proof {
            assert(ex.chain@ =~= Seq::<RedirectInfo>::empty());
        }
        ex
    }

    /// The URL the next hop targets, for re-issuing the request.
    pub fn current_url(&self) -> (r: &String)
        ensures
            r@ == self.url(),
    {
        &self.current_url
    }

    /// The recorded chain, handed out when the exchange is over.
    pub fn into_chain(self) -> (r: Vec<RedirectInfo>)
        ensures
            r@ == self.chain(),
    {
        self.chain
    }

    /// Handles one hop's response and decides how the exchange goes on.
    pub fn on_response(&mut self, resp: HopResponse, m: &HopMeasure) -> (d: HopDecision)
        requires
            old(self).hops() < 10,
            measure_ok(*m),
            headers_size_spec(resp.headers@) <= usize::MAX,
        ensures
            step_rel(*old(self), resp, *m, *final(self), d),
    {
        let hop_index = self.hops;
        self.hops = self.hops + 1;
        if !status_is_redirect(resp.status) {
            return HopDecision::Terminal(resp);
        }
        let loc = match crate::text::find_ci(&resp.headers, "location") {
            None => {
                return HopDecision::Terminal(resp);
            },
            Some(i) => &resp.headers[i].1,
        };
        let next = match resolve_location(self.current_url.as_str(), loc.as_str()) {
            None => {
                return HopDecision::Fail(RequestError::InvalidUrl);
            },
            Some(next) => next,
        };
        let hsz = headers_size(&resp.headers);
        proof {
            lemma_headers_size_nonneg(resp.headers@);
        }
        let record = RedirectInfo {
            url: self.current_url.clone(),
            status: resp.status,
            status_text: resp.status_text,
            headers: resp.headers,
            cookies: resp.set_cookies,
            timing: crate::timing::make_hop_timing(m),
            size: ResponseSize { headers: hsz, body: 0, total: hsz },
        };
        let ghost pre_chain = self.chain@;
        self.chain.push(record);
        proof {
            assert(self.chain@.take(pre_chain.len() as int) =~= pre_chain);
        }
        if hop_index == 9 {
            HopDecision::Fail(RequestError::RedirectLoopExceeded)
        } else {
            self.current_url = next;
            HopDecision::Follow
        }
    }
}

} // verus!
