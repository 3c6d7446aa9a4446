//! The executor's laws, proved over its transition relation: a run of
//! followed redirects ending in a terminal response records exactly one hop
//! per redirect in traversal order; ten redirects fail with
//! `RedirectLoopExceeded` after all ten hops were recorded; a 3xx response
//! without a location header ends the exchange with nothing recorded; every
//! recorded size is internally consistent; and accumulated cookies keep
//! discovery order, redirect hops before the final response.
use crate::cookies::{accumulated_cookies, chain_cookies};
use crate::exchange::{
    hop_record_ok, location_of, redirect_with_location, step_rel, Exchange, HopDecision,
};
use crate::is_redirect_status;
use crate::text::lookup_ci;
use crate::types::{HopMeasure, HopResponse, RedirectInfo, RequestError, ResponseSize};
use crate::urls::join_of;
use vstd::prelude::*;

verus! {

/// A size record that adds up: the total is headers plus body.
pub open spec fn size_consistent(s: ResponseSize) -> bool {
    s.total == s.headers + s.body
}

/// After `n` followed redirects from a fresh exchange, the chain holds
/// exactly one record per hop, each recording its hop's URL, response and
/// measure, in traversal order.
pub proof fn lemma_follow_run(
    states: Seq<Exchange>,
    resps: Seq<HopResponse>,
    ms: Seq<HopMeasure>,
    n: int,
)
    requires
        0 <= n,
        states.len() >= n + 1,
        resps.len() >= n,
        ms.len() >= n,
        states[0].chain().len() == 0,
        states[0].hops() == 0,
        forall|i: int|
            0 <= i < n ==> step_rel(states[i], resps[i], ms[i], states[i + 1], HopDecision::Follow),
    ensures
        states[n].hops() == n,
        states[n].chain().len() == n,
        forall|i: int|
            0 <= i < n ==> hop_record_ok(
                states[n].chain()[i],
                states[i].current_url,
                resps[i],
                ms[i],
            ),
    decreases n,
{
    if n > 0 {
        lemma_follow_run(states, resps, ms, n - 1);
        assert(step_rel(states[n - 1], resps[n - 1], ms[n - 1], states[n], HopDecision::Follow));
        assert(states[n].chain().take(n - 1) == states[n - 1].chain());
        assert forall|i: int| 0 <= i < n implies hop_record_ok(
            states[n].chain()[i],
            states[i].current_url,
            resps[i],
            ms[i],
        ) by {
            if i < n - 1 {
                assert(states[n].chain()[i] == states[n].chain().take(n - 1)[i]);
            } else {
                assert(states[n].chain()[i] == states[n].chain().last());
            }
        }
    }
}

/// A run of at most nine followed redirects ending in a response that is
/// not followed is terminal, and the chain length equals the number of
/// redirect hops traversed, recorded in traversal order.
pub proof fn lemma_chain_matches_traversal(
    states: Seq<Exchange>,
    resps: Seq<HopResponse>,
    ms: Seq<HopMeasure>,
    k: int,
    d: HopDecision,
)
    requires
        0 <= k <= 9,
        states.len() == k + 2,
        resps.len() == k + 1,
        ms.len() == k + 1,
        states[0].chain().len() == 0,
        states[0].hops() == 0,
        forall|i: int|
            0 <= i < k ==> step_rel(states[i], resps[i], ms[i], states[i + 1], HopDecision::Follow),
        step_rel(states[k], resps[k], ms[k], states[k + 1], d),
        !redirect_with_location(resps[k]),
    ensures
        d == HopDecision::Terminal(resps[k]),
        states[k + 1].chain().len() == k,
        forall|i: int|
            0 <= i < k ==> hop_record_ok(
                states[k + 1].chain()[i],
                states[i].current_url,
                resps[i],
                ms[i],
            ),
{
    lemma_follow_run(states, resps, ms, k);
}

/// A response chain that redirects on all ten attempts fails with
/// `RedirectLoopExceeded`, and the chain recorded in that failure holds
/// exactly ten entries, one per attempted hop, in traversal order.
pub proof fn lemma_redirect_loop_exceeded(
    states: Seq<Exchange>,
    resps: Seq<HopResponse>,
    ms: Seq<HopMeasure>,
    d: HopDecision,
)
    requires
        states.len() == 11,
        resps.len() == 10,
        ms.len() == 10,
        states[0].chain().len() == 0,
        states[0].hops() == 0,
        forall|i: int|
            0 <= i < 9 ==> step_rel(states[i], resps[i], ms[i], states[i + 1], HopDecision::Follow),
        step_rel(states[9], resps[9], ms[9], states[10], d),
        redirect_with_location(resps[9]),
        join_of(states[9].current_url@, location_of(resps[9])) is Some,
    ensures
        d == HopDecision::Fail(RequestError::RedirectLoopExceeded),
        states[10].chain().len() == 10,
        forall|i: int|
            0 <= i < 10 ==> hop_record_ok(
                states[10].chain()[i],
                states[i].current_url,
                resps[i],
                ms[i],
            ),
{
    lemma_follow_run(states, resps, ms, 9);
    assert(states[10].chain().take(9) == states[9].chain());
    assert forall|i: int| 0 <= i < 10 implies hop_record_ok(
        states[10].chain()[i],
        states[i].current_url,
        resps[i],
        ms[i],
    ) by {
        if i < 9 {
            assert(states[10].chain()[i] == states[10].chain().take(9)[i]);
        } else {
            assert(states[10].chain()[i] == states[10].chain().last());
        }
    }
}

/// A 3xx response lacking a location header is terminal: the decision hands
/// the response back, and the chain and current URL are unchanged.
pub proof fn lemma_missing_location_is_terminal(
    pre: Exchange,
    resp: HopResponse,
    m: HopMeasure,
    post: Exchange,
    d: HopDecision,
)
    requires
        step_rel(pre, resp, m, post, d),
        is_redirect_status(resp.status),
        lookup_ci(resp.headers@, "location"@) is None,
    ensures
        d == HopDecision::Terminal(resp),
        post.chain() == pre.chain(),
        post.url() == pre.url(),
{
}

/// Every recorded hop's size adds up, and one handled response keeps it so:
/// a redirect hop records header bytes only, with a body of zero.
pub proof fn lemma_step_keeps_sizes_consistent(
    pre: Exchange,
    resp: HopResponse,
    m: HopMeasure,
    post: Exchange,
    d: HopDecision,
)
    requires
        step_rel(pre, resp, m, post, d),
        forall|j: int| 0 <= j < pre.chain().len() ==> size_consistent(#[trigger] pre.chain()[j].size),
    ensures
        forall|j: int|
            0 <= j < post.chain().len() ==> size_consistent(#[trigger] post.chain()[j].size),
{
    if redirect_with_location(resp) && join_of(pre.current_url@, location_of(resp)) is Some {
        assert forall|j: int| 0 <= j < post.chain().len() implies size_consistent(
            #[trigger] post.chain()[j].size,
        ) by {
            if j < pre.chain().len() {
                assert(post.chain()[j] == post.chain().take(pre.chain().len() as int)[j]);
            } else {
                assert(post.chain()[j] == post.chain().last());
            }
        }
    } else {
        assert(post.chain() == pre.chain());
        assert forall|j: int| 0 <= j < post.chain().len() implies size_consistent(
            #[trigger] post.chain()[j].size,
        ) by {
            assert(post.chain()[j] == pre.chain()[j]);
        }
    }
}

/// One handled response grows the chain by at most one record, so the chain
/// never outruns the hop count: an exchange that starts empty keeps
/// `chain.len() <= hops`, and since the executor handles at most ten
/// responses, at most ten hops are ever recorded.
pub proof fn lemma_chain_bounded_by_hops(
    pre: Exchange,
    resp: HopResponse,
    m: HopMeasure,
    post: Exchange,
    d: HopDecision,
)
    requires
        step_rel(pre, resp, m, post, d),
        pre.chain().len() <= pre.hops(),
    ensures
        post.hops() == pre.hops() + 1,
        pre.chain().len() <= post.chain().len() <= pre.chain().len() + 1,
        post.chain().len() <= post.hops(),
{
}

/// Accumulated cookies preserve discovery order: every redirect-hop cookie
/// stands before every final-response cookie, both in their own order, and
/// duplicates are retained.
pub proof fn lemma_cookie_order(chain: Seq<RedirectInfo>, fin: Seq<String>)
    ensures
        accumulated_cookies(chain, fin).len() == chain_cookies(chain).len() + fin.len(),
        forall|i: int|
            0 <= i < chain_cookies(chain).len() ==> accumulated_cookies(chain, fin)[i]
                == chain_cookies(chain)[i],
        forall|i: int|
            0 <= i < fin.len() ==> accumulated_cookies(chain, fin)[chain_cookies(chain).len() + i]
                == fin[i],
{
}

/// One more recorded hop contributes its cookies after all earlier ones.
pub proof fn lemma_chain_cookies_push(chain: Seq<RedirectInfo>, r: RedirectInfo)
    ensures
        chain_cookies(chain.push(r)) == chain_cookies(chain) + r.cookies@,
{
    assert(chain.push(r).drop_last() =~= chain);
    assert(chain.push(r).last() == r);
}

} // verus!
