//! Cookie bookkeeping: the `name=value` pair composed for the jar, and the
//! accumulation of every `set-cookie` value seen during an exchange —
//! redirect-hop cookies first, final-response cookies last, discovery order
//! preserved and duplicates retained.
use crate::types::{Cookie, RedirectInfo};
use vstd::prelude::*;
use vstd::string::StringExecFns;

verus! {

/// Every `set-cookie` value recorded along the redirect chain, in hop order
/// and, within one hop, in arrival order.
pub open spec fn chain_cookies(chain: Seq<RedirectInfo>) -> Seq<String>
    decreases chain.len(),
{
    if chain.len() == 0 {
        Seq::empty()
    } else {
        chain_cookies(chain.drop_last()) + chain.last().cookies@
    }
}

/// All cookies of one exchange: the redirect-chain cookies followed by the
/// final response's cookies.
pub open spec fn accumulated_cookies(chain: Seq<RedirectInfo>, fin: Seq<String>) -> Seq<String> {
    chain_cookies(chain) + fin
}

/// One more recorded hop contributes its cookies at the end.
pub proof fn lemma_chain_cookies_take_step(chain: Seq<RedirectInfo>, i: int)
    requires
        0 <= i < chain.len(),
    ensures
        chain_cookies(chain.take(i + 1)) == chain_cookies(chain.take(i)) + chain[i].cookies@,
{
    assert(chain.take(i + 1).drop_last() =~= chain.take(i));
    assert(chain.take(i + 1).last() == chain[i]);
}

/// Composes the `name=value` pair handed to the cookie jar. The cookie's
/// other attributes are not transmitted.
pub fn cookie_pair(c: &Cookie) -> (r: String)
    ensures
        r@ == c.name@ + "="@ + c.value@,
{
    let mut s = c.name.clone();
    s.append("=");
    s.append(c.value.as_str());
    s
}

/// Collects all cookies of one exchange, oldest first.
pub fn accumulate_cookies(chain: &Vec<RedirectInfo>, fin: &Vec<String>) -> (r: Vec<String>)
    ensures
        r@ == accumulated_cookies(chain@, fin@),
{
    let mut all: Vec<String> = Vec::new();
    let n = chain.len();
    proof {
        assert(chain@.take(0) =~= Seq::<RedirectInfo>::empty());
        assert(all@ =~= chain_cookies(chain@.take(0)));
    }
    let mut i: usize = 0;
    while i < n
        invariant
            n == chain@.len(),
            i <= n,
            all@ == chain_cookies(chain@.take(i as int)),
        decreases n - i,
    {
        let m = chain[i].cookies.len();
        proof {
            assert(chain@[i as int].cookies@.take(0) =~= Seq::<String>::empty());
            assert(all@ =~= chain_cookies(chain@.take(i as int)) + chain@[i as int].cookies@.take(
                0,
            ));
        }
        let mut j: usize = 0;
        while j < m
            invariant
                n == chain@.len(),
                i < n,
                m == chain@[i as int].cookies@.len(),
                j <= m,
                all@ == chain_cookies(chain@.take(i as int)) + chain@[i as int].cookies@.take(
                    j as int,
                ),
            decreases m - j,
        {
            all.push(chain[i].cookies[j].clone());
            proof {
                assert(chain@[i as int].cookies@.take(j as int + 1) =~= chain@[i as int].cookies@
                    .take(j as int).push(chain@[i as int].cookies@[j as int]));
            }
            j = j + 1;
        }
        proof {
            lemma_chain_cookies_take_step(chain@, i as int);
            assert(chain@[i as int].cookies@.take(m as int) =~= chain@[i as int].cookies@);
        }
        i = i + 1;
    }
    proof {
        assert(chain@.take(n as int) =~= chain@);
    }
    let k = fin.len();
    proof {
        assert(fin@.take(0) =~= Seq::<String>::empty());
        assert(all@ =~= chain_cookies(chain@) + fin@.take(0));
    }
    let mut j: usize = 0;
    while j < k
        invariant
            k == fin@.len(),
            j <= k,
            all@ == chain_cookies(chain@) + fin@.take(j as int),
        decreases k - j,
    {
        all.push(fin[j].clone());
        proof {
            assert(fin@.take(j as int + 1) =~= fin@.take(j as int).push(fin@[j as int]));
        }
        j = j + 1;
    }
    proof {
        assert(fin@.take(k as int) =~= fin@);
    }
    all
}

} // verus!
