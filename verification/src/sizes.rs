//! Byte-count accounting: the encoded size of a header block is the sum of
//! `len(name) + len(value) + 4` over its headers, the `+4` standing for the
//! notional `": "` separator and line terminator. Lengths are UTF-8 byte
//! lengths.
use vstd::prelude::*;
use vstd::utf8::encode_utf8;

verus! {

/// The UTF-8 byte length of a character sequence.
pub open spec fn byte_len(s: Seq<char>) -> nat {
    encode_utf8(s).len()
}

/// The encoded byte count of one header line.
pub open spec fn header_pair_size(p: (String, String)) -> int {
    byte_len(p.0@) + byte_len(p.1@) + 4int
}

/// The encoded byte count of a whole header block.
pub open spec fn headers_size_spec(h: Seq<(String, String)>) -> int
    decreases h.len(),
{
    if h.len() == 0 {
        0
    } else {
        headers_size_spec(h.drop_last()) + header_pair_size(h.last())
    }
}

/// The size of a header block is never negative.
pub proof fn lemma_headers_size_nonneg(h: Seq<(String, String)>)
    ensures
        headers_size_spec(h) >= 0,
    decreases h.len(),
{
    if h.len() > 0 {
        lemma_headers_size_nonneg(h.drop_last());
    }
}

/// Extending a header block by one line adds that line's size.
pub proof fn lemma_headers_size_take_step(h: Seq<(String, String)>, i: int)
    requires
        0 <= i < h.len(),
    ensures
        headers_size_spec(h.take(i + 1)) == headers_size_spec(h.take(i)) + header_pair_size(h[i]),
{
    assert(h.take(i + 1).drop_last() =~= h.take(i));
    assert(h.take(i + 1).last() == h[i]);
}

/// A prefix of a header block is no larger than the whole block.
pub proof fn lemma_headers_size_prefix(h: Seq<(String, String)>, i: int)
    requires
        0 <= i <= h.len(),
    ensures
        headers_size_spec(h.take(i)) <= headers_size_spec(h),
    decreases h.len() - i,
{
    if i == h.len() {
        assert(h.take(i) =~= h);
    } else {
        lemma_headers_size_take_step(h, i);
        lemma_headers_size_prefix(h, i + 1);
    }
}

/// Computes the encoded byte count of a header block.
pub fn headers_size(h: &Vec<(String, String)>) -> (n: usize)
    requires
        headers_size_spec(h@) <= usize::MAX,
    ensures
        n == headers_size_spec(h@),
{
    let len = h.len();
    let mut sum: usize = 0;
    proof {
        assert(h@.take(0) =~= Seq::<(String, String)>::empty());
    }
    let mut i: usize = 0;
    while i < len
        invariant
            len == h@.len(),
            i <= len,
            headers_size_spec(h@) <= usize::MAX,
            sum == headers_size_spec(h@.take(i as int)),
        decreases len - i,
    {
        proof {
            lemma_headers_size_take_step(h@, i as int);
            lemma_headers_size_prefix(h@, i as int + 1);
        }
        sum = sum + h[i].0.as_str().len() + h[i].1.as_str().len() + 4;
        i = i + 1;
    }
    proof {
        assert(h@.take(len as int) =~= h@);
    }
    sum
}

} // verus!
