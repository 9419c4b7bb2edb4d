//! HTTP message splitter: finds the header/body delimiter in a raw byte
//! buffer.
//!
//! The delimiter is the leftmost occurrence of `\r\n\r\n`, falling back to
//! `\n\n` at the same scan position. What happens when no delimiter exists
//! differs by call site and is part of the contract: one caller treats the
//! whole buffer as body, the reciprocal caller treats it as header. The two
//! split functions therefore live with their callers; this module only
//! locates the delimiter.

use vstd::prelude::*;

verus! {

/// End offset of a header/body delimiter starting at `i`: four bytes for
/// `\r\n\r\n`, two for `\n\n`, and no delimiter otherwise.
pub open spec fn sep_end_at(h: Seq<u8>, i: int) -> Option<int> {
    if 0 <= i && i + 4 <= h.len() && h[i] == '\r' as u8 && h[i + 1] == '\n' as u8 && h[i + 2]
        == '\r' as u8 && h[i + 3] == '\n' as u8 {
        Some(i + 4)
    } else if 0 <= i && i + 2 <= h.len() && h[i] == '\n' as u8 && h[i + 1] == '\n' as u8 {
        Some(i + 2)
    } else {
        None
    }
}

/// End offset of the leftmost delimiter at or after `i`.
pub open spec fn split_end_from(h: Seq<u8>, i: int) -> Option<int>
    decreases h.len() - i,
{
    if i < 0 || i >= h.len() {
        None
    } else if sep_end_at(h, i) is Some {
        sep_end_at(h, i)
    } else {
        split_end_from(h, i + 1)
    }
}

/// End offset of the leftmost header/body delimiter of `h`: the header
/// section is everything up to and including the delimiter, the body is
/// everything after.
pub open spec fn split_end(h: Seq<u8>) -> Option<int> {
    split_end_from(h, 0)
}

pub proof fn lemma_split_end_from_bounds(h: Seq<u8>, i: int)
    requires
        0 <= i,
    ensures
        split_end_from(h, i) matches Some(e) ==> 0 < e <= h.len(),
    decreases h.len() - i,
{
    if i < h.len() && sep_end_at(h, i) is None {
        lemma_split_end_from_bounds(h, i + 1);
    }
}

/// The delimiter end is always inside the buffer.
pub proof fn lemma_split_end_bounds(h: Seq<u8>)
    ensures
        split_end(h) matches Some(e) ==> 0 < e <= h.len(),
{
    lemma_split_end_from_bounds(h, 0);
}

/// End offset of the leftmost header/body delimiter, or `None` when the
/// buffer holds no delimiter.
pub fn find_split_end(h: &[u8]) -> (r: Option<usize>)
    ensures
        r is Some <==> split_end(h@) is Some,
        r matches Some(e) ==> split_end(h@) == Some(e as int) && 0 < e <= h.len(),
{
    proof {
        lemma_split_end_bounds(h@);
    }
    let n = h.len();
    let mut i: usize = 0;
    while i < n
        invariant
            i <= n,
            n == h.len(),
            split_end(h@) == split_end_from(h@, i as int),
        decreases n - i,
    {
        if n - i >= 4 && h[i] == 13u8 && h[i + 1] == 10u8 && h[i + 2] == 13u8 && h[i + 3] == 10u8 {
            assert(sep_end_at(h@, i as int) == Some(i + 4int));
            return Some(i + 4);
        }
        if n - i >= 2 && h[i] == 10u8 && h[i + 1] == 10u8 {
            assert(sep_end_at(h@, i as int) == Some(i + 2int));
            return Some(i + 2);
        }
        assert(sep_end_at(h@, i as int) is None);
        i = i + 1;
    }
    None
}

/// A copy of `h[from..to]` as an owned vector.
pub fn copy_range(h: &[u8], from: usize, to: usize) -> (r: Vec<u8>)
    requires
        from <= to <= h.len(),
    ensures
        r@ == h@.subrange(from as int, to as int),
{
    let mut v: Vec<u8> = Vec::new();
    let mut k: usize = from;
    while k < to
        invariant
            from <= k <= to <= h.len(),
            v@.len() == k - from,
            forall|m: int| 0 <= m < v@.len() ==> v@[m] == h@[from + m],
        decreases to - k,
    {
        v.push(h[k]);
        k = k + 1;
    }
    assert(v@ =~= h@.subrange(from as int, to as int));
    v
}

} // verus!
