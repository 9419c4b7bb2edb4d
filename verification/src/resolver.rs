//! Field-range resolution: matching an ordered pattern table against the
//! body section of a raw buffer and reporting each match as a byte span of
//! the original, undivided buffer.
//!
//! Patterns are evaluated independently and in registry order; a pattern
//! without a match is simply omitted from the result. An empty table yields
//! an empty result.

use vstd::prelude::*;

use crate::matching::first_match;
use crate::matching::lemma_first_match_bounds;
use crate::matching::find_pattern_in;
use crate::matching::FieldPattern;
use crate::matching::PatternSpec;

verus! {

/// The spans of the ordered pattern table `pats` in `body`, each shifted by
/// `off` into the coordinates of the surrounding buffer and carrying its
/// pattern's field name.
pub open spec fn named_ranges_from(body: Seq<u8>, pats: Seq<PatternSpec>, off: int) -> Seq<
    (int, int, Seq<char>),
>
    decreases pats.len(),
{
    if pats.len() == 0 {
        Seq::empty()
    } else {
        let rest = named_ranges_from(body, pats.drop_first(), off);
        match first_match(body, pats.first()) {
            Some(m) => seq![(off + m.0, off + m.1, pats.first().name)] + rest,
            None => rest,
        }
    }
}

/// The same spans without their field names.
pub open spec fn drop_names(rs: Seq<(int, int, Seq<char>)>) -> Seq<(int, int)> {
    rs.map_values(|t: (int, int, Seq<char>)| (t.0, t.1))
}

pub open spec fn pats_view(ps: Seq<FieldPattern>) -> Seq<PatternSpec> {
    ps.map_values(|p: FieldPattern| p@)
}

pub open spec fn named_view(rs: Seq<(usize, usize, String)>) -> Seq<(int, int, Seq<char>)> {
    rs.map_values(|t: (usize, usize, String)| (t.0 as int, t.1 as int, t.2@))
}

pub open spec fn ranges_view(rs: Seq<(usize, usize)>) -> Seq<(int, int)> {
    rs.map_values(|t: (usize, usize)| (t.0 as int, t.1 as int))
}

/// Every resolved span is non-empty and lies between `off` and the end of
/// the surrounding buffer.
pub proof fn lemma_named_ranges_valid(body: Seq<u8>, pats: Seq<PatternSpec>, off: int)
    requires
        0 <= off,
    ensures
        forall|k: int|
            0 <= k < named_ranges_from(body, pats, off).len() ==> {
                let t = #[trigger] named_ranges_from(body, pats, off)[k];
                off <= t.0 < t.1 <= off + body.len()
            },
    decreases pats.len(),
{
    if pats.len() > 0 {
        lemma_named_ranges_valid(body, pats.drop_first(), off);
        lemma_first_match_bounds(body, pats.first());
        let rest = named_ranges_from(body, pats.drop_first(), off);
        match first_match(body, pats.first()) {
            Some(m) => {
                let whole = seq![(off + m.0, off + m.1, pats.first().name)] + rest;
                assert(named_ranges_from(body, pats, off) == whole);
                assert forall|k: int| 0 <= k < whole.len() implies {
                    let t = #[trigger] whole[k];
                    off <= t.0 < t.1 <= off + body.len()
                } by {
                    if k > 0 {
                        assert(whole[k] == rest[k - 1]);
                    }
                }
            },
            None => {
            },
        }
    }
}

/// Matches `pats` in order against `data[body_start..]` and returns one
/// named span per matching pattern, addressed in `data`'s own coordinates.
pub fn resolve_named_ranges(data: &[u8], pats: &Vec<FieldPattern>, body_start: usize) -> (r: Vec<
    (usize, usize, String),
>)
    requires
        body_start <= data.len(),
    ensures
        named_view(r@) == named_ranges_from(
            data@.subrange(body_start as int, data@.len() as int),
            pats_view(pats@),
            body_start as int,
        ),
{
    let ghost body = data@.subrange(body_start as int, data@.len() as int);
    let ghost ps = pats_view(pats@);
    let body_slice = vstd::slice::slice_subrange(data, body_start, data.len());
    let mut r: Vec<(usize, usize, String)> = Vec::new();
    proof {
        assert(ps.skip(0) =~= ps);
        assert(named_view(r@) =~= Seq::<(int, int, Seq<char>)>::empty());
        assert(named_view(r@) + named_ranges_from(body, ps, body_start as int)
            =~= named_ranges_from(body, ps, body_start as int));
    }
    let n = pats.len();
    let mut i: usize = 0;
    while i < n
        invariant
            i <= n,
            n == pats.len(),
            body_start <= data.len(),
            body_slice@ == body,
            body == data@.subrange(body_start as int, data@.len() as int),
            ps == pats_view(pats@),
            named_ranges_from(body, ps, body_start as int) == named_view(r@)
                + named_ranges_from(body, ps.skip(i as int), body_start as int),
        decreases n - i,
    {
        let ghost rest = ps.skip(i as int);
        let ghost off = body_start as int;
        proof {
            assert(rest.first() == ps[i as int]);
            assert(rest.drop_first() =~= ps.skip(i as int + 1));
            assert(ps[i as int] == pats@[i as int]@);
        }
        match find_pattern_in(body_slice, &pats[i]) {
            Some(m) => {
                let ghost r_old = r@;
                let s = body_start + m.0;
                let e = body_start + m.1;
                let name = pats[i].name.clone();
                r.push((s, e, name));
                proof {
                    let elem = (s as int, e as int, ps[i as int].name);
                    assert(named_view(r@) =~= named_view(r_old) + seq![elem]);
                    assert(named_ranges_from(body, rest, off) == seq![elem]
                        + named_ranges_from(body, rest.drop_first(), off));
                    assert(named_view(r_old) + (seq![elem] + named_ranges_from(
                        body,
                        rest.drop_first(),
                        off,
                    )) =~= (named_view(r_old) + seq![elem]) + named_ranges_from(
                        body,
                        rest.drop_first(),
                        off,
                    ));
                }
            },
            None => {
                proof {
                    assert(named_ranges_from(body, rest, off) == named_ranges_from(
                        body,
                        rest.drop_first(),
                        off,
                    ));
                }
            },
        }
        i = i + 1;
    }
    proof {
        assert(ps.skip(n as int) =~= Seq::<PatternSpec>::empty());
        assert(named_ranges_from(body, ps, body_start as int) =~= named_view(r@));
    }
    r
}

} // verus!
