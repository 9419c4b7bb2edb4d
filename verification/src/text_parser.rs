//! Provider-driven transcript parsing.
//!
//! This is the resolver used by the proving flow: field ranges come from
//! the registry of the provider under attestation, and a buffer without a
//! header/body delimiter is treated as all body, so that a raw buffer with
//! no header structure is still scanned in full.

use vstd::prelude::*;

use crate::domain::Provider;
use crate::matching::first_match;
use crate::matching::find_pattern_in;
use crate::patterns::get_field_patterns;
use crate::patterns::get_host_pattern;
use crate::patterns::host_pattern;
use crate::patterns::provider_patterns;
use crate::resolver::drop_names;
use crate::resolver::named_ranges_from;
use crate::resolver::pats_view;
use crate::resolver::ranges_view;
use crate::resolver::resolve_named_ranges;
use crate::splitter::copy_range;
use crate::splitter::find_split_end;
use crate::splitter::lemma_split_end_bounds;
use crate::splitter::split_end;

verus! {

/// Where the body of `h` begins under this module's fallback: after the
/// delimiter when one exists, at the start of the buffer otherwise.
pub open spec fn body_start_spec(h: Seq<u8>) -> int {
    match split_end(h) {
        Some(e) => e,
        None => 0,
    }
}

/// The field ranges of `h` for the pattern table `pats`: each pattern's
/// first match in the body section, shifted into the coordinates of the
/// undivided buffer.
pub open spec fn field_ranges_spec(h: Seq<u8>, pats: Seq<crate::matching::PatternSpec>) -> Seq<
    (int, int),
> {
    drop_names(
        named_ranges_from(h.subrange(body_start_spec(h), h.len() as int), pats, body_start_spec(h)),
    )
}

/// Splits a raw buffer into header section (up to and including the
/// delimiter) and body section. A buffer without a delimiter is returned
/// whole as the body, with an empty header.
pub fn parse_response_data(response_data: &[u8]) -> (r: (Vec<u8>, Vec<u8>))
    ensures
        match split_end(response_data@) {
            Some(e) => r.0@ == response_data@.subrange(0, e) && r.1@ == response_data@.subrange(
                e,
                response_data@.len() as int,
            ),
            None => r.0@ == Seq::<u8>::empty() && r.1@ == response_data@,
        },
{
    proof {
        lemma_split_end_bounds(response_data@);
    }
    match find_split_end(response_data) {
        Some(e) => {
            let header = copy_range(response_data, 0, e);
            let body = copy_range(response_data, e, response_data.len());
            (header, body)
        },
        None => {
            let body = copy_range(response_data, 0, response_data.len());
            assert(body@ =~= response_data@);
            (Vec::new(), body)
        },
    }
}

/// The first match of each of `provider`'s field patterns, in registry
/// order, as byte spans of the raw, undivided buffer. A provider with an
/// empty registry yields an empty result; so does a pattern that matches
/// nowhere. Neither is an error.
pub fn find_field_ranges(response_data: &[u8], provider: &Provider) -> (r: Vec<(usize, usize)>)
    ensures
        ranges_view(r@) == field_ranges_spec(response_data@, provider_patterns(*provider)),
{
    proof {
        lemma_split_end_bounds(response_data@);
    }
    let body_start: usize = match find_split_end(response_data) {
        Some(e) => e,
        None => 0,
    };
    let pats = get_field_patterns(provider);
    proof {
        assert(pats_view(pats@) =~= provider_patterns(*provider));
    }
    let named = resolve_named_ranges(response_data, &pats, body_start);
    let mut r: Vec<(usize, usize)> = Vec::new();
    let n = named.len();
    let mut i: usize = 0;
    while i < n
        invariant
            i <= n,
            n == named.len(),
            r@.len() == i as int,
            forall|k: int| 0 <= k < i as int ==> r@[k] == (named@[k].0, named@[k].1),
        decreases n - i,
    {
        r.push((named[i].0, named[i].1));
        i = i + 1;
    }
    proof {
        assert(ranges_view(r@) =~= drop_names(crate::resolver::named_view(named@)));
    }
    r
}

/// The exact byte span of the `host: <value>` line in the sent buffer, or
/// `None` when the buffer holds no such line. The whole buffer is scanned,
/// without a header/body split. Absence is a hard failure for commitment,
/// which cannot proceed without a host binding.
pub fn find_host_header_range(request_data: &[u8]) -> (r: Option<(usize, usize)>)
    ensures
        r is Some <==> first_match(request_data@, host_pattern()) is Some,
        r matches Some(m) ==> first_match(request_data@, host_pattern()) == Some((
            m.0 as int,
            m.1 as int,
        )),
        r matches Some(m) ==> m.0 < m.1 <= request_data@.len(),
{
    let host = get_host_pattern();
    find_pattern_in(request_data, &host)
}

} // verus!
