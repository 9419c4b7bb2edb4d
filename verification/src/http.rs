//! Wise-table transcript parsing with named results.
//!
//! This is the resolver used when building a presentation from persisted
//! artifacts: it reports each matched field under its semantic name. Its
//! fallback is the reciprocal of `text_parser`'s: a buffer without a
//! header/body delimiter is treated as all header with an empty body, so
//! that no field is resolved from a buffer with no header structure.

use vstd::prelude::*;

use crate::matching::first_match;
use crate::matching::find_pattern_in;
use crate::matching::PatternSpec;
use crate::patterns::get_field_patterns;
use crate::patterns::get_host_pattern;
use crate::patterns::host_pattern;
use crate::patterns::provider_patterns;
use crate::patterns::wise_patterns;
use crate::resolver::named_ranges_from;
use crate::resolver::named_view;
use crate::resolver::pats_view;
use crate::resolver::resolve_named_ranges;
use crate::splitter::copy_range;
use crate::splitter::find_split_end;
use crate::splitter::lemma_split_end_bounds;
use crate::splitter::split_end;

verus! {

/// Where the body of `h` begins under this module's fallback: after the
/// delimiter when one exists, at the end of the buffer otherwise (the body
/// is then empty).
pub open spec fn body_start_spec(h: Seq<u8>) -> int {
    match split_end(h) {
        Some(e) => e,
        None => h.len() as int,
    }
}

/// The named field ranges of `h` for the pattern table `pats`, addressed
/// in the coordinates of the undivided buffer.
pub open spec fn named_field_ranges_spec(h: Seq<u8>, pats: Seq<PatternSpec>) -> Seq<
    (int, int, Seq<char>),
> {
    named_ranges_from(h.subrange(body_start_spec(h), h.len() as int), pats, body_start_spec(h))
}

/// Splits a raw buffer into header section and body section. A buffer
/// without a delimiter is returned whole as the header, with an empty
/// body.
pub fn parse_response_data(response_data: &[u8]) -> (r: (Vec<u8>, Vec<u8>))
    ensures
        match split_end(response_data@) {
            Some(e) => r.0@ == response_data@.subrange(0, e) && r.1@ == response_data@.subrange(
                e,
                response_data@.len() as int,
            ),
            None => r.0@ == response_data@ && r.1@ == Seq::<u8>::empty(),
        },
{
    proof {
        lemma_split_end_bounds(response_data@);
    }
    match find_split_end(response_data) {
        Some(e) => {
            let header = copy_range(response_data, 0, e);
            let body = copy_range(response_data, e, response_data.len());
            (header, body)
        },
        None => {
            let header = copy_range(response_data, 0, response_data.len());
            assert(header@ =~= response_data@);
            (header, Vec::new())
        },
    }
}

/// The first match of each Wise field pattern, in registry order, each
/// reported under its field name as a byte span of the raw, undivided
/// buffer. A pattern that matches nowhere is omitted.
pub fn find_field_ranges(response_data: &[u8]) -> (r: Vec<(usize, usize, String)>)
    ensures
        named_view(r@) == named_field_ranges_spec(response_data@, wise_patterns()),
{
    proof {
        lemma_split_end_bounds(response_data@);
    }
    let body_start: usize = match find_split_end(response_data) {
        Some(e) => e,
        None => response_data.len(),
    };
    let pats = get_field_patterns(&crate::domain::Provider::Wise);
    proof {
        assert(pats_view(pats@) =~= provider_patterns(crate::domain::Provider::Wise));
    }
    resolve_named_ranges(response_data, &pats, body_start)
}

/// When the buffer holds a header/body delimiter the two resolvers split
/// it identically, so they report the same spans; they differ only on a
/// buffer without a delimiter, where this module resolves nothing.
pub proof fn lemma_resolvers_agree_when_delimited(h: Seq<u8>, pats: Seq<PatternSpec>)
    requires
        split_end(h) is Some,
    ensures
        crate::resolver::drop_names(named_field_ranges_spec(h, pats))
            == crate::text_parser::field_ranges_spec(h, pats),
{
    assert(body_start_spec(h) == crate::text_parser::body_start_spec(h));
}

/// The header list of an attested provider request: the common headers of
/// every request, followed by the caller's extra headers in their given
/// order. `Accept-Encoding: identity` instructs the server not to
/// compress its response: ranges are resolved against the literal
/// transcript bytes, which compression would scramble.
pub fn request_headers(server_name: &str, user_agent: &str, extra: &Vec<(&str, &str)>) -> (r: Vec<
    (String, String),
>)
    ensures
        r@.len() == 5 + extra@.len(),
        r@[0].0@ == "Host"@ && r@[0].1@ == server_name@,
        r@[1].0@ == "Accept"@ && r@[1].1@ == "*/*"@,
        r@[2].0@ == "Accept-Encoding"@ && r@[2].1@ == "identity"@,
        r@[3].0@ == "Connection"@ && r@[3].1@ == "close"@,
        r@[4].0@ == "User-Agent"@ && r@[4].1@ == user_agent@,
        forall|i: int|
            0 <= i < extra@.len() ==> (#[trigger] r@[5 + i]).0@ == extra@[i].0@ && r@[5 + i].1@
                == extra@[i].1@,
{
    let mut r: Vec<(String, String)> = Vec::new();
    r.push(("Host".to_owned(), server_name.to_owned()));
    r.push(("Accept".to_owned(), "*/*".to_owned()));
    r.push(("Accept-Encoding".to_owned(), "identity".to_owned()));
    r.push(("Connection".to_owned(), "close".to_owned()));
    r.push(("User-Agent".to_owned(), user_agent.to_owned()));
    let n = extra.len();
    let mut i: usize = 0;
    while i < n
        invariant
            i <= n,
            n == extra@.len(),
            r@.len() == 5 + i as int,
            r@[0].0@ == "Host"@ && r@[0].1@ == server_name@,
            r@[1].0@ == "Accept"@ && r@[1].1@ == "*/*"@,
            r@[2].0@ == "Accept-Encoding"@ && r@[2].1@ == "identity"@,
            r@[3].0@ == "Connection"@ && r@[3].1@ == "close"@,
            r@[4].0@ == "User-Agent"@ && r@[4].1@ == user_agent@,
            forall|k: int|
                0 <= k < i as int ==> (#[trigger] r@[5 + k]).0@ == extra@[k].0@ && r@[5 + k].1@
                    == extra@[k].1@,
        decreases n - i,
    {
        r.push((extra[i].0.to_owned(), extra[i].1.to_owned()));
        i = i + 1;
    }
    r
}

/// The exact byte span of the `host: <value>` line in the sent buffer, or
/// `None` when the buffer holds no such line.
pub fn find_host_header_range(request_data: &[u8]) -> (r: Option<(usize, usize)>)
    ensures
        r is Some <==> first_match(request_data@, host_pattern()) is Some,
        r matches Some(m) ==> first_match(request_data@, host_pattern()) == Some((
            m.0 as int,
            m.1 as int,
        )),
        r matches Some(m) ==> m.0 < m.1 <= request_data@.len(),
{
    let host = get_host_pattern();
    find_pattern_in(request_data, &host)
}

} // verus!
