//! Selective disclosure planning.
//!
//! A disclosure plan is the `host:` header span of the sent buffer plus
//! the field spans of the received buffer for the provider's registry. The
//! same derivation runs at commit time (immediately after a live session)
//! and at reveal time (possibly in another process, after reloading the
//! transcript from persisted secrets); because it is a pure function of
//! the transcript bytes and the registry, the two runs agree byte for
//! byte, which is what lets every revealed range fall inside a committed
//! one.

use vstd::prelude::*;

use crate::domain::Provider;
use crate::matching::first_match;
use crate::matching::lemma_first_match_bounds;
use crate::matching::PatternSpec;
use crate::patterns::host_pattern;
use crate::patterns::provider_patterns;
use crate::resolver::drop_names;
use crate::resolver::lemma_named_ranges_valid;
use crate::resolver::named_ranges_from;
use crate::resolver::ranges_view;
use crate::splitter::lemma_split_end_bounds;
use crate::text_parser::body_start_spec;
use crate::text_parser::field_ranges_spec;
use crate::text_parser::find_field_ranges;
use crate::text_parser::find_host_header_range;

verus! {

/// The ranges a commitment or a reveal is built from: the host header span
/// in the sent buffer and the field spans in the received buffer.
pub struct DisclosurePlan {
    pub host_range: (usize, usize),
    pub field_ranges: Vec<(usize, usize)>,
}

/// Why a plan could not be derived.
#[derive(Debug, Clone, Copy, PartialEq, Eq, Structural)]
pub enum PlanError {
    /// The sent buffer holds no `host:` header line. Commitment cannot
    /// proceed without a host binding.
    HostHeaderMissing,
}

/// The host span that a plan for `sent` uses.
pub open spec fn plan_host_spec(sent: Seq<u8>) -> Option<(int, int)> {
    first_match(sent, host_pattern())
}

/// The field spans that a plan for `received` under `provider` uses.
pub open spec fn plan_fields_spec(received: Seq<u8>, provider: Provider) -> Seq<(int, int)> {
    field_ranges_spec(received, provider_patterns(provider))
}

/// Derives the disclosure plan of a transcript: the `host:` header span of
/// `sent` and the registry field spans of `received`.
///
/// Succeeds exactly when `sent` holds a `host:` line; a sent buffer
/// without one cannot be bound to a server identity and is rejected. An
/// empty or unmatched field registry is not an error: the plan then holds
/// an empty field list.
pub fn compute_disclosure_plan(sent: &[u8], received: &[u8], provider: &Provider) -> (r: Result<
    DisclosurePlan,
    PlanError,
>)
    ensures
        r is Ok <==> plan_host_spec(sent@) is Some,
        r matches Ok(p) ==> plan_host_spec(sent@) == Some(
            (p.host_range.0 as int, p.host_range.1 as int),
        ),
        r matches Ok(p) ==> ranges_view(p.field_ranges@) == plan_fields_spec(received@, *provider),
        r matches Err(e) ==> e == PlanError::HostHeaderMissing,
{
    let host_range = match find_host_header_range(sent) {
        Some(m) => m,
        None => {
            return Err(PlanError::HostHeaderMissing);
        },
    };
    let field_ranges = find_field_ranges(received, provider);
    Ok(DisclosurePlan { host_range, field_ranges })
}

/// Commit/reveal agreement: any two plan derivations from the same
/// transcript bytes and the same registry yield byte-for-byte identical
/// range sets. Reveal-time ranges are therefore exactly the committed
/// ranges, never a shifted or widened variant of them.
pub proof fn lemma_commit_reveal_agreement(
    sent: Seq<u8>,
    received: Seq<u8>,
    provider: Provider,
    host1: Option<(int, int)>,
    host2: Option<(int, int)>,
    fields1: Seq<(int, int)>,
    fields2: Seq<(int, int)>,
)
    requires
        host1 == plan_host_spec(sent),
        host2 == plan_host_spec(sent),
        fields1 == plan_fields_spec(received, provider),
        fields2 == plan_fields_spec(received, provider),
    ensures
        host1 == host2,
        fields1 == fields2,
{
}

/// Determinism of the resolvers: both range finders are pure functions of
/// the raw bytes and the registry, so any two results that meet their
/// contracts are identical.
pub proof fn lemma_resolution_deterministic(
    data: Seq<u8>,
    pats: Seq<PatternSpec>,
    ranges1: Seq<(int, int)>,
    ranges2: Seq<(int, int)>,
    host1: Option<(int, int)>,
    host2: Option<(int, int)>,
)
    requires
        ranges1 == field_ranges_spec(data, pats),
        ranges2 == field_ranges_spec(data, pats),
        host1 == first_match(data, host_pattern()),
        host2 == first_match(data, host_pattern()),
    ensures
        ranges1 == ranges2,
        host1 == host2,
{
}

/// Range validity: every field span is a non-empty, in-bounds range of the
/// raw buffer, and so is the host span.
pub proof fn lemma_ranges_valid(data: Seq<u8>, pats: Seq<PatternSpec>)
    ensures
        forall|k: int|
            0 <= k < field_ranges_spec(data, pats).len() ==> {
                let t = #[trigger] field_ranges_spec(data, pats)[k];
                0 <= t.0 < t.1 <= data.len()
            },
        plan_host_spec(data) matches Some(m) ==> 0 <= m.0 < m.1 <= data.len(),
{
    lemma_split_end_bounds(data);
    let bs = body_start_spec(data);
    let body = data.subrange(bs, data.len() as int);
    lemma_named_ranges_valid(body, pats, bs);
    assert(field_ranges_spec(data, pats) == drop_names(named_ranges_from(body, pats, bs)));
    assert forall|k: int| 0 <= k < field_ranges_spec(data, pats).len() implies {
        let t = #[trigger] field_ranges_spec(data, pats)[k];
        0 <= t.0 < t.1 <= data.len()
    } by {
        assert(field_ranges_spec(data, pats)[k] == (
            named_ranges_from(body, pats, bs)[k].0,
            named_ranges_from(body, pats, bs)[k].1,
        ));
        assert(bs + body.len() <= data.len());
    }
    lemma_first_match_bounds(data, host_pattern());
}

/// Registry emptiness is non-fatal: an empty pattern table resolves to an
/// empty range set on every buffer, without error.
pub proof fn lemma_empty_registry_yields_no_ranges(data: Seq<u8>)
    ensures
        field_ranges_spec(data, Seq::<PatternSpec>::empty()) == Seq::<(int, int)>::empty(),
        plan_fields_spec(data, Provider::PayPal) == Seq::<(int, int)>::empty(),
{
    let bs = body_start_spec(data);
    let body = data.subrange(bs, data.len() as int);
    assert(named_ranges_from(body, Seq::<PatternSpec>::empty(), bs) == Seq::<
        (int, int, Seq<char>),
    >::empty());
    assert(drop_names(Seq::<(int, int, Seq<char>)>::empty()) =~= Seq::<(int, int)>::empty());
}

} // verus!
