//! Dual-phase ownership verification and transaction metadata projection.
//!
//! Phase 1 of the protocol fetches the caller's transaction list; phase 2
//! fetches the details of one transaction. The detail request must not be
//! issued unless the claimed transaction id is present in the
//! authenticated list, so that detail disclosure is gated on list
//! membership rather than mere knowledge of an id.
//!
//! The list document is handled as a value of [`JsonValue`], an immutable
//! model of the decoded JSON: callers parse the wire bytes outside the
//! library and hand the decoded document in. A number is carried as its
//! literal text, so that an id can be compared textually whether the
//! provider serialises it as a number or as a string.

use vstd::prelude::*;

verus! {

/// A decoded JSON document.
#[derive(Debug)]
pub enum JsonValue {
    Null,
    Bool(bool),
    /// A number, as the literal text it was written with.
    Num(String),
    Str(String),
    Array(Vec<JsonValue>),
    /// An object, as its fields in document order.
    Object(Vec<(String, JsonValue)>),
}

/// First value bound to `key` in an entry list, if any.
pub open spec fn lookup_entries(entries: Seq<(String, JsonValue)>, key: Seq<char>) -> Option<
    JsonValue,
>
    decreases entries.len(),
{
    if entries.len() == 0 {
        None
    } else if entries.first().0@ == key {
        Some(entries.first().1)
    } else {
        lookup_entries(entries.drop_first(), key)
    }
}

/// Value of the field `key` of `v`: `None` when `v` is not an object or
/// has no such field.
pub open spec fn json_field(v: JsonValue, key: Seq<char>) -> Option<JsonValue> {
    match v {
        JsonValue::Object(entries) => lookup_entries(entries@, key),
        _ => None,
    }
}

/// The text of an id value: the literal text of a number, the characters
/// of a string, nothing for any other shape.
pub open spec fn id_text(v: JsonValue) -> Option<Seq<char>> {
    match v {
        JsonValue::Num(s) => Some(s@),
        JsonValue::Str(s) => Some(s@),
        _ => None,
    }
}

/// The record's `id` field equals `target`.
pub open spec fn id_matches(v: JsonValue, target: Seq<char>) -> bool {
    match json_field(v, "id"@) {
        Some(idv) => id_text(idv) == Some(target),
        None => false,
    }
}

/// The record claims `target` directly (`id`) or through its nested
/// resource (`resource.id`) — the two observed API shapes.
pub open spec fn record_matches(v: JsonValue, target: Seq<char>) -> bool {
    id_matches(v, target) || (match json_field(v, "resource"@) {
        Some(res) => id_matches(res, target),
        None => false,
    })
}

/// The `data` array of a transaction-list document, when the document has
/// the expected shape.
pub open spec fn data_array(doc: JsonValue) -> Option<Seq<JsonValue>> {
    match json_field(doc, "data"@) {
        Some(JsonValue::Array(elems)) => Some(elems@),
        _ => None,
    }
}

/// Why a transaction-list document could not be checked.
#[derive(Debug, Clone, Copy, PartialEq, Eq, Structural)]
pub enum OwnershipError {
    /// The document has no `data` field holding an array. A malformed
    /// phase-1 response is a hard stop, not a "not found".
    MissingDataArray,
}

impl JsonValue {
    /// Reference to the first field of this object named `key`, or `None`
    /// when there is no such field or this value is not an object.
    #[verifier::loop_isolation(false)]
    pub fn get<'a>(&'a self, key: &str) -> (r: Option<&'a JsonValue>)
        ensures
            match r {
                Some(x) => json_field(*self, key@) == Some(*x),
                None => json_field(*self, key@) is None,
            },
    {
        match self {
            JsonValue::Object(entries) => {
                let k: String = key.to_owned();
                let n = entries.len();
                proof {
                    assert(entries@.skip(0) =~= entries@);
                }
                let mut i: usize = 0;
                while i < n
                    invariant
                        i <= n,
                        n == entries.len(),
                        k@ == key@,
                        lookup_entries(entries@, key@) == lookup_entries(
                            entries@.skip(i as int),
                            key@,
                        ),
                    decreases n - i,
                {
                    let ghost rest = entries@.skip(i as int);
                    proof {
                        assert(rest.first() == entries@[i as int]);
                        assert(rest.drop_first() =~= entries@.skip(i as int + 1));
                    }
                    if entries[i].0 == k {
                        assert(lookup_entries(rest, key@) == Some(entries@[i as int].1));
                        return Some(&entries[i].1);
                    }
                    i = i + 1;
                }
                proof {
                    assert(entries@.skip(n as int) =~= Seq::<(String, JsonValue)>::empty());
                }
                None
            },
            _ => None,
        }
    }
}

/// Whether `v`'s id text equals `target`.
fn id_text_eq(v: &JsonValue, target: &String) -> (r: bool)
    ensures
        r == (id_text(*v) == Some(target@)),
{
    match v {
        JsonValue::Num(s) => *s == *target,
        JsonValue::Str(s) => *s == *target,
        _ => false,
    }
}

/// Whether the record `v` claims `target` directly or through `resource`.
fn record_matches_exec(v: &JsonValue, target: &String) -> (r: bool)
    ensures
        r == record_matches(*v, target@),
{
    let direct = match v.get("id") {
        Some(idv) => id_text_eq(idv, target),
        None => false,
    };
    if direct {
        return true;
    }
    match v.get("resource") {
        Some(res) => {
            match res.get("id") {
                Some(idv) => id_text_eq(idv, target),
                None => false,
            }
        },
        None => false,
    }
}

/// Whether the transaction `target_id` exists in the authenticated list
/// document `doc`.
///
/// Returns `Ok` exactly when `doc` has a `data` field holding an array,
/// and then `Ok(true)` exactly when some element of that array claims
/// `target_id`. A document without the expected shape is an error: the
/// caller must abort before issuing the detail request. The caller must
/// equally not issue the detail request on `Ok(false)`.
pub fn verify_ownership(doc: &JsonValue, target_id: &str) -> (r: Result<bool, OwnershipError>)
    ensures
        r is Ok <==> data_array(*doc) is Some,
        r matches Ok(found) ==> found == (exists|i: int|
            0 <= i < data_array(*doc).unwrap().len() && record_matches(
                #[trigger] data_array(*doc).unwrap()[i],
                target_id@,
            )),
        r matches Err(e) ==> e == OwnershipError::MissingDataArray,
{
    let target: String = target_id.to_owned();
    let elems: &Vec<JsonValue> = match doc.get("data") {
        Some(JsonValue::Array(elems)) => elems,
        _ => {
            return Err(OwnershipError::MissingDataArray);
        },
    };
    let ghost arr = data_array(*doc).unwrap();
    proof {
        assert(arr == elems@);
    }
    let n = elems.len();
    let mut i: usize = 0;
    while i < n
        invariant
            i <= n,
            n == elems.len(),
            target@ == target_id@,
            arr == elems@,
            data_array(*doc) == Some(arr),
            forall|j: int| 0 <= j < i as int ==> !record_matches(#[trigger] arr[j], target_id@),
        decreases n - i,
    {
        if record_matches_exec(&elems[i], &target) {
            assert(record_matches(data_array(*doc).unwrap()[i as int], target_id@));
            return Ok(true);
        }
        i = i + 1;
    }
    Ok(false)
}

/// The dual-phase gate: the transaction-detail request may be issued only
/// when the ownership check ran, the list was well-formed, and the claimed
/// transaction was found in it. Neither a malformed list nor a missing
/// transaction may reach phase 2.
pub fn may_issue_detail_request(check: &Result<bool, OwnershipError>) -> (r: bool)
    ensures
        r == (*check matches Ok(true)),
{
    match check {
        Ok(found) => *found,
        Err(_) => false,
    }
}

/// Operator-facing projection of a transaction-detail document. It has no
/// effect on ranges or commitments.
#[derive(Debug, Clone)]
pub struct TransactionMetadata {
    pub id: String,
    pub amount: String,
    pub currency: String,
    pub status: String,
    pub date: String,
}

/// The display text of the field `key` of `doc`: the id text of the value
/// when it has one, a fixed placeholder otherwise.
pub open spec fn field_text(doc: JsonValue, key: Seq<char>) -> Seq<char> {
    match json_field(doc, key) {
        Some(v) => match id_text(v) {
            Some(t) => t,
            None => "unknown"@,
        },
        None => "unknown"@,
    }
}

fn field_text_exec(doc: &JsonValue, key: &str) -> (r: String)
    ensures
        r@ == field_text(*doc, key@),
{
    match doc.get(key) {
        Some(JsonValue::Num(s)) => s.clone(),
        Some(JsonValue::Str(s)) => s.clone(),
        _ => "unknown".to_owned(),
    }
}

/// The display-only metadata of a Wise transaction-detail document.
pub fn extract_transaction_metadata(doc: &JsonValue) -> (r: TransactionMetadata)
    ensures
        r.id@ == field_text(*doc, "id"@),
        r.amount@ == field_text(*doc, "targetAmount"@),
        r.currency@ == field_text(*doc, "targetCurrency"@),
        r.status@ == field_text(*doc, "state"@),
        r.date@ == field_text(*doc, "date"@),
{
    TransactionMetadata {
        id: field_text_exec(doc, "id"),
        amount: field_text_exec(doc, "targetAmount"),
        currency: field_text_exec(doc, "targetCurrency"),
        status: field_text_exec(doc, "state"),
        date: field_text_exec(doc, "date"),
    }
}

} // verus!
