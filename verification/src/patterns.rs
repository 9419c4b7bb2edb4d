//! Per-provider field pattern registry.
//!
//! Each provider has a fixed, ordered table of field locators. Verifiers
//! rely on the field names, so the tables are part of the library's external
//! contract and must stay stable across proving and verifying tooling.

use vstd::prelude::*;

use crate::domain::Provider;
use crate::matching::ascii_bytes;
use crate::matching::ByteClass;
use crate::matching::FieldPattern;
use crate::matching::PatternSpec;

verus! {

/// The ordered field locator table for Wise: the literal key text of each
/// field followed by its value shape, so that a committed span always
/// includes the field name.
pub open spec fn wise_patterns() -> Seq<PatternSpec> {
    seq![
        PatternSpec {
            prefix: ascii_bytes("\"id\":"@),
            class: ByteClass::Digit,
            quoted: false,
            name: "paymentId"@,
        },
        PatternSpec {
            prefix: ascii_bytes("\"state\":\""@),
            class: ByteClass::NotQuote,
            quoted: true,
            name: "state"@,
        },
        PatternSpec {
            prefix: ascii_bytes("\"state\":\"OUTGOING_PAYMENT_SENT\",\"date\":"@),
            class: ByteClass::Digit,
            quoted: false,
            name: "timestamp"@,
        },
        PatternSpec {
            prefix: ascii_bytes("\"targetAmount\":"@),
            class: ByteClass::DigitOrDot,
            quoted: false,
            name: "targetAmount"@,
        },
        PatternSpec {
            prefix: ascii_bytes("\"targetCurrency\":\""@),
            class: ByteClass::NotQuote,
            quoted: true,
            name: "targetCurrency"@,
        },
        PatternSpec {
            prefix: ascii_bytes("\"targetRecipientId\":"@),
            class: ByteClass::Digit,
            quoted: false,
            name: "targetRecipientId"@,
        },
    ]
}

/// The locator of the `host: <value>` request header line.
pub open spec fn host_pattern() -> PatternSpec {
    PatternSpec {
        prefix: ascii_bytes("host: "@),
        class: ByteClass::NotCrlf,
        quoted: false,
        name: "host"@,
    }
}

/// The registry of the given provider. PayPal has no field taxonomy yet,
/// which is by design not an error: its table is empty.
pub open spec fn provider_patterns(p: Provider) -> Seq<PatternSpec> {
    match p {
        Provider::Wise => wise_patterns(),
        Provider::PayPal => Seq::empty(),
    }
}

fn lit_bytes(s: &str) -> (r: Vec<u8>)
    requires
        s.is_ascii(),
    ensures
        r@ == ascii_bytes(s@),
{
    broadcast use vstd::string::is_ascii_spec_bytes;

    let b = s.as_bytes_vec();
    assert(b@ =~= ascii_bytes(s@));
    b
}

fn mk_pattern(prefix: &str, class: ByteClass, quoted: bool, name: &str) -> (r: FieldPattern)
    requires
        prefix.is_ascii(),
    ensures
        r@ == (PatternSpec {
            prefix: ascii_bytes(prefix@),
            class: class,
            quoted: quoted,
            name: name@,
        }),
{
    let r = FieldPattern { prefix: lit_bytes(prefix), class, quoted, name: name.to_owned() };
    assert(r@ =~= PatternSpec {
        prefix: ascii_bytes(prefix@),
        class: class,
        quoted: quoted,
        name: name@,
    });
    r
}

/// The field locator table of `provider`, in registry order.
pub fn get_field_patterns(provider: &Provider) -> (r: Vec<FieldPattern>)
    ensures
        r@.len() == provider_patterns(*provider).len(),
        forall|i: int| 0 <= i < r@.len() ==> r@[i]@ == provider_patterns(*provider)[i],
{
    match provider {
        Provider::Wise => {
            proof {
                reveal_strlit("\"id\":");
                reveal_strlit("\"state\":\"");
                reveal_strlit("\"state\":\"OUTGOING_PAYMENT_SENT\",\"date\":");
                reveal_strlit("\"targetAmount\":");
                reveal_strlit("\"targetCurrency\":\"");
                reveal_strlit("\"targetRecipientId\":");
            }
            let mut v: Vec<FieldPattern> = Vec::new();
            v.push(mk_pattern("\"id\":", ByteClass::Digit, false, "paymentId"));
            v.push(mk_pattern("\"state\":\"", ByteClass::NotQuote, true, "state"));
            v.push(mk_pattern(
                "\"state\":\"OUTGOING_PAYMENT_SENT\",\"date\":",
                ByteClass::Digit,
                false,
                "timestamp",
            ));
            v.push(mk_pattern("\"targetAmount\":", ByteClass::DigitOrDot, false, "targetAmount"));
            v.push(mk_pattern("\"targetCurrency\":\"", ByteClass::NotQuote, true, "targetCurrency"));
            v.push(mk_pattern(
                "\"targetRecipientId\":",
                ByteClass::Digit,
                false,
                "targetRecipientId",
            ));
            assert(forall|i: int| 0 <= i < v@.len() ==> v@[i]@ == wise_patterns()[i]);
            v
        },
        Provider::PayPal => Vec::new(),
    }
}

/// The locator of the `host:` header line, as a runtime value.
pub fn get_host_pattern() -> (r: FieldPattern)
    ensures
        r@ == host_pattern(),
{
    proof {
        reveal_strlit("host: ");
    }
    mk_pattern("host: ", ByteClass::NotCrlf, false, "host")
}

} // verus!
