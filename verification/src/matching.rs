//! First-match search over raw transcript bytes.
//!
//! Every field locator of this library has the same shape: a literal prefix
//! (the key text, e.g. `"id":`), followed by a non-empty greedy run of bytes
//! drawn from a small byte class, optionally closed by a quote. A match is
//! the leftmost position where the whole shape matches, and its end is the
//! end of the maximal run (plus the closing quote where one is required).

use vstd::prelude::*;

verus! {

/// The byte classes that field locators draw their runs from.
#[derive(Clone, Copy, Debug, PartialEq, Eq, Structural)]
pub enum ByteClass {
    /// ASCII decimal digits.
    Digit,
    /// ASCII decimal digits or a dot.
    DigitOrDot,
    /// Any byte except a double quote.
    NotQuote,
    /// Any byte except carriage return or line feed.
    NotCrlf,
}

pub open spec fn class_holds(c: ByteClass, b: u8) -> bool {
    match c {
        ByteClass::Digit => '0' as u8 <= b && b <= '9' as u8,
        ByteClass::DigitOrDot => ('0' as u8 <= b && b <= '9' as u8) || b == '.' as u8,
        ByteClass::NotQuote => b != '"' as u8,
        ByteClass::NotCrlf => b != '\r' as u8 && b != '\n' as u8,
    }
}

/// The mathematical form of a field locator.
#[verifier::ext_equal]
pub ghost struct PatternSpec {
    pub prefix: Seq<u8>,
    pub class: ByteClass,
    pub quoted: bool,
    pub name: Seq<char>,
}

/// A field locator: prefix, then a non-empty greedy run of `class` bytes,
/// then, if `quoted`, a closing double quote. `name` is the semantic field
/// name that a match is reported under.
pub struct FieldPattern {
    pub prefix: Vec<u8>,
    pub class: ByteClass,
    pub quoted: bool,
    pub name: String,
}

impl View for FieldPattern {
    type V = PatternSpec;

    open spec fn view(&self) -> PatternSpec {
        PatternSpec {
            prefix: self.prefix@,
            class: self.class,
            quoted: self.quoted,
            name: self.name@,
        }
    }
}

/// The bytes of an ASCII string, one byte per character.
pub open spec fn ascii_bytes(s: Seq<char>) -> Seq<u8> {
    Seq::new(s.len(), |i: int| s[i] as u8)
}

/// `lit` occurs in `h` starting at position `i`.
pub open spec fn lit_at(h: Seq<u8>, lit: Seq<u8>, i: int) -> bool {
    &&& 0 <= i
    &&& i + lit.len() <= h.len()
    &&& forall|k: int| 0 <= k < lit.len() ==> h[i + k] == lit[k]
}

/// End of the maximal run of `c`-class bytes starting at `j`.
pub open spec fn run_end(h: Seq<u8>, c: ByteClass, j: int) -> int
    decreases h.len() - j,
{
    if j < 0 || j >= h.len() {
        j
    } else if class_holds(c, h[j]) {
        run_end(h, c, j + 1)
    } else {
        j
    }
}

pub proof fn lemma_run_end(h: Seq<u8>, c: ByteClass, j: int)
    requires
        0 <= j <= h.len(),
    ensures
        j <= run_end(h, c, j) <= h.len(),
        forall|k: int| j <= k < run_end(h, c, j) ==> class_holds(c, h[k]),
        run_end(h, c, j) < h.len() ==> !class_holds(c, h[run_end(h, c, j)]),
    decreases h.len() - j,
{
    if j < h.len() && class_holds(c, h[j]) {
        lemma_run_end(h, c, j + 1);
    }
}

/// The whole locator matches at position `i`.
pub open spec fn match_at(h: Seq<u8>, p: PatternSpec, i: int) -> bool {
    &&& lit_at(h, p.prefix, i)
    &&& run_end(h, p.class, i + p.prefix.len()) > i + p.prefix.len()
    &&& (p.quoted ==> run_end(h, p.class, i + p.prefix.len()) < h.len())
}

/// End offset of the match that starts at `i`.
pub open spec fn match_end(h: Seq<u8>, p: PatternSpec, i: int) -> int {
    let e = run_end(h, p.class, i + p.prefix.len());
    if p.quoted {
        e + 1
    } else {
        e
    }
}

/// Leftmost match at or after position `i`, as a half-open byte span.
pub open spec fn first_match_from(h: Seq<u8>, p: PatternSpec, i: int) -> Option<(int, int)>
    decreases h.len() - i,
{
    if i < 0 || i >= h.len() {
        None
    } else if match_at(h, p, i) {
        Some((i, match_end(h, p, i)))
    } else {
        first_match_from(h, p, i + 1)
    }
}

/// Leftmost match of `p` in `h`.
pub open spec fn first_match(h: Seq<u8>, p: PatternSpec) -> Option<(int, int)> {
    first_match_from(h, p, 0)
}

/// A match found anywhere is a non-empty span inside the buffer.
pub proof fn lemma_first_match_from_bounds(h: Seq<u8>, p: PatternSpec, i: int)
    requires
        0 <= i,
    ensures
        first_match_from(h, p, i) matches Some(m) ==> i <= m.0 < m.1 <= h.len(),
    decreases h.len() - i,
{
    if i < h.len() {
        if match_at(h, p, i) {
            lemma_run_end(h, p.class, i + p.prefix.len());
        } else {
            lemma_first_match_from_bounds(h, p, i + 1);
        }
    }
}

/// All returned spans are valid, non-empty ranges of the buffer.
pub proof fn lemma_first_match_bounds(h: Seq<u8>, p: PatternSpec)
    ensures
        first_match(h, p) matches Some(m) ==> 0 <= m.0 < m.1 <= h.len(),
{
    lemma_first_match_from_bounds(h, p, 0);
}

pub proof fn lemma_first_match_from_found(h: Seq<u8>, p: PatternSpec, i: int)
    requires
        0 <= i,
    ensures
        first_match_from(h, p, i) matches Some(m) ==> {
            &&& match_at(h, p, m.0)
            &&& m.1 == match_end(h, p, m.0)
            &&& forall|j: int| i <= j < m.0 ==> !match_at(h, p, j)
        },
    decreases h.len() - i,
{
    if i < h.len() && !match_at(h, p, i) {
        lemma_first_match_from_found(h, p, i + 1);
    }
}

/// What the span of a match holds: the pattern's prefix, then a non-empty
/// run of class bytes, then the closing quote where the pattern asks for
/// one; and no earlier position matches. Re-slicing the buffer at the
/// span therefore reproduces exactly the matched text.
pub proof fn lemma_first_match_content(h: Seq<u8>, p: PatternSpec)
    ensures
        first_match(h, p) matches Some(m) ==> {
            let run_to = if p.quoted {
                m.1 - 1
            } else {
                m.1
            };
            &&& 0 <= m.0 < m.1 <= h.len()
            &&& h.subrange(m.0, m.0 + p.prefix.len() as int) == p.prefix
            &&& m.0 + p.prefix.len() < run_to
            &&& forall|k: int| m.0 + p.prefix.len() <= k < run_to ==> class_holds(p.class, h[k])
            &&& (p.quoted && p.class == ByteClass::NotQuote ==> h[m.1 - 1] == '"' as u8)
            &&& forall|j: int| 0 <= j < m.0 ==> !match_at(h, p, j)
        },
{
    lemma_first_match_bounds(h, p);
    lemma_first_match_from_found(h, p, 0);
    match first_match(h, p) {
        Some(m) => {
            let s = m.0 + p.prefix.len() as int;
            lemma_run_end(h, p.class, s);
            assert(h.subrange(m.0, s) =~= p.prefix);
            if p.quoted && p.class == ByteClass::NotQuote {
                assert(!class_holds(p.class, h[run_end(h, p.class, s)]));
            }
        },
        None => {
        },
    }
}

/// Whether `lit` occurs in `h` at `i`, decided byte by byte.
fn bytes_at(h: &[u8], i: usize, lit: &[u8]) -> (r: bool)
    requires
        i <= h.len(),
    ensures
        r == lit_at(h@, lit@, i as int),
{
    if h.len() - i < lit.len() {
        return false;
    }
    let mut k: usize = 0;
    while k < lit.len()
        invariant
            i + lit.len() <= h.len(),
            k <= lit.len(),
            forall|m: int| 0 <= m < k ==> h@[i + m] == lit@[m],
        decreases lit.len() - k,
    {
        if h[i + k] != lit[k] {
            assert(!lit_at(h@, lit@, i as int)) by {
                assert(h@[i + k as int] != lit@[k as int]);
            }
            return false;
        }
        k = k + 1;
    }
    true
}

fn class_check(c: &ByteClass, b: u8) -> (r: bool)
    ensures
        r == class_holds(*c, b),
{
    match c {
        ByteClass::Digit => '0' as u8 <= b && b <= '9' as u8,
        ByteClass::DigitOrDot => ('0' as u8 <= b && b <= '9' as u8) || b == '.' as u8,
        ByteClass::NotQuote => b != '"' as u8,
        ByteClass::NotCrlf => b != '\r' as u8 && b != '\n' as u8,
    }
}

fn scan_run_end(h: &[u8], j: usize, c: &ByteClass) -> (r: usize)
    requires
        j <= h.len(),
    ensures
        r as int == run_end(h@, *c, j as int),
        j <= r <= h.len(),
{
    let mut e: usize = j;
    while e < h.len() && class_check(c, h[e])
        invariant
            j <= e <= h.len(),
            run_end(h@, *c, j as int) == run_end(h@, *c, e as int),
        decreases h.len() - e,
    {
        e = e + 1;
    }
    e
}

/// Leftmost match of the locator `p` in `h`, or `None` when `p` matches
/// nowhere in `h`.
pub fn find_pattern_in(h: &[u8], p: &FieldPattern) -> (r: Option<(usize, usize)>)
    ensures
        r is Some <==> first_match(h@, p@) is Some,
        r matches Some(m) ==> first_match(h@, p@) == Some((m.0 as int, m.1 as int)),
        r matches Some(m) ==> m.0 < m.1 <= h.len(),
{
    proof {
        lemma_first_match_bounds(h@, p@);
    }
    let n = h.len();
    let mut i: usize = 0;
    while i < n
        invariant
            i <= n,
            n == h.len(),
            first_match(h@, p@) == first_match_from(h@, p@, i as int),
        decreases n - i,
    {
        if bytes_at(h, i, p.prefix.as_slice()) {
            let s = i + p.prefix.len();
            let e = scan_run_end(h, s, &p.class);
            if e > s && (!p.quoted || e < n) {
                assert(match_at(h@, p@, i as int));
                if p.quoted {
                    return Some((i, e + 1));
                } else {
                    return Some((i, e));
                }
            }
        }
        assert(!match_at(h@, p@, i as int));
        i = i + 1;
    }
    None
}

} // verus!
