//! Chunked transfer decoder.
//!
//! Reassembles an HTTP/1.1 chunked body into the contiguous logical body:
//! a chunk is a hexadecimal size line (an optional `;extension` suffix is
//! ignored) terminated by CRLF, followed by that many data bytes and a
//! trailing CRLF; a zero-size chunk ends the body. Malformed input fails
//! with a descriptive error, never a panic, and the number of chunks is
//! bounded so that no input can make the decoder loop unboundedly.
//!
//! The decoder exists for body validation and diagnostics. The field-range
//! resolver deliberately does not use it: ranges are computed against the
//! raw wire bytes, which are what commitment and reveal operate over.

use vstd::prelude::*;

verus! {

/// Largest number of chunks the decoder accepts.
pub const MAX_CHUNKS: usize = 1000;

/// Why a body failed to decode.
#[derive(Debug, Clone, Copy, PartialEq, Eq, Structural)]
pub enum ChunkedError {
    /// No CRLF terminates the expected chunk-size line.
    MissingSizeLine,
    /// The chunk-size line holds no size token.
    EmptySizeToken,
    /// The size token holds a byte that is not a hexadecimal digit.
    InvalidSizeToken,
    /// The declared chunk size exceeds the bytes remaining in the input.
    ChunkExceedsInput,
    /// The declared data bytes are not followed by CRLF.
    MissingChunkDelimiter,
    /// The input declares more chunks than the decoder accepts.
    TooManyChunks,
}

/// Position of the first CRLF at or after `i`, or `None`.
pub open spec fn find_crlf_from(h: Seq<u8>, i: int) -> Option<int>
    decreases h.len() - i,
{
    if i < 0 || i + 2 > h.len() {
        None
    } else if h[i] == '\r' as u8 && h[i + 1] == '\n' as u8 {
        Some(i)
    } else {
        find_crlf_from(h, i + 1)
    }
}

pub open spec fn is_hex_digit(b: u8) -> bool {
    ('0' as u8 <= b && b <= '9' as u8) || ('a' as u8 <= b && b <= 'f' as u8) || ('A' as u8 <= b
        && b <= 'F' as u8)
}

pub open spec fn hex_digit_val(b: u8) -> int {
    if '0' as u8 <= b && b <= '9' as u8 {
        b - '0' as u8
    } else if 'a' as u8 <= b && b <= 'f' as u8 {
        b - 'a' as u8 + 10
    } else {
        b - 'A' as u8 + 10
    }
}

pub open spec fn all_hex(t: Seq<u8>) -> bool {
    forall|k: int| 0 <= k < t.len() ==> is_hex_digit(t[k])
}

/// The value of a hexadecimal token, most significant digit first.
pub open spec fn hex_value(t: Seq<u8>) -> int
    decreases t.len(),
{
    if t.len() == 0 {
        0
    } else {
        hex_value(t.drop_last()) * 16 + hex_digit_val(t.last())
    }
}

/// Position of the first `;` of `t` at or after `i`, or `t.len()`.
pub open spec fn semi_pos(t: Seq<u8>, i: int) -> int
    decreases t.len() - i,
{
    if i < 0 || i >= t.len() {
        t.len() as int
    } else if t[i] == ';' as u8 {
        i
    } else {
        semi_pos(t, i + 1)
    }
}

/// The size token of a chunk-size line: everything before the first `;`.
pub open spec fn size_token(line: Seq<u8>) -> Seq<u8> {
    line.take(semi_pos(line, 0))
}

/// Decoding of the chunk sequence that starts at `pos`, with `fuel` chunks
/// still allowed.
pub open spec fn decode_chunked_from(h: Seq<u8>, pos: int, fuel: nat) -> Result<
    Seq<u8>,
    ChunkedError,
>
    decreases fuel,
{
    if fuel == 0 {
        Err(ChunkedError::TooManyChunks)
    } else {
        match find_crlf_from(h, pos) {
            None => Err(ChunkedError::MissingSizeLine),
            Some(j) => {
                let token = size_token(h.subrange(pos, j));
                if token.len() == 0 {
                    Err(ChunkedError::EmptySizeToken)
                } else if !all_hex(token) {
                    Err(ChunkedError::InvalidSizeToken)
                } else {
                    let size = hex_value(token);
                    let data_start = j + 2;
                    if size == 0 {
                        Ok(Seq::empty())
                    } else if size > h.len() - data_start {
                        Err(ChunkedError::ChunkExceedsInput)
                    } else {
                        let data_end = data_start + size;
                        if h.len() - data_end < 2 || h[data_end] != '\r' as u8 || h[data_end + 1]
                            != '\n' as u8 {
                            Err(ChunkedError::MissingChunkDelimiter)
                        } else {
                            match decode_chunked_from(h, data_end + 2, (fuel - 1) as nat) {
                                Ok(tail) => Ok(h.subrange(data_start, data_end) + tail),
                                Err(e) => Err(e),
                            }
                        }
                    }
                }
            },
        }
    }
}

/// What `decode_chunked` returns on `h`.
pub open spec fn decode_chunked_spec(h: Seq<u8>) -> Result<Seq<u8>, ChunkedError> {
    decode_chunked_from(h, 0, MAX_CHUNKS as nat)
}

fn find_crlf(h: &[u8], i: usize) -> (r: Option<usize>)
    requires
        i <= h.len(),
    ensures
        r is Some <==> find_crlf_from(h@, i as int) is Some,
        r matches Some(j) ==> find_crlf_from(h@, i as int) == Some(j as int) && i <= j && j + 2
            <= h.len(),
{
    let n = h.len();
    let mut k: usize = i;
    while n - k >= 2
        invariant
            i <= k,
            k <= n,
            n == h.len(),
            find_crlf_from(h@, i as int) == find_crlf_from(h@, k as int),
        decreases n - k,
    {
        if h[k] == 13u8 && h[k + 1] == 10u8 {
            return Some(k);
        }
        k = k + 1;
    }
    None
}

/// Decodes a chunked body into the contiguous logical body, or reports
/// exactly why the input is malformed.
#[verifier::loop_isolation(false)]
#[verifier::rlimit(60)]
pub fn decode_chunked(raw: &[u8]) -> (r: Result<Vec<u8>, ChunkedError>)
    ensures
        r matches Ok(v) ==> decode_chunked_spec(raw@) == Ok::<Seq<u8>, ChunkedError>(v@),
        r matches Err(e) ==> decode_chunked_spec(raw@) == Err::<Seq<u8>, ChunkedError>(e),
{
    let ghost full = decode_chunked_spec(raw@);
    let n = raw.len();
    let mut acc: Vec<u8> = Vec::new();
    let mut pos: usize = 0;
    let mut fuel: usize = MAX_CHUNKS;
    proof {
        assert(acc@ + (Seq::<u8>::empty()) =~= acc@);
    }
    loop
        invariant
            pos <= n,
            n == raw.len(),
            fuel <= MAX_CHUNKS,
            full == decode_chunked_spec(raw@),
            full == (match decode_chunked_from(raw@, pos as int, fuel as nat) {
                Ok(t) => Ok::<Seq<u8>, ChunkedError>(acc@ + t),
                Err(e) => Err::<Seq<u8>, ChunkedError>(e),
            }),
        decreases fuel,
    {
        if fuel == 0 {
            return Err(ChunkedError::TooManyChunks);
        }
        let j = match find_crlf(raw, pos) {
            None => {
                return Err(ChunkedError::MissingSizeLine);
            },
            Some(j) => j,
        };
        let ghost line = raw@.subrange(pos as int, j as int);
        // Size token: the line up to the first `;`.
        let mut sp: usize = pos;
        while sp < j && raw[sp] != 59u8
            invariant
                pos <= sp <= j,
                j + 2 <= n,
                n == raw.len(),
                line == raw@.subrange(pos as int, j as int),
                semi_pos(line, 0) == semi_pos(line, sp - pos),
            decreases j - sp,
        {
            assert(line[sp - pos] == raw@[sp as int]);
            sp = sp + 1;
        }
        proof {
            if sp < j {
                assert(line[sp - pos] == raw@[sp as int]);
            }
            assert(semi_pos(line, sp - pos) == sp - pos);
        }
        let ghost token = size_token(line);
        proof {
            assert(token =~= raw@.subrange(pos as int, sp as int));
        }
        if sp == pos {
            return Err(ChunkedError::EmptySizeToken);
        }
        // Parse the hexadecimal size, clamped at one past the input length:
        // any clamped value already exceeds whatever could remain.
        let cap: u128 = n as u128 + 1;
        let mut val: u128 = 0;
        let mut k: usize = pos;
        while k < sp
            invariant
                pos <= k <= sp <= n,
                n == raw.len(),
                cap == n as u128 + 1,
                token == raw@.subrange(pos as int, sp as int),
                all_hex(token.take(k - pos)),
                hex_value(token.take(k - pos)) < cap ==> val == hex_value(token.take(k - pos)),
                hex_value(token.take(k - pos)) >= cap ==> val == cap && hex_value(
                    token.take(k - pos),
                ) >= cap,
                val <= cap,
            decreases sp - k,
        {
            let b = raw[k];
            assert(token[k - pos] == b);
            let d: u128 = if 48u8 <= b && b <= 57u8 {
                (b - 48) as u128
            } else if 97u8 <= b && b <= 102u8 {
                (b - 97) as u128 + 10
            } else if 65u8 <= b && b <= 70u8 {
                (b - 65) as u128 + 10
            } else {
                assert(!is_hex_digit(b));
                assert(!all_hex(token)) by {
                    assert(token[k - pos] == b);
                }
                return Err(ChunkedError::InvalidSizeToken);
            };
            assert(d == hex_digit_val(b) && is_hex_digit(b));
            let ghost t_old = token.take(k - pos);
            let ghost t_new = token.take(k - pos + 1);
            proof {
                assert(t_new.drop_last() =~= t_old);
                assert(t_new.last() == b);
                assert(hex_value(t_new) == hex_value(t_old) * 16 + hex_digit_val(b));
                assert(forall|m: int| 0 <= m < t_new.len() ==> is_hex_digit(t_new[m]));
            }
            if val >= cap {
                val = cap;
                proof {
                    assert(hex_value(t_old) * 16 >= cap * 1) by (nonlinear_arith)
                        requires
                            hex_value(t_old) >= cap,
                            cap >= 1,
                    ;
                }
            } else {
                val = val * 16 + d;
                if val > cap {
                    val = cap;
                }
            }
            k = k + 1;
        }
        proof {
            assert(token.take(sp - pos) =~= token);
        }
        let data_start = j + 2;
        if val == 0 {
            assert(hex_value(token) == 0);
            proof {
                assert(acc@ + Seq::<u8>::empty() =~= acc@);
            }
            return Ok(acc);
        }
        let remaining = n - data_start;
        if val > remaining as u128 {
            assert(hex_value(token) > remaining as int);
            return Err(ChunkedError::ChunkExceedsInput);
        }
        let size = val as usize;
        assert(size == hex_value(token));
        let data_end = data_start + size;
        if n - data_end < 2 || raw[data_end] != 13u8 || raw[data_end + 1] != 10u8 {
            return Err(ChunkedError::MissingChunkDelimiter);
        }
        let ghost acc_old = acc@;
        let mut c: usize = data_start;
        while c < data_end
            invariant
                data_start <= c <= data_end <= n,
                n == raw.len(),
                acc@ == acc_old + raw@.subrange(data_start as int, c as int),
            decreases data_end - c,
        {
            acc.push(raw[c]);
            proof {
                assert(acc_old + raw@.subrange(data_start as int, c + 1) =~= acc@);
            }
            c = c + 1;
        }
        let ghost old_pos = pos as int;
        let ghost old_fuel = fuel as nat;
        pos = data_end + 2;
        fuel = fuel - 1;
        proof {
            let chunk = raw@.subrange(data_start as int, data_end as int);
            assert(decode_chunked_from(raw@, old_pos, old_fuel) == (
            match decode_chunked_from(raw@, pos as int, fuel as nat) {
                Ok(tail) => Ok::<Seq<u8>, ChunkedError>(chunk + tail),
                Err(e) => Err::<Seq<u8>, ChunkedError>(e),
            }));
            match decode_chunked_from(raw@, pos as int, fuel as nat) {
                Ok(tail) => {
                    assert(acc_old + (chunk + tail) =~= acc@ + tail);
                },
                Err(e) => {
                },
            }
        }
    }
}

} // verus!
