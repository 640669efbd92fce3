//! The prefix-integer encoding shared by every compressed header field.
//!
//! A value is carried in a k-bit prefix; when the prefix is saturated
//! (all ones, value `2^k - 1`), continuation bytes follow, each contributing
//! seven low bits, least significant group first, until a byte with a clear
//! high bit ends the number.

use vstd::prelude::*;

use crate::types::HTTP2ParseError;

verus! {

/// `2^k` for `k >= 0` (and 1 for negative `k`).
pub open spec fn p2(k: int) -> int
    decreases k,
{
    if k <= 0 {
        1
    } else {
        2 * p2(k - 1)
    }
}

pub proof fn lemma_p2_pos(k: int)
    ensures
        p2(k) >= 1,
    decreases k,
{
    if k > 0 {
        lemma_p2_pos(k - 1);
    }
}

pub proof fn lemma_p2_le(a: int, b: int)
    requires
        a <= b,
    ensures
        p2(a) <= p2(b),
    decreases b - a,
{
    if a < b {
        lemma_p2_le(a, b - 1);
        lemma_p2_pos(b - 1);
    }
}

/// `2^(m+7) == 128 * 2^m`.
pub proof fn lemma_p2_unfold7(m: int)
    requires
        m >= 0,
    ensures
        p2(m + 7) == 128 * p2(m),
{
    assert(p2(m + 7) == 2 * p2(m + 6));
    assert(p2(m + 6) == 2 * p2(m + 5));
    assert(p2(m + 5) == 2 * p2(m + 4));
    assert(p2(m + 4) == 2 * p2(m + 3));
    assert(p2(m + 3) == 2 * p2(m + 2));
    assert(p2(m + 2) == 2 * p2(m + 1));
    assert(p2(m + 1) == 2 * p2(m));
}

/// The powers of 128 that bound the continuation-byte accumulator.
pub proof fn lemma_p2_seven_values()
    ensures
        p2(0) == 1,
        p2(7) == 0x80,
        p2(14) == 0x4000,
        p2(21) == 0x200000,
        p2(28) == 0x10000000,
        p2(35) == 0x800000000,
        p2(42) == 0x40000000000,
        p2(49) == 0x2000000000000,
        p2(56) == 0x100000000000000,
        p2(63) == 0x8000000000000000,
{
    lemma_p2_unfold7(0);
    lemma_p2_unfold7(7);
    lemma_p2_unfold7(14);
    lemma_p2_unfold7(21);
    lemma_p2_unfold7(28);
    lemma_p2_unfold7(35);
    lemma_p2_unfold7(42);
    lemma_p2_unfold7(49);
    lemma_p2_unfold7(56);
}

/// How many leading bytes of `s` have their high bit set: the number of
/// continuation bytes a saturated prefix is followed by.
pub open spec fn spec_cont_len(s: Seq<u8>) -> int
    decreases s.len(),
{
    if s.len() == 0 {
        0
    } else if s[0] < 128 {
        0
    } else {
        1 + spec_cont_len(s.skip(1))
    }
}

/// `spec_cont_len` is the least index holding a byte with a clear high bit.
pub proof fn lemma_cont_len_eq(s: Seq<u8>, i: int)
    requires
        0 <= i <= s.len(),
        forall|j: int| 0 <= j < i ==> s[j] >= 128,
        i < s.len() ==> s[i] < 128,
    ensures
        spec_cont_len(s) == i,
    decreases i,
{
    if s.len() == 0 {
    } else if i == 0 {
    } else {
        assert(s[0] >= 128);
        assert(forall|j: int| 0 <= j < i - 1 ==> s.skip(1)[j] == s[j + 1]);
        lemma_cont_len_eq(s.skip(1), i - 1);
    }
}

/// The value carried by the first `k` continuation bytes: the sum of their
/// seven-bit groups, least significant group first.
pub open spec fn spec_varint_partial(s: Seq<u8>, k: int) -> int
    decreases k,
{
    if k <= 0 {
        0
    } else {
        spec_varint_partial(s, k - 1) + (s[k - 1] % 128) * p2(7 * (k - 1))
    }
}

pub proof fn lemma_varint_partial_bound(s: Seq<u8>, k: int)
    requires
        k >= 0,
    ensures
        0 <= spec_varint_partial(s, k) < p2(7 * k),
    decreases k,
{
    if k == 0 {
        lemma_p2_pos(0);
    } else {
        lemma_varint_partial_bound(s, k - 1);
        lemma_p2_unfold7(7 * (k - 1));
        lemma_p2_pos(7 * (k - 1));
        assert((s[k - 1] % 128) * p2(7 * (k - 1)) <= 127 * p2(7 * (k - 1)))
            by (nonlinear_arith)
            requires
                p2(7 * (k - 1)) >= 1,
        ;
        assert((s[k - 1] % 128) * p2(7 * (k - 1)) >= 0)
            by (nonlinear_arith)
            requires
                p2(7 * (k - 1)) >= 1,
        ;
    }
}

pub proof fn lemma_cont_len_bounds(s: Seq<u8>)
    ensures
        0 <= spec_cont_len(s) <= s.len(),
    decreases s.len(),
{
    if s.len() > 0 && s[0] >= 128 {
        lemma_cont_len_bounds(s.skip(1));
    }
}

/// The outcome of decoding one prefix integer from a byte sequence.
pub enum VarIntStep {
    /// Every available byte was a continuation byte: the terminating byte has
    /// not arrived yet.
    Incomplete,
    /// The number ended after `consumed` bytes. A decoded `value` of 0
    /// together with a saturated prefix is the overflow sentinel: the encoded
    /// number did not fit 64 bits (or used more than 9 continuation bytes),
    /// and the bytes were consumed anyway.
    Done { consumed: int, value: u64 },
}

/// Decoding one prefix integer, given the already-extracted prefix bits
/// `value` and the prefix's maximum representable value `max`.
pub open spec fn spec_var_uint(s: Seq<u8>, value: u64, max: u64) -> VarIntStep {
    if value < max {
        VarIntStep::Done { consumed: 0, value }
    } else {
        let n = spec_cont_len(s);
        if n >= s.len() {
            VarIntStep::Incomplete
        } else if n > 9 || (n == 9 && s[n] > 1) {
            VarIntStep::Done { consumed: n + 1, value: 0 }
        } else {
            let base = max + spec_varint_partial(s, n);
            let term = (s[n] as int) * p2(7 * n);
            if term > u64::MAX - base {
                VarIntStep::Done { consumed: n + 1, value: 0 }
            } else {
                VarIntStep::Done { consumed: n + 1, value: (base + term) as u64 }
            }
        }
    }
}

/// A finished prefix-integer decode consumed between 0 bytes (an
/// unsaturated prefix) and the whole input.
pub proof fn lemma_var_uint_consumed(s: Seq<u8>, value: u64, max: u64)
    ensures
        spec_var_uint(s, value, max) matches VarIntStep::Done { consumed, .. } ==> 0 <= consumed
            <= s.len(),
{
    lemma_cont_len_bounds(s);
}

/// Decodes one prefix integer. `value` is the already-extracted prefix,
/// `max` the prefix's maximum representable value (`2^k - 1` for a `k`-bit
/// prefix; the protocol uses prefixes of at most 7 bits).
///
/// When `value` is below `max` the integer is `value` itself and no bytes
/// are consumed. Otherwise continuation bytes are consumed through the first
/// byte with a clear high bit; a number that would overflow 64 bits decodes
/// to the sentinel 0 with its bytes consumed, which callers distinguish from
/// a true 0 by `value == max`.
pub fn http2_parse_var_uint(input: &[u8], value: u64, max: u64) -> (r: Result<
    (usize, u64),
    HTTP2ParseError,
>)
    requires
        max <= 127,
    ensures
        match spec_var_uint(input@, value, max) {
            VarIntStep::Incomplete => r == Err::<(usize, u64), HTTP2ParseError>(
                HTTP2ParseError::Incomplete,
            ),
            VarIntStep::Done { consumed, value: v } => {
                &&& 0 <= consumed <= input@.len()
                &&& r == Ok::<(usize, u64), HTTP2ParseError>((consumed as usize, v))
            },
        },
{
    if value < max {
        return Ok((0, value));
    }
    let mut i: usize = 0;
    while i < input.len() && input[i] >= 128
        invariant
            0 <= i <= input@.len(),
            forall|j: int| 0 <= j < i ==> input@[j] >= 128,
        decreases input@.len() - i,
    {
        i = i + 1;
    }
    proof {
        lemma_cont_len_eq(input@, i as int);
    }
    if i >= input.len() {
        return Err(HTTP2ParseError::Incomplete);
    }
    let finalv = input[i];
    if i > 9 || (i == 9 && finalv > 1) {
        return Ok((i + 1, 0));
    }
    let ghost s = input@;
    let mut varval: u64 = max;
    let mut mult: u64 = 1;
    let mut k: usize = 0;
    proof {
        lemma_p2_seven_values();
    }
    while k < i
        invariant
            0 <= k <= i,
            i <= 9,
            i < s.len(),
            s == input@,
            max <= 127,
            mult == p2(7 * k),
            varval == max + spec_varint_partial(s, k as int),
            p2(0) == 1,
            p2(7) == 0x80,
            p2(14) == 0x4000,
            p2(21) == 0x200000,
            p2(28) == 0x10000000,
            p2(35) == 0x800000000,
            p2(42) == 0x40000000000,
            p2(49) == 0x2000000000000,
            p2(56) == 0x100000000000000,
            p2(63) == 0x8000000000000000,
        decreases i - k,
    {
        proof {
            lemma_varint_partial_bound(s, k as int);
            lemma_p2_unfold7(7 * k);
            assert((s[k as int] % 128) * p2(7 * k) <= 127 * p2(7 * k)) by (nonlinear_arith)
                requires
                    p2(7 * k) >= 1,
            ;
            assert((s[k as int] % 128) * p2(7 * k) >= 0) by (nonlinear_arith)
                requires
                    p2(7 * k) >= 1,
            ;
        }
        let b: u64 = (input[k] % 128) as u64;
        let term: u64 = b * mult;
        varval = varval + term;
        mult = mult * 128;
        k = k + 1;
    }
    proof {
        lemma_varint_partial_bound(s, i as int);
        assert((s[i as int] as int) * p2(7 * i) <= 255 * p2(7 * i)) by (nonlinear_arith)
            requires
                p2(7 * i) >= 1,
        ;
        assert((s[i as int] as int) * p2(7 * i) >= 0) by (nonlinear_arith)
            requires
                p2(7 * i) >= 1,
        ;
        if i == 9 {
            assert((s[i as int] as int) * p2(7 * i) <= 1 * p2(63)) by (nonlinear_arith)
                requires
                    s[i as int] <= 1,
                    p2(7 * i) == p2(63),
                    p2(63) >= 1,
            ;
        }
    }
    let fin64: u64 = finalv as u64;
    let term: u64 = fin64 * mult;
    if term > u64::MAX - varval {
        return Ok((i + 1, 0));
    }
    return Ok((i + 1, varval + term));
}

} // verus!
