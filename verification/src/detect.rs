//! The small textual sub-language that detection rules use to write
//! numeric conditions on SETTINGS values: an identifier name followed by an
//! optional condition — equality (with an optional `=`), `<`, `>`, or an
//! interval `lo-hi` — with spaces allowed between the parts.

use vstd::prelude::*;
use vstd::string::StringSliceAdditionalSpecFns;

use crate::types::HTTP2ParseError;
use crate::types::HTTP2SettingsId;

verus! {

/// How a decoded value is to be compared.
#[derive(Clone, Copy, PartialEq, Eq, Structural, Debug)]
pub enum DetectUintMode {
    DetectUintModeEqual,
    DetectUintModeLt,
    DetectUintModeGt,
    DetectUintModeRange,
}

/// A 32-bit condition: a value, a range end (used in `Range` mode), and the
/// comparison mode.
#[derive(Clone, Copy, PartialEq, Eq, Structural, Debug)]
pub struct DetectU32Data {
    pub value: u32,
    pub valrange: u32,
    pub mode: DetectUintMode,
}

/// A 64-bit condition.
#[derive(Clone, Copy, PartialEq, Eq, Structural, Debug)]
pub struct DetectU64Data {
    pub value: u64,
    pub valrange: u64,
    pub mode: DetectUintMode,
}

/// A parsed SETTINGS condition: the identifier and an optional value
/// condition.
pub struct DetectHTTP2settingsSigCtx {
    pub id: HTTP2SettingsId,
    pub value: Option<DetectU32Data>,
}

/// The position after the run of spaces starting at `i`.
pub open spec fn spec_skip_spaces(s: Seq<u8>, i: int) -> int
    decreases s.len() - i,
{
    if 0 <= i < s.len() && s[i] == 32 {
        spec_skip_spaces(s, i + 1)
    } else {
        i
    }
}

/// The position after the run of ASCII digits starting at `i`.
pub open spec fn spec_skip_digits(s: Seq<u8>, i: int) -> int
    decreases s.len() - i,
{
    if 0 <= i < s.len() && 48 <= s[i] <= 57 {
        spec_skip_digits(s, i + 1)
    } else {
        i
    }
}

/// The position after the run of identifier bytes starting at `i`: bytes
/// other than space, `<`, `>` and `=`.
pub open spec fn spec_skip_not_delim(s: Seq<u8>, i: int) -> int
    decreases s.len() - i,
{
    if 0 <= i < s.len() && !(s[i] == 32 || s[i] == 60 || s[i] == 62 || s[i] == 61) {
        spec_skip_not_delim(s, i + 1)
    } else {
        i
    }
}

fn skip_spaces(input: &[u8], from: usize) -> (r: usize)
    requires
        from <= input@.len(),
    ensures
        r == spec_skip_spaces(input@, from as int),
        from <= r <= input@.len(),
{
    let mut p = from;
    while p < input.len() && input[p] == 32
        invariant
            from <= p <= input@.len(),
            spec_skip_spaces(input@, from as int) == spec_skip_spaces(input@, p as int),
        decreases input@.len() - p,
    {
        p = p + 1;
    }
    p
}

fn skip_digits(input: &[u8], from: usize) -> (r: usize)
    requires
        from <= input@.len(),
    ensures
        r == spec_skip_digits(input@, from as int),
        from <= r <= input@.len(),
        forall|j: int| from <= j < r ==> 48 <= #[trigger] input@[j] <= 57,
{
    let mut p = from;
    while p < input.len() && 48 <= input[p] && input[p] <= 57
        invariant
            from <= p <= input@.len(),
            spec_skip_digits(input@, from as int) == spec_skip_digits(input@, p as int),
            forall|j: int| from <= j < p ==> 48 <= #[trigger] input@[j] <= 57,
        decreases input@.len() - p,
    {
        p = p + 1;
    }
    p
}

fn skip_not_delim(input: &[u8], from: usize) -> (r: usize)
    requires
        from <= input@.len(),
    ensures
        r == spec_skip_not_delim(input@, from as int),
        from <= r <= input@.len(),
{
    let mut p = from;
    while p < input.len() && !(input[p] == 32 || input[p] == 60 || input[p] == 62 || input[p]
        == 61)
        invariant
            from <= p <= input@.len(),
            spec_skip_not_delim(input@, from as int) == spec_skip_not_delim(input@, p as int),
        decreases input@.len() - p,
    {
        p = p + 1;
    }
    p
}

/// The decimal value of a digit string.
pub open spec fn spec_dec_val(s: Seq<u8>) -> int
    decreases s.len(),
{
    if s.len() == 0 {
        0
    } else {
        spec_dec_val(s.drop_last()) * 10 + (s.last() - 48)
    }
}

/// Whether every byte is an ASCII digit.
pub open spec fn spec_all_digits(s: Seq<u8>) -> bool {
    forall|i: int| 0 <= i < s.len() ==> 48 <= #[trigger] s[i] <= 57
}

pub proof fn lemma_dec_val_nonneg(s: Seq<u8>)
    requires
        spec_all_digits(s),
    ensures
        spec_dec_val(s) >= 0,
    decreases s.len(),
{
    if s.len() > 0 {
        assert(spec_all_digits(s.drop_last()));
        lemma_dec_val_nonneg(s.drop_last());
    }
}

/// The value of a digit string is at least the value of any of its
/// prefixes: once a prefix overflows, the whole string overflows.
pub proof fn lemma_dec_val_prefix(s: Seq<u8>, k: int)
    requires
        spec_all_digits(s),
        0 <= k <= s.len(),
    ensures
        spec_dec_val(s.take(k)) <= spec_dec_val(s),
    decreases s.len(),
{
    if k == s.len() {
        assert(s.take(k) =~= s);
    } else {
        assert(spec_all_digits(s.drop_last()));
        assert(s.drop_last().take(k) =~= s.take(k));
        lemma_dec_val_prefix(s.drop_last(), k);
        lemma_dec_val_nonneg(s.drop_last());
    }
}

/// Parses the decimal digits `input[from..to]` into a 32-bit value; a value
/// past the 32-bit range is a failed parse.
fn parse_u32_digits(input: &[u8], from: usize, to: usize) -> (r: Option<u32>)
    requires
        from <= to <= input@.len(),
        spec_all_digits(input@.subrange(from as int, to as int)),
    ensures
        ({
            let v = spec_dec_val(input@.subrange(from as int, to as int));
            if v <= u32::MAX {
                r == Some(v as u32)
            } else {
                r is None
            }
        }),
{
    let ghost d = input@.subrange(from as int, to as int);
    let mut acc: u32 = 0;
    let mut p = from;
    proof {
        assert(d.take(0) =~= Seq::<u8>::empty());
    }
    while p < to
        invariant
            from <= p <= to <= input@.len(),
            d == input@.subrange(from as int, to as int),
            spec_all_digits(d),
            acc == spec_dec_val(d.take(p - from)),
        decreases to - p,
    {
        proof {
            assert(d[p - from] == input@[p as int]);
            assert(48 <= d[p - from] <= 57);
        }
        let dig: u8 = input[p] - 48;
        let wide: u64 = (acc as u64) * 10 + (dig as u64);
        proof {
            assert(d.take(p - from + 1).drop_last() =~= d.take(p - from));
            assert(d.take(p - from + 1).last() == d[p - from]);
            assert(d[p - from] == input@[p as int]);
        }
        if wide > 0xffffffff {
            proof {
                lemma_dec_val_prefix(d, p - from + 1);
            }
            return None;
        }
        acc = wide as u32;
        p = p + 1;
    }
    proof {
        assert(d.take(to - from) =~= d);
    }
    Some(acc)
}

/// Parses the decimal digits `input[from..to]` into a 64-bit value; a value
/// past the 64-bit range is a failed parse.
fn parse_u64_digits(input: &[u8], from: usize, to: usize) -> (r: Option<u64>)
    requires
        from <= to <= input@.len(),
        spec_all_digits(input@.subrange(from as int, to as int)),
    ensures
        ({
            let v = spec_dec_val(input@.subrange(from as int, to as int));
            if v <= u64::MAX {
                r == Some(v as u64)
            } else {
                r is None
            }
        }),
{
    let ghost d = input@.subrange(from as int, to as int);
    let mut acc: u64 = 0;
    let mut p = from;
    proof {
        assert(d.take(0) =~= Seq::<u8>::empty());
    }
    while p < to
        invariant
            from <= p <= to <= input@.len(),
            d == input@.subrange(from as int, to as int),
            spec_all_digits(d),
            acc == spec_dec_val(d.take(p - from)),
        decreases to - p,
    {
        proof {
            assert(d[p - from] == input@[p as int]);
            assert(48 <= d[p - from] <= 57);
        }
        let dig: u8 = input[p] - 48;
        let wide: u128 = (acc as u128) * 10 + (dig as u128);
        proof {
            assert(d.take(p - from + 1).drop_last() =~= d.take(p - from));
            assert(d.take(p - from + 1).last() == d[p - from]);
            assert(d[p - from] == input@[p as int]);
        }
        if wide > 0xffffffff_ffffffff {
            proof {
                lemma_dec_val_prefix(d, p - from + 1);
            }
            return None;
        }
        acc = wide as u64;
        p = p + 1;
    }
    proof {
        assert(d.take(to - from) =~= d);
    }
    Some(acc)
}

/// `< value`: optional spaces, `<`, optional spaces, digits.
pub open spec fn spec_detect_u32_lesser(s: Seq<u8>) -> Option<(int, DetectU32Data)> {
    let a = spec_skip_spaces(s, 0);
    if a < s.len() && s[a] == 60 {
        let b = spec_skip_spaces(s, a + 1);
        let e = spec_skip_digits(s, b);
        let v = spec_dec_val(s.subrange(b, e));
        if e > b && v <= u32::MAX {
            Some(
                (
                    e,
                    DetectU32Data {
                        value: v as u32,
                        valrange: 0,
                        mode: DetectUintMode::DetectUintModeLt,
                    },
                ),
            )
        } else {
            None
        }
    } else {
        None
    }
}

/// `> value`: optional spaces, `>`, optional spaces, digits.
pub open spec fn spec_detect_u32_greater(s: Seq<u8>) -> Option<(int, DetectU32Data)> {
    let a = spec_skip_spaces(s, 0);
    if a < s.len() && s[a] == 62 {
        let b = spec_skip_spaces(s, a + 1);
        let e = spec_skip_digits(s, b);
        let v = spec_dec_val(s.subrange(b, e));
        if e > b && v <= u32::MAX {
            Some(
                (
                    e,
                    DetectU32Data {
                        value: v as u32,
                        valrange: 0,
                        mode: DetectUintMode::DetectUintModeGt,
                    },
                ),
            )
        } else {
            None
        }
    } else {
        None
    }
}

/// `lo-hi`: optional spaces, digits, optional spaces, `-`, optional
/// spaces, digits.
pub open spec fn spec_detect_u32_interval(s: Seq<u8>) -> Option<(int, DetectU32Data)> {
    let a = spec_skip_spaces(s, 0);
    let e1 = spec_skip_digits(s, a);
    let v1 = spec_dec_val(s.subrange(a, e1));
    if e1 > a && v1 <= u32::MAX {
        let b = spec_skip_spaces(s, e1);
        if b < s.len() && s[b] == 45 {
            let c = spec_skip_spaces(s, b + 1);
            let e2 = spec_skip_digits(s, c);
            let v2 = spec_dec_val(s.subrange(c, e2));
            if e2 > c && v2 <= u32::MAX {
                Some(
                    (
                        e2,
                        DetectU32Data {
                            value: v1 as u32,
                            valrange: v2 as u32,
                            mode: DetectUintMode::DetectUintModeRange,
                        },
                    ),
                )
            } else {
                None
            }
        } else {
            None
        }
    } else {
        None
    }
}

/// `= value` or bare `value`: optional spaces, an optional `=`, optional
/// spaces, digits.
pub open spec fn spec_detect_u32_equal(s: Seq<u8>) -> Option<(int, DetectU32Data)> {
    let a = spec_skip_spaces(s, 0);
    let b = if a < s.len() && s[a] == 61 {
        a + 1
    } else {
        a
    };
    let c = spec_skip_spaces(s, b);
    let e = spec_skip_digits(s, c);
    let v = spec_dec_val(s.subrange(c, e));
    if e > c && v <= u32::MAX {
        Some(
            (
                e,
                DetectU32Data {
                    value: v as u32,
                    valrange: 0,
                    mode: DetectUintMode::DetectUintModeEqual,
                },
            ),
        )
    } else {
        None
    }
}

/// A 32-bit condition: the first of `<`, `>`, interval, equality that
/// matches, in that order.
pub open spec fn spec_detect_u32(s: Seq<u8>) -> Option<(int, DetectU32Data)> {
    if spec_detect_u32_lesser(s) is Some {
        spec_detect_u32_lesser(s)
    } else if spec_detect_u32_greater(s) is Some {
        spec_detect_u32_greater(s)
    } else if spec_detect_u32_interval(s) is Some {
        spec_detect_u32_interval(s)
    } else {
        spec_detect_u32_equal(s)
    }
}

fn detect_u32_lesser(input: &[u8]) -> (r: Option<(usize, DetectU32Data)>)
    ensures
        match spec_detect_u32_lesser(input@) {
            Option::None => r is None,
            Option::Some((c, v)) => {
                &&& 0 <= c <= input@.len()
                &&& r == Some((c as usize, v))
            },
        },
{
    let a = skip_spaces(input, 0);
    if a < input.len() && input[a] == 60 {
        let b = skip_spaces(input, a + 1);
        let e = skip_digits(input, b);
        if e > b {
            match parse_u32_digits(input, b, e) {
                Some(v) => Some(
                    (
                        e,
                        DetectU32Data {
                            value: v,
                            valrange: 0,
                            mode: DetectUintMode::DetectUintModeLt,
                        },
                    ),
                ),
                None => None,
            }
        } else {
            None
        }
    } else {
        None
    }
}

fn detect_u32_greater(input: &[u8]) -> (r: Option<(usize, DetectU32Data)>)
    ensures
        match spec_detect_u32_greater(input@) {
            Option::None => r is None,
            Option::Some((c, v)) => {
                &&& 0 <= c <= input@.len()
                &&& r == Some((c as usize, v))
            },
        },
{
    let a = skip_spaces(input, 0);
    if a < input.len() && input[a] == 62 {
        let b = skip_spaces(input, a + 1);
        let e = skip_digits(input, b);
        if e > b {
            match parse_u32_digits(input, b, e) {
                Some(v) => Some(
                    (
                        e,
                        DetectU32Data {
                            value: v,
                            valrange: 0,
                            mode: DetectUintMode::DetectUintModeGt,
                        },
                    ),
                ),
                None => None,
            }
        } else {
            None
        }
    } else {
        None
    }
}

fn detect_u32_interval(input: &[u8]) -> (r: Option<(usize, DetectU32Data)>)
    ensures
        match spec_detect_u32_interval(input@) {
            Option::None => r is None,
            Option::Some((c, v)) => {
                &&& 0 <= c <= input@.len()
                &&& r == Some((c as usize, v))
            },
        },
{
    let a = skip_spaces(input, 0);
    let e1 = skip_digits(input, a);
    if e1 == a {
        return None;
    }
    let v1 = match parse_u32_digits(input, a, e1) {
        Some(v) => v,
        None => {
            return None;
        },
    };
    let b = skip_spaces(input, e1);
    if b < input.len() && input[b] == 45 {
        let c = skip_spaces(input, b + 1);
        let e2 = skip_digits(input, c);
        if e2 > c {
            match parse_u32_digits(input, c, e2) {
                Some(v2) => Some(
                    (
                        e2,
                        DetectU32Data {
                            value: v1,
                            valrange: v2,
                            mode: DetectUintMode::DetectUintModeRange,
                        },
                    ),
                ),
                None => None,
            }
        } else {
            None
        }
    } else {
        None
    }
}

fn detect_u32_equal(input: &[u8]) -> (r: Option<(usize, DetectU32Data)>)
    ensures
        match spec_detect_u32_equal(input@) {
            Option::None => r is None,
            Option::Some((c, v)) => {
                &&& 0 <= c <= input@.len()
                &&& r == Some((c as usize, v))
            },
        },
{
    let a = skip_spaces(input, 0);
    let b = if a < input.len() && input[a] == 61 {
        a + 1
    } else {
        a
    };
    let c = skip_spaces(input, b);
    let e = skip_digits(input, c);
    if e > c {
        match parse_u32_digits(input, c, e) {
            Some(v) => Some(
                (
                    e,
                    DetectU32Data {
                        value: v,
                        valrange: 0,
                        mode: DetectUintMode::DetectUintModeEqual,
                    },
                ),
            ),
            None => None,
        }
    } else {
        None
    }
}

/// Parses a 32-bit condition off the front of `input`.
fn detect_parse_u32(input: &[u8]) -> (r: Option<(usize, DetectU32Data)>)
    ensures
        match spec_detect_u32(input@) {
            Option::None => r is None,
            Option::Some((c, v)) => {
                &&& 0 <= c <= input@.len()
                &&& r == Some((c as usize, v))
            },
        },
{
    let r1 = detect_u32_lesser(input);
    if r1.is_some() {
        return r1;
    }
    let r2 = detect_u32_greater(input);
    if r2.is_some() {
        return r2;
    }
    let r3 = detect_u32_interval(input);
    if r3.is_some() {
        return r3;
    }
    detect_u32_equal(input)
}

/// `< value`, 64-bit.
pub open spec fn spec_detect_u64_lesser(s: Seq<u8>) -> Option<(int, DetectU64Data)> {
    let a = spec_skip_spaces(s, 0);
    if a < s.len() && s[a] == 60 {
        let b = spec_skip_spaces(s, a + 1);
        let e = spec_skip_digits(s, b);
        let v = spec_dec_val(s.subrange(b, e));
        if e > b && v <= u64::MAX {
            Some(
                (
                    e,
                    DetectU64Data {
                        value: v as u64,
                        valrange: 0,
                        mode: DetectUintMode::DetectUintModeLt,
                    },
                ),
            )
        } else {
            None
        }
    } else {
        None
    }
}

/// `> value`, 64-bit.
pub open spec fn spec_detect_u64_greater(s: Seq<u8>) -> Option<(int, DetectU64Data)> {
    let a = spec_skip_spaces(s, 0);
    if a < s.len() && s[a] == 62 {
        let b = spec_skip_spaces(s, a + 1);
        let e = spec_skip_digits(s, b);
        let v = spec_dec_val(s.subrange(b, e));
        if e > b && v <= u64::MAX {
            Some(
                (
                    e,
                    DetectU64Data {
                        value: v as u64,
                        valrange: 0,
                        mode: DetectUintMode::DetectUintModeGt,
                    },
                ),
            )
        } else {
            None
        }
    } else {
        None
    }
}

/// `lo-hi`, 64-bit.
pub open spec fn spec_detect_u64_interval(s: Seq<u8>) -> Option<(int, DetectU64Data)> {
    let a = spec_skip_spaces(s, 0);
    let e1 = spec_skip_digits(s, a);
    let v1 = spec_dec_val(s.subrange(a, e1));
    if e1 > a && v1 <= u64::MAX {
        let b = spec_skip_spaces(s, e1);
        if b < s.len() && s[b] == 45 {
            let c = spec_skip_spaces(s, b + 1);
            let e2 = spec_skip_digits(s, c);
            let v2 = spec_dec_val(s.subrange(c, e2));
            if e2 > c && v2 <= u64::MAX {
                Some(
                    (
                        e2,
                        DetectU64Data {
                            value: v1 as u64,
                            valrange: v2 as u64,
                            mode: DetectUintMode::DetectUintModeRange,
                        },
                    ),
                )
            } else {
                None
            }
        } else {
            None
        }
    } else {
        None
    }
}

/// `= value` or bare `value`, 64-bit.
pub open spec fn spec_detect_u64_equal(s: Seq<u8>) -> Option<(int, DetectU64Data)> {
    let a = spec_skip_spaces(s, 0);
    let b = if a < s.len() && s[a] == 61 {
        a + 1
    } else {
        a
    };
    let c = spec_skip_spaces(s, b);
    let e = spec_skip_digits(s, c);
    let v = spec_dec_val(s.subrange(c, e));
    if e > c && v <= u64::MAX {
        Some(
            (
                e,
                DetectU64Data {
                    value: v as u64,
                    valrange: 0,
                    mode: DetectUintMode::DetectUintModeEqual,
                },
            ),
        )
    } else {
        None
    }
}

/// A 64-bit condition: the first of `<`, `>`, interval, equality that
/// matches, in that order.
pub open spec fn spec_detect_u64(s: Seq<u8>) -> Option<(int, DetectU64Data)> {
    if spec_detect_u64_lesser(s) is Some {
        spec_detect_u64_lesser(s)
    } else if spec_detect_u64_greater(s) is Some {
        spec_detect_u64_greater(s)
    } else if spec_detect_u64_interval(s) is Some {
        spec_detect_u64_interval(s)
    } else {
        spec_detect_u64_equal(s)
    }
}

fn detect_u64_lesser(input: &[u8]) -> (r: Option<(usize, DetectU64Data)>)
    ensures
        match spec_detect_u64_lesser(input@) {
            Option::None => r is None,
            Option::Some((c, v)) => {
                &&& 0 <= c <= input@.len()
                &&& r == Some((c as usize, v))
            },
        },
{
    let a = skip_spaces(input, 0);
    if a < input.len() && input[a] == 60 {
        let b = skip_spaces(input, a + 1);
        let e = skip_digits(input, b);
        if e > b {
            match parse_u64_digits(input, b, e) {
                Some(v) => Some(
                    (
                        e,
                        DetectU64Data {
                            value: v,
                            valrange: 0,
                            mode: DetectUintMode::DetectUintModeLt,
                        },
                    ),
                ),
                None => None,
            }
        } else {
            None
        }
    } else {
        None
    }
}

fn detect_u64_greater(input: &[u8]) -> (r: Option<(usize, DetectU64Data)>)
    ensures
        match spec_detect_u64_greater(input@) {
            Option::None => r is None,
            Option::Some((c, v)) => {
                &&& 0 <= c <= input@.len()
                &&& r == Some((c as usize, v))
            },
        },
{
    let a = skip_spaces(input, 0);
    if a < input.len() && input[a] == 62 {
        let b = skip_spaces(input, a + 1);
        let e = skip_digits(input, b);
        if e > b {
            match parse_u64_digits(input, b, e) {
                Some(v) => Some(
                    (
                        e,
                        DetectU64Data {
                            value: v,
                            valrange: 0,
                            mode: DetectUintMode::DetectUintModeGt,
                        },
                    ),
                ),
                None => None,
            }
        } else {
            None
        }
    } else {
        None
    }
}

fn detect_u64_interval(input: &[u8]) -> (r: Option<(usize, DetectU64Data)>)
    ensures
        match spec_detect_u64_interval(input@) {
            Option::None => r is None,
            Option::Some((c, v)) => {
                &&& 0 <= c <= input@.len()
                &&& r == Some((c as usize, v))
            },
        },
{
    let a = skip_spaces(input, 0);
    let e1 = skip_digits(input, a);
    if e1 == a {
        return None;
    }
    let v1 = match parse_u64_digits(input, a, e1) {
        Some(v) => v,
        None => {
            return None;
        },
    };
    let b = skip_spaces(input, e1);
    if b < input.len() && input[b] == 45 {
        let c = skip_spaces(input, b + 1);
        let e2 = skip_digits(input, c);
        if e2 > c {
            match parse_u64_digits(input, c, e2) {
                Some(v2) => Some(
                    (
                        e2,
                        DetectU64Data {
                            value: v1,
                            valrange: v2,
                            mode: DetectUintMode::DetectUintModeRange,
                        },
                    ),
                ),
                None => None,
            }
        } else {
            None
        }
    } else {
        None
    }
}

fn detect_u64_equal(input: &[u8]) -> (r: Option<(usize, DetectU64Data)>)
    ensures
        match spec_detect_u64_equal(input@) {
            Option::None => r is None,
            Option::Some((c, v)) => {
                &&& 0 <= c <= input@.len()
                &&& r == Some((c as usize, v))
            },
        },
{
    let a = skip_spaces(input, 0);
    let b = if a < input.len() && input[a] == 61 {
        a + 1
    } else {
        a
    };
    let c = skip_spaces(input, b);
    let e = skip_digits(input, c);
    if e > c {
        match parse_u64_digits(input, c, e) {
            Some(v) => Some(
                (
                    e,
                    DetectU64Data {
                        value: v,
                        valrange: 0,
                        mode: DetectUintMode::DetectUintModeEqual,
                    },
                ),
            ),
            None => None,
        }
    } else {
        None
    }
}

/// Parses a 64-bit condition off the front of `s`: the value and how to
/// compare it, with the bytes consumed; or nothing when no condition form
/// matches.
pub fn detect_parse_u64(s: &str) -> (r: Option<(usize, DetectU64Data)>)
    ensures
        match spec_detect_u64(s.spec_bytes()) {
            Option::None => r is None,
            Option::Some((c, v)) => {
                &&& 0 <= c <= s.spec_bytes().len()
                &&& r == Some((c as usize, v))
            },
        },
{
    let input = s.as_bytes();
    let r1 = detect_u64_lesser(input);
    if r1.is_some() {
        return r1;
    }
    let r2 = detect_u64_greater(input);
    if r2.is_some() {
        return r2;
    }
    let r3 = detect_u64_interval(input);
    if r3.is_some() {
        return r3;
    }
    detect_u64_equal(input)
}

/// The outcome of parsing a SETTINGS condition.
pub enum SettingsCtxStep {
    /// The input was empty or all spaces: nothing to decide on yet.
    Incomplete,
    /// The identifier is not a recognized SETTINGS name.
    Fail,
    /// A recognized identifier, an optional condition, and the bytes
    /// consumed.
    Done { consumed: int, id: HTTP2SettingsId, value: Option<DetectU32Data> },
}

/// Parsing a SETTINGS condition: optional spaces, an identifier running to
/// the first space, `<`, `>` or `=` (or to the end), matched
/// case-insensitively against the SETTINGS names, then an optional 32-bit
/// condition. An identifier that starts at a delimiter swallows the rest of
/// the input and fails the name match.
pub open spec fn spec_settingsctx(s: Seq<u8>) -> SettingsCtxStep {
    let a = spec_skip_spaces(s, 0);
    if a == s.len() {
        SettingsCtxStep::Incomplete
    } else {
        let j = spec_skip_not_delim(s, a);
        let idb = if j == a || j == s.len() {
            s.subrange(a, s.len() as int)
        } else {
            s.subrange(a, j)
        };
        let rest_at: int = if j == a || j == s.len() {
            s.len() as int
        } else {
            j
        };
        match HTTP2SettingsId::spec_from_name(idb) {
            Option::None => SettingsCtxStep::Fail,
            Option::Some(id) => match spec_detect_u32(s.skip(rest_at)) {
                Option::None => SettingsCtxStep::Done { consumed: rest_at, id, value: None },
                Option::Some((c, data)) => SettingsCtxStep::Done {
                    consumed: rest_at + c,
                    id,
                    value: Some(data),
                },
            },
        }
    }
}

/// Parses a SETTINGS condition: the identifier and, when present, the
/// numeric condition on its value, with the bytes consumed. Empty or
/// all-space input is incomplete; an unrecognized identifier is an error.
pub fn http2_parse_settingsctx(s: &str) -> (r: Result<
    (usize, DetectHTTP2settingsSigCtx),
    HTTP2ParseError,
>)
    ensures
        match spec_settingsctx(s.spec_bytes()) {
            SettingsCtxStep::Incomplete => r == Err::<
                (usize, DetectHTTP2settingsSigCtx),
                HTTP2ParseError,
            >(HTTP2ParseError::Incomplete),
            SettingsCtxStep::Fail => r == Err::<
                (usize, DetectHTTP2settingsSigCtx),
                HTTP2ParseError,
            >(HTTP2ParseError::Error),
            SettingsCtxStep::Done { consumed, id, value } => {
                &&& r matches Ok((c, ctx))
                &&& c == consumed
                &&& ctx.id == id
                &&& ctx.value == value
            },
        },
{
    let input = s.as_bytes();
    let a = skip_spaces(input, 0);
    if a == input.len() {
        return Err(HTTP2ParseError::Incomplete);
    }
    let j = skip_not_delim(input, a);
    let rest_at: usize = if j == a || j == input.len() {
        input.len()
    } else {
        j
    };
    let idb = &input[a..rest_at];
    proof {
        assert(idb@ =~= input@.subrange(a as int, rest_at as int));
    }
    match HTTP2SettingsId::from_name_bytes(idb) {
        None => Err(HTTP2ParseError::Error),
        Some(id) => {
            let rest = &input[rest_at..input.len()];
            proof {
                assert(rest@ =~= input@.skip(rest_at as int));
            }
            match detect_parse_u32(rest) {
                None => Ok((rest_at, DetectHTTP2settingsSigCtx { id, value: None })),
                Some((c, data)) => Ok(
                    (rest_at + c, DetectHTTP2settingsSigCtx { id, value: Some(data) }),
                ),
            }
        },
    }
}

} // verus!
