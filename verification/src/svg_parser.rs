//! Parser for the SVG path mini-language.
//!
//! The grammar is the `d` attribute of the W3C SVG path specification:
//! command letters `M m L l H h V v C c S s Q q T t A a Z z`, each
//! followed by its parameters separated by whitespace or a single comma,
//! with parameter-list repetition (after a moveto, extra coordinate pairs
//! repeat as linetos) and the usual export quirks (a negative number or a
//! bare fraction may follow the previous token with no separator at all).
//! A path must start with a moveto; an empty or all-whitespace string is a
//! valid empty path.
//!
//! Numbers are read into the fixed-point scalar [`Fixed`]: five decimal
//! places exactly, further digits truncated toward zero, and values beyond
//! the representable range saturated. Exponents are applied as decimal
//! shifts. Parsing never panics: every malformed input is reported as an
//! [`SvgParseError`] naming the offending position, exactly as the
//! specification functions below describe.

use vstd::prelude::*;

use crate::fixed::{sat64, Fixed};

verus! {

/// One parsed segment of an SVG path; `abs` tells absolute from relative.
#[derive(Clone, Copy, Debug, PartialEq, Eq, Structural)]
#[allow(missing_docs)]
pub enum PathSegment {
    MoveTo { abs: bool, x: Fixed, y: Fixed },
    LineTo { abs: bool, x: Fixed, y: Fixed },
    HorizontalLineTo { abs: bool, x: Fixed },
    VerticalLineTo { abs: bool, y: Fixed },
    CurveTo { abs: bool, x1: Fixed, y1: Fixed, x2: Fixed, y2: Fixed, x: Fixed, y: Fixed },
    SmoothCurveTo { abs: bool, x2: Fixed, y2: Fixed, x: Fixed, y: Fixed },
    Quadratic { abs: bool, x1: Fixed, y1: Fixed, x: Fixed, y: Fixed },
    SmoothQuadratic { abs: bool, x: Fixed, y: Fixed },
    EllipticalArc {
        abs: bool,
        rx: Fixed,
        ry: Fixed,
        x_axis_rotation: Fixed,
        large_arc: bool,
        sweep: bool,
        x: Fixed,
        y: Fixed,
    },
    ClosePath,
}

/// Why a path string was rejected.
#[derive(Clone, Copy, Debug, PartialEq, Eq, Structural)]
pub enum SvgParseError {
    /// The input ended where a number, flag or exponent was required.
    UnexpectedEnd,
    /// The byte at `pos` fits no production of the grammar.
    UnexpectedData {
        /// Index of the offending byte in the path string.
        pos: usize,
    },
}

/// Whitespace accepted between tokens.
pub open spec fn is_ws_byte(b: u8) -> bool {
    b == 32 || b == 9 || b == 10 || b == 12 || b == 13
}

/// ASCII decimal digit.
pub open spec fn is_digit_byte(b: u8) -> bool {
    48 <= b && b <= 57
}

/// A byte that can begin a number: digit, sign, or decimal point.
pub open spec fn starts_number_byte(b: u8) -> bool {
    is_digit_byte(b) || b == 43 || b == 45 || b == 46
}

/// One of the twenty command letters.
pub open spec fn is_command_byte(b: u8) -> bool {
    ||| b == 77 || b == 109  // M m
    ||| b == 76 || b == 108  // L l
    ||| b == 72 || b == 104  // H h
    ||| b == 86 || b == 118  // V v
    ||| b == 67 || b == 99  // C c
    ||| b == 83 || b == 115  // S s
    ||| b == 81 || b == 113  // Q q
    ||| b == 84 || b == 116  // T t
    ||| b == 65 || b == 97  // A a
    ||| b == 90 || b == 122  // Z z
}

/// First position at or after `i` holding no whitespace.
pub open spec fn skip_ws_spec(s: Seq<u8>, i: int) -> int
    decreases s.len() - i,
{
    if 0 <= i && i < s.len() && is_ws_byte(s[i]) {
        skip_ws_spec(s, i + 1)
    } else {
        i
    }
}

/// Position after whitespace, at most one comma, and more whitespace.
pub open spec fn skip_sep_spec(s: Seq<u8>, i: int) -> int {
    let j = skip_ws_spec(s, i);
    if j < s.len() && s[j] == 44 {
        skip_ws_spec(s, j + 1)
    } else {
        j
    }
}

/// First position at or after `i` holding no digit.
pub open spec fn digits_end_spec(s: Seq<u8>, i: int) -> int
    decreases s.len() - i,
{
    if 0 <= i && i < s.len() && is_digit_byte(s[i]) {
        digits_end_spec(s, i + 1)
    } else {
        i
    }
}

/// Folds the digits of `s[i..j]` onto the mantissa `m0`, left to right:
/// the first component is the mantissa, kept below `10^18` by ignoring
/// further digits once it reaches `10^17`; the second counts the ignored
/// digits.
pub open spec fn accum_digits_spec(s: Seq<u8>, i: int, j: int, m0: int) -> (int, int)
    decreases j - i,
{
    if j <= i {
        (m0, 0)
    } else {
        let prev = accum_digits_spec(s, i, j - 1, m0);
        if prev.0 < 100_000_000_000_000_000 {
            (10 * prev.0 + (s[j - 1] - 48), prev.1)
        } else {
            (prev.0, prev.1 + 1)
        }
    }
}

/// Folds the digits of `s[i..j]` into an exponent value, saturating once
/// it reaches `100000` — far beyond any representable decimal shift.
pub open spec fn accum_exp_spec(s: Seq<u8>, i: int, j: int) -> int
    decreases j - i,
{
    if j <= i {
        0
    } else {
        let prev = accum_exp_spec(s, i, j - 1);
        if prev < 100_000 {
            10 * prev + (s[j - 1] - 48)
        } else {
            prev
        }
    }
}

/// `10^k`.
pub open spec fn pow10_spec(k: nat) -> int
    decreases k,
{
    if k == 0 {
        1
    } else {
        10 * pow10_spec((k - 1) as nat)
    }
}

/// The raw fixed-point value denoted by sign `neg`, mantissa `m` and
/// decimal exponent `e`: `±m * 10^e` scaled by `10^5`, truncated toward
/// zero and saturated into the raw range.
pub open spec fn combine_number_spec(neg: bool, m: int, e: int) -> int {
    let k = e + 5;
    if m == 0 {
        0
    } else if k >= 19 {
        if neg {
            i64::MIN as int
        } else {
            i64::MAX as int
        }
    } else if k >= 0 {
        if neg {
            sat64(-(m * pow10_spec(k as nat)))
        } else {
            sat64(m * pow10_spec(k as nat))
        }
    } else if k <= -18 {
        0
    } else {
        if neg {
            -(m / pow10_spec((-k) as nat))
        } else {
            m / pow10_spec((-k) as nat)
        }
    }
}

/// What `parse_number` returns: the raw fixed-point value and the position
/// after the number, or the error mandated by the grammar. A number is
/// `sign? (digits ('.' digits?)? | '.' digits) (('e'|'E') sign? digits)?`.
pub open spec fn parse_number_spec(s: Seq<u8>, i: int) -> Result<(int, int), SvgParseError> {
    if i < 0 || i >= s.len() {
        Err(SvgParseError::UnexpectedEnd)
    } else {
        let neg = s[i] == 45;
        let i1 = if s[i] == 45 || s[i] == 43 {
            i + 1
        } else {
            i
        };
        let d1 = digits_end_spec(s, i1);
        let has_frac = d1 < s.len() && s[d1] == 46;
        let fe = if has_frac {
            digits_end_spec(s, d1 + 1)
        } else {
            d1
        };
        if d1 == i1 && (!has_frac || fe == d1 + 1) {
            Err(SvgParseError::UnexpectedData { pos: i as usize })
        } else {
            let mi = accum_digits_spec(s, i1, d1, 0);
            let mf = if has_frac {
                accum_digits_spec(s, d1 + 1, fe, mi.0)
            } else {
                mi
            };
            let consumed_frac = if has_frac {
                (fe - (d1 + 1)) - mf.1
            } else {
                0
            };
            let after = if has_frac {
                fe
            } else {
                d1
            };
            let e0 = mi.1 - consumed_frac;
            if after < s.len() && (s[after] == 101 || s[after] == 69) {
                if after + 1 >= s.len() {
                    Err(SvgParseError::UnexpectedEnd)
                } else {
                    let eneg = s[after + 1] == 45;
                    let k1 = if s[after + 1] == 45 || s[after + 1] == 43 {
                        after + 2
                    } else {
                        after + 1
                    };
                    let k2 = digits_end_spec(s, k1);
                    if k2 == k1 {
                        if k1 >= s.len() {
                            Err(SvgParseError::UnexpectedEnd)
                        } else {
                            Err(SvgParseError::UnexpectedData { pos: k1 as usize })
                        }
                    } else {
                        let ev = accum_exp_spec(s, k1, k2);
                        let e = if eneg {
                            e0 - ev
                        } else {
                            e0 + ev
                        };
                        Ok((combine_number_spec(neg, mf.0, e), k2))
                    }
                }
            } else {
                Ok((combine_number_spec(neg, mf.0, e0), after))
            }
        }
    }
}

/// `skip_ws_spec` stays within `[i, s.len()]` and stops on no whitespace.
pub proof fn lemma_skip_ws_bounds(s: Seq<u8>, i: int)
    requires
        0 <= i <= s.len(),
    ensures
        i <= skip_ws_spec(s, i) <= s.len(),
        skip_ws_spec(s, i) < s.len() ==> !is_ws_byte(s[skip_ws_spec(s, i)]),
    decreases s.len() - i,
{
    if i < s.len() && is_ws_byte(s[i]) {
        lemma_skip_ws_bounds(s, i + 1);
    }
}

/// `skip_sep_spec` stays within `[i, s.len()]`.
pub proof fn lemma_skip_sep_bounds(s: Seq<u8>, i: int)
    requires
        0 <= i <= s.len(),
    ensures
        i <= skip_sep_spec(s, i) <= s.len(),
{
    lemma_skip_ws_bounds(s, i);
    let j = skip_ws_spec(s, i);
    if j < s.len() && s[j] == 44 {
        lemma_skip_ws_bounds(s, j + 1);
    }
}

/// `digits_end_spec` stays within `[i, s.len()]` and sees only digits.
pub proof fn lemma_digits_end_bounds(s: Seq<u8>, i: int)
    requires
        0 <= i <= s.len(),
    ensures
        i <= digits_end_spec(s, i) <= s.len(),
        forall|k: int| i <= k < digits_end_spec(s, i) ==> is_digit_byte(s[k]),
    decreases s.len() - i,
{
    if i < s.len() && is_digit_byte(s[i]) {
        lemma_digits_end_bounds(s, i + 1);
    }
}

/// A successful number parse advances strictly and stays within bounds.
pub proof fn lemma_parse_number_advances(s: Seq<u8>, i: int)
    requires
        0 <= i,
    ensures
        match parse_number_spec(s, i) {
            Ok((v, n)) => i < n <= s.len(),
            Err(_) => true,
        },
{
    if i < s.len() {
        let i1 = if s[i] == 45 || s[i] == 43 {
            i + 1
        } else {
            i
        };
        lemma_digits_end_bounds(s, i1);
        let d1 = digits_end_spec(s, i1);
        let has_frac = d1 < s.len() && s[d1] == 46;
        if has_frac {
            lemma_digits_end_bounds(s, d1 + 1);
        }
        let fe = if has_frac {
            digits_end_spec(s, d1 + 1)
        } else {
            d1
        };
        let after = if has_frac {
            fe
        } else {
            d1
        };
        if after < s.len() && (s[after] == 101 || s[after] == 69) {
            if after + 1 < s.len() {
                let k1 = if s[after + 1] == 45 || s[after + 1] == 43 {
                    after + 2
                } else {
                    after + 1
                };
                if k1 <= s.len() {
                    lemma_digits_end_bounds(s, k1);
                }
            }
        }
    }
}

/// Exec mirror of [`is_ws_byte`].
fn byte_is_ws(b: u8) -> (r: bool)
    ensures
        r == is_ws_byte(b),
{
    b == 32 || b == 9 || b == 10 || b == 12 || b == 13
}

/// Exec mirror of [`is_digit_byte`].
fn byte_is_digit(b: u8) -> (r: bool)
    ensures
        r == is_digit_byte(b),
{
    48 <= b && b <= 57
}

/// Exec mirror of [`starts_number_byte`].
fn byte_starts_number(b: u8) -> (r: bool)
    ensures
        r == starts_number_byte(b),
{
    byte_is_digit(b) || b == 43 || b == 45 || b == 46
}

/// Exec mirror of [`is_command_byte`].
fn byte_is_command(b: u8) -> (r: bool)
    ensures
        r == is_command_byte(b),
{
    b == 77 || b == 109 || b == 76 || b == 108 || b == 72 || b == 104 || b == 86 || b == 118
        || b == 67 || b == 99 || b == 83 || b == 115 || b == 81 || b == 113 || b == 84 || b == 116
        || b == 65 || b == 97 || b == 90 || b == 122
}

/// Skips whitespace from `i`.
fn skip_ws(s: &[u8], i: usize) -> (r: usize)
    requires
        i <= s@.len(),
    ensures
        r as int == skip_ws_spec(s@, i as int),
        i <= r <= s@.len(),
{
    let mut j = i;
    while j < s.len() && byte_is_ws(s[j])
        invariant
            i <= j <= s@.len(),
            skip_ws_spec(s@, i as int) == skip_ws_spec(s@, j as int),
        decreases s@.len() - j,
    {
        j = j + 1;
    }
    j
}

/// Skips whitespace, at most one comma, and more whitespace from `i`.
fn skip_sep(s: &[u8], i: usize) -> (r: usize)
    requires
        i <= s@.len(),
    ensures
        r as int == skip_sep_spec(s@, i as int),
        i <= r <= s@.len(),
{
    let j = skip_ws(s, i);
    if j < s.len() && s[j] == 44 {
        skip_ws(s, j + 1)
    } else {
        j
    }
}

/// Finds the end of the digit run starting at `i`.
fn digits_end(s: &[u8], i: usize) -> (r: usize)
    requires
        i <= s@.len(),
    ensures
        r as int == digits_end_spec(s@, i as int),
        i <= r <= s@.len(),
        forall|k: int| i <= k < r ==> is_digit_byte(s@[k]),
{
    let mut j = i;
    while j < s.len() && byte_is_digit(s[j])
        invariant
            i <= j <= s@.len(),
            digits_end_spec(s@, i as int) == digits_end_spec(s@, j as int),
            forall|k: int| i <= k < j ==> is_digit_byte(s@[k]),
        decreases s@.len() - j,
    {
        j = j + 1;
    }
    j
}

/// Folds the digit run `s[i..j]` onto `m0`; see [`accum_digits_spec`].
fn accum_digits(s: &[u8], i: usize, j: usize, m0: u64) -> (r: (u64, usize))
    requires
        i <= j <= s@.len(),
        m0 < 1_000_000_000_000_000_000,
        forall|k: int| i <= k < j ==> is_digit_byte(s@[k]),
    ensures
        (r.0 as int, r.1 as int) == accum_digits_spec(s@, i as int, j as int, m0 as int),
        r.0 < 1_000_000_000_000_000_000,
        r.1 <= j - i,
{
    let mut m: u64 = m0;
    let mut sk: usize = 0;
    let mut k: usize = i;
    while k < j
        invariant
            i <= k <= j <= s@.len(),
            m < 1_000_000_000_000_000_000,
            sk <= k - i,
            forall|t: int| i <= t < j ==> is_digit_byte(s@[t]),
            (m as int, sk as int) == accum_digits_spec(s@, i as int, k as int, m0 as int),
        decreases j - k,
    {
        let d = s[k];
        if m < 100_000_000_000_000_000 {
            m = 10 * m + ((d - 48) as u64);
        } else {
            sk = sk + 1;
        }
        k = k + 1;
    }
    (m, sk)
}

/// Folds the digit run `s[i..j]` into an exponent; see [`accum_exp_spec`].
fn accum_exp(s: &[u8], i: usize, j: usize) -> (r: u64)
    requires
        i <= j <= s@.len(),
        forall|k: int| i <= k < j ==> is_digit_byte(s@[k]),
    ensures
        r as int == accum_exp_spec(s@, i as int, j as int),
        r <= 1_000_009,
{
    let mut ev: u64 = 0;
    let mut k: usize = i;
    while k < j
        invariant
            i <= k <= j <= s@.len(),
            ev <= 1_000_009,
            forall|t: int| i <= t < j ==> is_digit_byte(s@[t]),
            ev as int == accum_exp_spec(s@, i as int, k as int),
        decreases j - k,
    {
        let d = s[k];
        if ev < 100_000 {
            ev = 10 * ev + ((d - 48) as u64);
        }
        k = k + 1;
    }
    ev
}

/// `10^k` for `k` up to `18`.
fn pow10_u128(k: usize) -> (r: u128)
    requires
        k <= 18,
    ensures
        r as int == pow10_spec(k as nat),
        1 <= r <= 1_000_000_000_000_000_000,
{
    proof {
        reveal_with_fuel(pow10_spec, 20);
    }
    match k {
        0 => 1,
        1 => 10,
        2 => 100,
        3 => 1_000,
        4 => 10_000,
        5 => 100_000,
        6 => 1_000_000,
        7 => 10_000_000,
        8 => 100_000_000,
        9 => 1_000_000_000,
        10 => 10_000_000_000,
        11 => 100_000_000_000,
        12 => 1_000_000_000_000,
        13 => 10_000_000_000_000,
        14 => 100_000_000_000_000,
        15 => 1_000_000_000_000_000,
        16 => 10_000_000_000_000_000,
        17 => 100_000_000_000_000_000,
        _ => 1_000_000_000_000_000_000,
    }
}

/// Combines sign, mantissa and exponent; see [`combine_number_spec`].
fn combine_number(neg: bool, m: u64, e: i128) -> (r: i64)
    requires
        m < 1_000_000_000_000_000_000,
        -170_141_183_460_469_231_731_687_303_715_884_105_723 <= e
            <= 170_141_183_460_469_231_731_687_303_715_884_105_722,
    ensures
        r as int == combine_number_spec(neg, m as int, e as int),
{
    let k: i128 = e + 5;
    if m == 0 {
        0
    } else if k >= 19 {
        if neg {
            i64::MIN
        } else {
            i64::MAX
        }
    } else if k >= 0 {
        let p = pow10_u128(k as usize);
        proof {
            assert((m as int) * (p as int) <= 1_000_000_000_000_000_000
                * 1_000_000_000_000_000_000) by (nonlinear_arith)
                requires
                    0 <= m <= 1_000_000_000_000_000_000 && 0 <= p <= 1_000_000_000_000_000_000,
            ;
            assert((m as int) * (p as int) >= 0) by (nonlinear_arith)
                requires
                    m >= 0 && p >= 0,
            ;
        }
        let prod: u128 = (m as u128) * p;
        if neg {
            if prod >= 9_223_372_036_854_775_808u128 {
                i64::MIN
            } else {
                -((prod as i128) as i64)
            }
        } else {
            if prod > i64::MAX as u128 {
                i64::MAX
            } else {
                prod as i64
            }
        }
    } else if k <= -18 {
        0
    } else {
        let p = pow10_u128((-k) as usize);
        let q: u128 = (m as u128) / p;
        if neg {
            -((q as i128) as i64)
        } else {
            q as i64
        }
    }
}

/// Maps the exec result of [`parse_number`] into the spec's domain.
pub open spec fn num_result_view(r: Result<(i64, usize), SvgParseError>) -> Result<
    (int, int),
    SvgParseError,
> {
    match r {
        Ok((v, n)) => Ok((v as int, n as int)),
        Err(e) => Err(e),
    }
}

/// Parses one number starting exactly at `i`; see [`parse_number_spec`].
#[verifier::rlimit(100)]
#[verifier::spinoff_prover]
fn parse_number(s: &[u8], i: usize) -> (r: Result<(i64, usize), SvgParseError>)
    requires
        i <= s@.len(),
    ensures
        num_result_view(r) == parse_number_spec(s@, i as int),
{
    if i >= s.len() {
        return Err(SvgParseError::UnexpectedEnd);
    }
    let neg = s[i] == 45;
    let i1 = if s[i] == 45 || s[i] == 43 {
        i + 1
    } else {
        i
    };
    let d1 = digits_end(s, i1);
    let has_frac = d1 < s.len() && s[d1] == 46;
    let fe = if has_frac {
        digits_end(s, d1 + 1)
    } else {
        d1
    };
    if d1 == i1 && (!has_frac || fe == d1 + 1) {
        return Err(SvgParseError::UnexpectedData { pos: i });
    }
    let mi = accum_digits(s, i1, d1, 0);
    let mf = if has_frac {
        accum_digits(s, d1 + 1, fe, mi.0)
    } else {
        mi
    };
    let consumed_frac: usize = if has_frac {
        (fe - (d1 + 1)) - mf.1
    } else {
        0
    };
    let after = if has_frac {
        fe
    } else {
        d1
    };
    let e0: i128 = (mi.1 as i128) - (consumed_frac as i128);
    if after < s.len() && (s[after] == 101 || s[after] == 69) {
        if after + 1 >= s.len() {
            return Err(SvgParseError::UnexpectedEnd);
        }
        let eneg = s[after + 1] == 45;
        let k1 = if s[after + 1] == 45 || s[after + 1] == 43 {
            after + 2
        } else {
            after + 1
        };
        if k1 > s.len() {
            // A sign as the very last byte: the digit run is empty.
            return Err(SvgParseError::UnexpectedEnd);
        }
        let k2 = digits_end(s, k1);
        if k2 == k1 {
            if k1 >= s.len() {
                return Err(SvgParseError::UnexpectedEnd);
            }
            return Err(SvgParseError::UnexpectedData { pos: k1 });
        }
        let ev = accum_exp(s, k1, k2);
        let e: i128 = if eneg {
            e0 - (ev as i128)
        } else {
            e0 + (ev as i128)
        };
        Ok((combine_number(neg, mf.0, e), k2))
    } else {
        Ok((combine_number(neg, mf.0, e0), after))
    }
}

/// A raw value as a [`Fixed`] scalar.
pub open spec fn spec_fx(v: int) -> Fixed {
    Fixed { raw: v as i64 }
}

/// A number preceded by a separator.
pub open spec fn read_sep_num_spec(s: Seq<u8>, i: int) -> Result<(int, int), SvgParseError> {
    parse_number_spec(s, skip_sep_spec(s, i))
}

/// A coordinate pair: a number, a separator, a number.
pub open spec fn read_pair_spec(s: Seq<u8>, i: int) -> Result<((int, int), int), SvgParseError> {
    match parse_number_spec(s, i) {
        Err(e) => Err(e),
        Ok((x, n1)) => match read_sep_num_spec(s, n1) {
            Err(e) => Err(e),
            Ok((y, n2)) => Ok(((x, y), n2)),
        },
    }
}

/// A coordinate pair preceded by a separator.
pub open spec fn read_sep_pair_spec(s: Seq<u8>, i: int) -> Result<((int, int), int), SvgParseError> {
    read_pair_spec(s, skip_sep_spec(s, i))
}

/// An arc flag preceded by a separator: a single `0` or `1`.
pub open spec fn read_sep_flag_spec(s: Seq<u8>, i: int) -> Result<(bool, int), SvgParseError> {
    let j = skip_sep_spec(s, i);
    if j >= s.len() {
        Err(SvgParseError::UnexpectedEnd)
    } else if s[j] == 48 {
        Ok((false, j + 1))
    } else if s[j] == 49 {
        Ok((true, j + 1))
    } else {
        Err(SvgParseError::UnexpectedData { pos: j as usize })
    }
}

/// The parameters of command letter `c` read from position `j`, and the
/// position after them. `Z`/`z` take no parameters and are not dispatched
/// here.
pub open spec fn params_spec(c: u8, s: Seq<u8>, j: int) -> Result<
    (PathSegment, int),
    SvgParseError,
> {
    if c == 77 || c == 109 {  // M m
        match read_pair_spec(s, j) {
            Err(e) => Err(e),
            Ok(((x, y), n)) => Ok(
                (PathSegment::MoveTo { abs: c == 77, x: spec_fx(x), y: spec_fx(y) }, n),
            ),
        }
    } else if c == 76 || c == 108 {  // L l
        match read_pair_spec(s, j) {
            Err(e) => Err(e),
            Ok(((x, y), n)) => Ok(
                (PathSegment::LineTo { abs: c == 76, x: spec_fx(x), y: spec_fx(y) }, n),
            ),
        }
    } else if c == 72 || c == 104 {  // H h
        match parse_number_spec(s, j) {
            Err(e) => Err(e),
            Ok((x, n)) => Ok((PathSegment::HorizontalLineTo { abs: c == 72, x: spec_fx(x) }, n)),
        }
    } else if c == 86 || c == 118 {  // V v
        match parse_number_spec(s, j) {
            Err(e) => Err(e),
            Ok((y, n)) => Ok((PathSegment::VerticalLineTo { abs: c == 86, y: spec_fx(y) }, n)),
        }
    } else if c == 67 || c == 99 {  // C c
        match read_pair_spec(s, j) {
            Err(e) => Err(e),
            Ok(((x1, y1), n1)) => match read_sep_pair_spec(s, n1) {
                Err(e) => Err(e),
                Ok(((x2, y2), n2)) => match read_sep_pair_spec(s, n2) {
                    Err(e) => Err(e),
                    Ok(((x, y), n3)) => Ok(
                        (
                            PathSegment::CurveTo {
                                abs: c == 67,
                                x1: spec_fx(x1),
                                y1: spec_fx(y1),
                                x2: spec_fx(x2),
                                y2: spec_fx(y2),
                                x: spec_fx(x),
                                y: spec_fx(y),
                            },
                            n3,
                        ),
                    ),
                },
            },
        }
    } else if c == 83 || c == 115 {  // S s
        match read_pair_spec(s, j) {
            Err(e) => Err(e),
            Ok(((x2, y2), n1)) => match read_sep_pair_spec(s, n1) {
                Err(e) => Err(e),
                Ok(((x, y), n2)) => Ok(
                    (
                        PathSegment::SmoothCurveTo {
                            abs: c == 83,
                            x2: spec_fx(x2),
                            y2: spec_fx(y2),
                            x: spec_fx(x),
                            y: spec_fx(y),
                        },
                        n2,
                    ),
                ),
            },
        }
    } else if c == 81 || c == 113 {  // Q q
        match read_pair_spec(s, j) {
            Err(e) => Err(e),
            Ok(((x1, y1), n1)) => match read_sep_pair_spec(s, n1) {
                Err(e) => Err(e),
                Ok(((x, y), n2)) => Ok(
                    (
                        PathSegment::Quadratic {
                            abs: c == 81,
                            x1: spec_fx(x1),
                            y1: spec_fx(y1),
                            x: spec_fx(x),
                            y: spec_fx(y),
                        },
                        n2,
                    ),
                ),
            },
        }
    } else if c == 84 || c == 116 {  // T t
        match read_pair_spec(s, j) {
            Err(e) => Err(e),
            Ok(((x, y), n)) => Ok(
                (PathSegment::SmoothQuadratic { abs: c == 84, x: spec_fx(x), y: spec_fx(y) }, n),
            ),
        }
    } else if c == 65 || c == 97 {  // A a
        match read_pair_spec(s, j) {
            Err(e) => Err(e),
            Ok(((rx, ry), n1)) => match read_sep_num_spec(s, n1) {
                Err(e) => Err(e),
                Ok((rot, n2)) => match read_sep_flag_spec(s, n2) {
                    Err(e) => Err(e),
                    Ok((laf, n3)) => match read_sep_flag_spec(s, n3) {
                        Err(e) => Err(e),
                        Ok((sf, n4)) => match read_sep_pair_spec(s, n4) {
                            Err(e) => Err(e),
                            Ok(((x, y), n5)) => Ok(
                                (
                                    PathSegment::EllipticalArc {
                                        abs: c == 65,
                                        rx: spec_fx(rx),
                                        ry: spec_fx(ry),
                                        x_axis_rotation: spec_fx(rot),
                                        large_arc: laf,
                                        sweep: sf,
                                        x: spec_fx(x),
                                        y: spec_fx(y),
                                    },
                                    n5,
                                ),
                            ),
                        },
                    },
                },
            },
        }
    } else {
        Err(SvgParseError::UnexpectedData { pos: j as usize })
    }
}

/// The command letter implicit repetition continues with: a moveto's
/// extra pairs are linetos of the same addressing mode.
pub open spec fn effective_prev(c: u8) -> u8 {
    if c == 77 {
        76
    } else if c == 109 {
        108
    } else {
        c
    }
}

/// Whether parameters may follow `prev`'s segment without a new letter.
pub open spec fn repeatable(prev: u8) -> bool {
    is_command_byte(prev) && prev != 90 && prev != 122
}

/// The next segment at position `i` (separators already consumed):
/// `Ok(None)` at the end of input, otherwise the segment, the position
/// after it and its trailing separators, and the letter implicit
/// repetition would continue with.
pub open spec fn next_segment_spec(s: Seq<u8>, i: int, prev: u8) -> Result<
    Option<(PathSegment, int, u8)>,
    SvgParseError,
> {
    if i < 0 || i >= s.len() {
        Ok(None)
    } else {
        let c0 = s[i];
        if c0 == 90 || c0 == 122 {  // Z z
            Ok(Some((PathSegment::ClosePath, skip_sep_spec(s, i + 1), c0)))
        } else if is_command_byte(c0) {
            let j = skip_ws_spec(s, i + 1);
            match params_spec(c0, s, j) {
                Err(e) => Err(e),
                Ok((seg, ap)) => Ok(Some((seg, skip_sep_spec(s, ap), effective_prev(c0)))),
            }
        } else if starts_number_byte(c0) && repeatable(prev) {
            match params_spec(prev, s, i) {
                Err(e) => Err(e),
                Ok((seg, ap)) => Ok(Some((seg, skip_sep_spec(s, ap), prev))),
            }
        } else {
            Err(SvgParseError::UnexpectedData { pos: i as usize })
        }
    }
}

/// A successful separated number read advances weakly and stays in bounds.
pub proof fn lemma_read_sep_num_advances(s: Seq<u8>, i: int)
    requires
        0 <= i <= s.len(),
    ensures
        match read_sep_num_spec(s, i) {
            Ok((v, n)) => i < n <= s.len(),
            Err(_) => true,
        },
{
    lemma_skip_sep_bounds(s, i);
    lemma_parse_number_advances(s, skip_sep_spec(s, i));
}

/// A successful pair read advances strictly and stays in bounds.
pub proof fn lemma_read_pair_advances(s: Seq<u8>, i: int)
    requires
        0 <= i <= s.len(),
    ensures
        match read_pair_spec(s, i) {
            Ok((p, n)) => i < n <= s.len(),
            Err(_) => true,
        },
{
    lemma_parse_number_advances(s, i);
    if let Ok((x, n1)) = parse_number_spec(s, i) {
        lemma_read_sep_num_advances(s, n1);
    }
}

/// A successful separated pair read advances strictly within bounds.
pub proof fn lemma_read_sep_pair_advances(s: Seq<u8>, i: int)
    requires
        0 <= i <= s.len(),
    ensures
        match read_sep_pair_spec(s, i) {
            Ok((p, n)) => i < n <= s.len(),
            Err(_) => true,
        },
{
    lemma_skip_sep_bounds(s, i);
    lemma_read_pair_advances(s, skip_sep_spec(s, i));
}

/// A successful flag read advances strictly within bounds.
pub proof fn lemma_read_sep_flag_advances(s: Seq<u8>, i: int)
    requires
        0 <= i <= s.len(),
    ensures
        match read_sep_flag_spec(s, i) {
            Ok((f, n)) => i < n <= s.len(),
            Err(_) => true,
        },
{
    lemma_skip_sep_bounds(s, i);
}

/// Successful parameter reads advance strictly within bounds.
pub proof fn lemma_params_advances(c: u8, s: Seq<u8>, j: int)
    requires
        0 <= j <= s.len(),
    ensures
        match params_spec(c, s, j) {
            Ok((seg, ap)) => j < ap <= s.len(),
            Err(_) => true,
        },
{
    lemma_parse_number_advances(s, j);
    lemma_read_pair_advances(s, j);
    if let Ok((p0, n1)) = read_pair_spec(s, j) {
        lemma_read_sep_pair_advances(s, n1);
        lemma_read_sep_num_advances(s, n1);
        if let Ok((p1, n2)) = read_sep_pair_spec(s, n1) {
            lemma_read_sep_pair_advances(s, n2);
        }
        if let Ok((v, n2)) = read_sep_num_spec(s, n1) {
            lemma_read_sep_flag_advances(s, n2);
            if let Ok((f1, n3)) = read_sep_flag_spec(s, n2) {
                lemma_read_sep_flag_advances(s, n3);
                if let Ok((f2, n4)) = read_sep_flag_spec(s, n3) {
                    lemma_read_sep_pair_advances(s, n4);
                }
            }
        }
    }
}

/// A successful `next_segment_spec` advances strictly within bounds.
pub proof fn lemma_next_segment_advances(s: Seq<u8>, i: int, prev: u8)
    requires
        0 <= i,
    ensures
        match next_segment_spec(s, i, prev) {
            Ok(Some((seg, n, pv))) => i < n <= s.len(),
            _ => true,
        },
{
    if i < s.len() {
        let c0 = s[i];
        if c0 == 90 || c0 == 122 {
            lemma_skip_sep_bounds(s, i + 1);
        } else if is_command_byte(c0) {
            lemma_skip_ws_bounds(s, i + 1);
            let j = skip_ws_spec(s, i + 1);
            lemma_params_advances(c0, s, j);
            if let Ok((seg, ap)) = params_spec(c0, s, j) {
                lemma_skip_sep_bounds(s, ap);
            }
        } else if starts_number_byte(c0) && repeatable(prev) {
            lemma_params_advances(prev, s, i);
            if let Ok((seg, ap)) = params_spec(prev, s, i) {
                lemma_skip_sep_bounds(s, ap);
            }
        }
    }
}

/// The segments from position `i` on, given that implicit repetition
/// would continue with letter `prev`.
pub open spec fn parse_from_spec(s: Seq<u8>, i: int, prev: u8) -> Result<
    Seq<PathSegment>,
    SvgParseError,
>
    decreases s.len() - i
        via parse_from_spec_dec
{
    if i < 0 {
        Err(SvgParseError::UnexpectedEnd)
    } else {
        match next_segment_spec(s, i, prev) {
            Err(e) => Err(e),
            Ok(None) => Ok(Seq::empty()),
            Ok(Some((seg, n, pv))) => match parse_from_spec(s, n, pv) {
                Err(e) => Err(e),
                Ok(rest) => Ok(seq![seg] + rest),
            },
        }
    }
}

#[via_fn]
proof fn parse_from_spec_dec(s: Seq<u8>, i: int, prev: u8) {
    if 0 <= i {
        lemma_next_segment_advances(s, i, prev);
    }
}

/// The full grammar: optional whitespace, then either nothing (the empty
/// path) or a path that must begin with a moveto.
pub open spec fn parse_segments_spec(s: Seq<u8>) -> Result<Seq<PathSegment>, SvgParseError> {
    let i0 = skip_ws_spec(s, 0);
    if i0 >= s.len() {
        Ok(Seq::empty())
    } else if s[i0] == 77 || s[i0] == 109 {
        parse_from_spec(s, i0, 90)
    } else {
        Err(SvgParseError::UnexpectedData { pos: i0 as usize })
    }
}

/// Maps the exec result of a pair read into the spec's domain.
pub open spec fn pair_result_view(r: Result<((i64, i64), usize), SvgParseError>) -> Result<
    ((int, int), int),
    SvgParseError,
> {
    match r {
        Ok(((x, y), n)) => Ok(((x as int, y as int), n as int)),
        Err(e) => Err(e),
    }
}

/// Maps the exec result of a flag read into the spec's domain.
pub open spec fn flag_result_view(r: Result<(bool, usize), SvgParseError>) -> Result<
    (bool, int),
    SvgParseError,
> {
    match r {
        Ok((f, n)) => Ok((f, n as int)),
        Err(e) => Err(e),
    }
}

/// Maps the exec result of a parameter read into the spec's domain.
pub open spec fn seg_result_view(r: Result<(PathSegment, usize), SvgParseError>) -> Result<
    (PathSegment, int),
    SvgParseError,
> {
    match r {
        Ok((seg, n)) => Ok((seg, n as int)),
        Err(e) => Err(e),
    }
}

/// Reads a separator, then a number.
fn read_sep_num(s: &[u8], i: usize) -> (r: Result<(i64, usize), SvgParseError>)
    requires
        i <= s@.len(),
    ensures
        num_result_view(r) == read_sep_num_spec(s@, i as int),
        (r matches Ok((v, n)) ==> i < n <= s@.len()),
{
    let j = skip_sep(s, i);
    let r = parse_number(s, j);
    proof {
        lemma_read_sep_num_advances(s@, i as int);
    }
    r
}

/// Reads a coordinate pair.
fn read_pair(s: &[u8], i: usize) -> (r: Result<((i64, i64), usize), SvgParseError>)
    requires
        i <= s@.len(),
    ensures
        pair_result_view(r) == read_pair_spec(s@, i as int),
        (r matches Ok((p, n)) ==> i < n <= s@.len()),
{
    proof {
        lemma_parse_number_advances(s@, i as int);
        lemma_read_pair_advances(s@, i as int);
    }
    match parse_number(s, i) {
        Err(e) => Err(e),
        Ok((x, n1)) => match read_sep_num(s, n1) {
            Err(e) => Err(e),
            Ok((y, n2)) => Ok(((x, y), n2)),
        },
    }
}

/// Reads a separator, then a coordinate pair.
fn read_sep_pair(s: &[u8], i: usize) -> (r: Result<((i64, i64), usize), SvgParseError>)
    requires
        i <= s@.len(),
    ensures
        pair_result_view(r) == read_sep_pair_spec(s@, i as int),
        (r matches Ok((p, n)) ==> i < n <= s@.len()),
{
    let j = skip_sep(s, i);
    let r = read_pair(s, j);
    proof {
        lemma_read_sep_pair_advances(s@, i as int);
    }
    r
}

/// Reads a separator, then a single `0` or `1` arc flag.
fn read_sep_flag(s: &[u8], i: usize) -> (r: Result<(bool, usize), SvgParseError>)
    requires
        i <= s@.len(),
    ensures
        flag_result_view(r) == read_sep_flag_spec(s@, i as int),
        (r matches Ok((f, n)) ==> i < n <= s@.len()),
{
    let j = skip_sep(s, i);
    if j >= s.len() {
        Err(SvgParseError::UnexpectedEnd)
    } else if s[j] == 48 {
        Ok((false, j + 1))
    } else if s[j] == 49 {
        Ok((true, j + 1))
    } else {
        Err(SvgParseError::UnexpectedData { pos: j })
    }
}

/// Reads the parameters of command letter `c`; see [`params_spec`].
#[verifier::rlimit(100)]
#[verifier::spinoff_prover]
fn params(c: u8, s: &[u8], j: usize) -> (r: Result<(PathSegment, usize), SvgParseError>)
    requires
        j <= s@.len(),
    ensures
        seg_result_view(r) == params_spec(c, s@, j as int),
        (r matches Ok((seg, ap)) ==> j < ap <= s@.len()),
{
    proof {
        lemma_params_advances(c, s@, j as int);
    }
    if c == 77 || c == 109 {
        match read_pair(s, j) {
            Err(e) => Err(e),
            Ok(((x, y), n)) => Ok(
                (
                    PathSegment::MoveTo {
                        abs: c == 77,
                        x: Fixed::from_raw(x),
                        y: Fixed::from_raw(y),
                    },
                    n,
                ),
            ),
        }
    } else if c == 76 || c == 108 {
        match read_pair(s, j) {
            Err(e) => Err(e),
            Ok(((x, y), n)) => Ok(
                (
                    PathSegment::LineTo {
                        abs: c == 76,
                        x: Fixed::from_raw(x),
                        y: Fixed::from_raw(y),
                    },
                    n,
                ),
            ),
        }
    } else if c == 72 || c == 104 {
        match parse_number(s, j) {
            Err(e) => Err(e),
            Ok((x, n)) => Ok(
                (PathSegment::HorizontalLineTo { abs: c == 72, x: Fixed::from_raw(x) }, n),
            ),
        }
    } else if c == 86 || c == 118 {
        match parse_number(s, j) {
            Err(e) => Err(e),
            Ok((y, n)) => Ok(
                (PathSegment::VerticalLineTo { abs: c == 86, y: Fixed::from_raw(y) }, n),
            ),
        }
    } else if c == 67 || c == 99 {
        match read_pair(s, j) {
            Err(e) => Err(e),
            Ok(((x1, y1), n1)) => match read_sep_pair(s, n1) {
                Err(e) => Err(e),
                Ok(((x2, y2), n2)) => match read_sep_pair(s, n2) {
                    Err(e) => Err(e),
                    Ok(((x, y), n3)) => Ok(
                        (
                            PathSegment::CurveTo {
                                abs: c == 67,
                                x1: Fixed::from_raw(x1),
                                y1: Fixed::from_raw(y1),
                                x2: Fixed::from_raw(x2),
                                y2: Fixed::from_raw(y2),
                                x: Fixed::from_raw(x),
                                y: Fixed::from_raw(y),
                            },
                            n3,
                        ),
                    ),
                },
            },
        }
    } else if c == 83 || c == 115 {
        match read_pair(s, j) {
            Err(e) => Err(e),
            Ok(((x2, y2), n1)) => match read_sep_pair(s, n1) {
                Err(e) => Err(e),
                Ok(((x, y), n2)) => Ok(
                    (
                        PathSegment::SmoothCurveTo {
                            abs: c == 83,
                            x2: Fixed::from_raw(x2),
                            y2: Fixed::from_raw(y2),
                            x: Fixed::from_raw(x),
                            y: Fixed::from_raw(y),
                        },
                        n2,
                    ),
                ),
            },
        }
    } else if c == 81 || c == 113 {
        match read_pair(s, j) {
            Err(e) => Err(e),
            Ok(((x1, y1), n1)) => match read_sep_pair(s, n1) {
                Err(e) => Err(e),
                Ok(((x, y), n2)) => Ok(
                    (
                        PathSegment::Quadratic {
                            abs: c == 81,
                            x1: Fixed::from_raw(x1),
                            y1: Fixed::from_raw(y1),
                            x: Fixed::from_raw(x),
                            y: Fixed::from_raw(y),
                        },
                        n2,
                    ),
                ),
            },
        }
    } else if c == 84 || c == 116 {
        match read_pair(s, j) {
            Err(e) => Err(e),
            Ok(((x, y), n)) => Ok(
                (
                    PathSegment::SmoothQuadratic {
                        abs: c == 84,
                        x: Fixed::from_raw(x),
                        y: Fixed::from_raw(y),
                    },
                    n,
                ),
            ),
        }
    } else if c == 65 || c == 97 {
        match read_pair(s, j) {
            Err(e) => Err(e),
            Ok(((rx, ry), n1)) => match read_sep_num(s, n1) {
                Err(e) => Err(e),
                Ok((rot, n2)) => match read_sep_flag(s, n2) {
                    Err(e) => Err(e),
                    Ok((laf, n3)) => match read_sep_flag(s, n3) {
                        Err(e) => Err(e),
                        Ok((sf, n4)) => match read_sep_pair(s, n4) {
                            Err(e) => Err(e),
                            Ok(((x, y), n5)) => Ok(
                                (
                                    PathSegment::EllipticalArc {
                                        abs: c == 65,
                                        rx: Fixed::from_raw(rx),
                                        ry: Fixed::from_raw(ry),
                                        x_axis_rotation: Fixed::from_raw(rot),
                                        large_arc: laf,
                                        sweep: sf,
                                        x: Fixed::from_raw(x),
                                        y: Fixed::from_raw(y),
                                    },
                                    n5,
                                ),
                            ),
                        },
                    },
                },
            },
        }
    } else {
        Err(SvgParseError::UnexpectedData { pos: j })
    }
}

/// Maps the exec result of [`next_segment`] into the spec's domain.
pub open spec fn next_result_view(
    r: Result<Option<(PathSegment, usize, u8)>, SvgParseError>,
) -> Result<Option<(PathSegment, int, u8)>, SvgParseError> {
    match r {
        Ok(Some((seg, n, pv))) => Ok(Some((seg, n as int, pv))),
        Ok(None) => Ok(None),
        Err(e) => Err(e),
    }
}

/// Reads the next segment; see [`next_segment_spec`].
fn next_segment(s: &[u8], i: usize, prev: u8) -> (r: Result<
    Option<(PathSegment, usize, u8)>,
    SvgParseError,
>)
    requires
        i <= s@.len(),
    ensures
        next_result_view(r) == next_segment_spec(s@, i as int, prev),
        (r matches Ok(Some((seg, n, pv))) ==> i < n <= s@.len()),
{
    proof {
        lemma_next_segment_advances(s@, i as int, prev);
    }
    if i >= s.len() {
        Ok(None)
    } else {
        let c0 = s[i];
        if c0 == 90 || c0 == 122 {
            let n = skip_sep(s, i + 1);
            Ok(Some((PathSegment::ClosePath, n, c0)))
        } else if byte_is_command(c0) {
            let j = skip_ws(s, i + 1);
            match params(c0, s, j) {
                Err(e) => Err(e),
                Ok((seg, ap)) => {
                    let n = skip_sep(s, ap);
                    let pv = if c0 == 77 {
                        76
                    } else if c0 == 109 {
                        108
                    } else {
                        c0
                    };
                    Ok(Some((seg, n, pv)))
                },
            }
        } else if byte_starts_number(c0) && byte_is_command(prev) && prev != 90 && prev != 122 {
            match params(prev, s, i) {
                Err(e) => Err(e),
                Ok((seg, ap)) => {
                    let n = skip_sep(s, ap);
                    Ok(Some((seg, n, prev)))
                },
            }
        } else {
            Err(SvgParseError::UnexpectedData { pos: i })
        }
    }
}

/// Parses a whole path given as bytes; the result is exactly what
/// [`parse_segments_spec`] describes.
#[verifier::rlimit(100)]
#[verifier::spinoff_prover]
pub fn parse_segments(s: &[u8]) -> (r: Result<Vec<PathSegment>, SvgParseError>)
    ensures
        (match r {
            Ok(v) => parse_segments_spec(s@) == Ok::<Seq<PathSegment>, SvgParseError>(v@),
            Err(e) => parse_segments_spec(s@) == Err::<Seq<PathSegment>, SvgParseError>(e),
        }),
{
    let i0 = skip_ws(s, 0);
    if i0 >= s.len() {
        let empty: Vec<PathSegment> = Vec::new();
        proof {
            assert(empty@ =~= Seq::<PathSegment>::empty());
        }
        return Ok(empty);
    }
    if !(s[i0] == 77 || s[i0] == 109) {
        return Err(SvgParseError::UnexpectedData { pos: i0 });
    }
    let mut acc: Vec<PathSegment> = Vec::new();
    let mut i: usize = i0;
    let mut prev: u8 = 90;
    let mut err: Option<SvgParseError> = None;
    let mut done: bool = false;
    while !done
        invariant
            i0 <= i <= s@.len(),
            !done ==> err is None,
            !done ==> (match parse_from_spec(s@, i as int, prev) {
                Ok(rest) => parse_from_spec(s@, i0 as int, 90) == Ok::<
                    Seq<PathSegment>,
                    SvgParseError,
                >(acc@ + rest),
                Err(e) => parse_from_spec(s@, i0 as int, 90) == Err::<
                    Seq<PathSegment>,
                    SvgParseError,
                >(e),
            }),
            done ==> (match err {
                Some(e) => parse_from_spec(s@, i0 as int, 90) == Err::<
                    Seq<PathSegment>,
                    SvgParseError,
                >(e),
                None => parse_from_spec(s@, i0 as int, 90) == Ok::<
                    Seq<PathSegment>,
                    SvgParseError,
                >(acc@),
            }),
        decreases (if done {
            0int
        } else {
            s@.len() - i + 1
        }),
    {
        match next_segment(s, i, prev) {
            Err(e) => {
                err = Some(e);
                done = true;
            },
            Ok(None) => {
                proof {
                    assert(acc@ + Seq::<PathSegment>::empty() =~= acc@);
                }
                done = true;
            },
            Ok(Some((seg, n, pv))) => {
                proof {
                    let ghost oa = acc@;
                    if let Ok(rest2) = parse_from_spec(s@, n as int, pv) {
                        assert(oa + (seq![seg] + rest2) =~= oa.push(seg) + rest2);
                    }
                }
                acc.push(seg);
                i = n;
                prev = pv;
            },
        }
    }
    match err {
        Some(e) => Err(e),
        None => Ok(acc),
    }
}

} // verus!
