//! A fixed-point scalar used for every coordinate of the geometry layer.
//!
//! A [`Fixed`] stores a signed value scaled by [`SCALE`]: the raw integer
//! `raw` denotes the real number `raw / SCALE`. Five decimal places are
//! therefore exact, which covers the pixel coordinates this library works
//! with. All operations are total: results outside the representable range
//! saturate at the numeric bounds instead of wrapping or panicking.

use vstd::prelude::*;

verus! {

/// Number of raw units per whole unit: `Fixed { raw: SCALE }` is `1.0`.
pub const SCALE: i64 = 100_000;

/// The integer reachable by saturation closest to `v` from below `i64::MIN`
/// or above `i64::MAX`; `v` itself when it is representable.
pub open spec fn sat64(v: int) -> int {
    if v > i64::MAX as int {
        i64::MAX as int
    } else if v < i64::MIN as int {
        i64::MIN as int
    } else {
        v
    }
}

/// Magnitude of `v`.
pub open spec fn abs_int(v: int) -> int {
    if v >= 0 {
        v
    } else {
        -v
    }
}

/// Division truncated toward zero, the rounding used by every scaling
/// operation of [`Fixed`]. Ghost `/` is Euclidean, so the two differ only
/// for a negative dividend.
pub open spec fn trunc_div(a: int, b: int) -> int
    recommends
        b > 0,
{
    if a >= 0 {
        a / b
    } else {
        -((-a) / b)
    }
}

/// Value of the saturating sum of two raw values.
pub open spec fn sat_add_spec(a: int, b: int) -> int {
    sat64(a + b)
}

/// Value of the saturating difference of two raw values.
pub open spec fn sat_sub_spec(a: int, b: int) -> int {
    sat64(a - b)
}

/// Value of the fixed-point product of two raw values: the real product
/// rescaled by `SCALE`, truncated toward zero, then saturated.
pub open spec fn fmul_spec(a: int, b: int) -> int {
    if (a >= 0) == (b >= 0) {
        sat64((abs_int(a) * abs_int(b)) / (SCALE as int))
    } else {
        sat64(-((abs_int(a) * abs_int(b)) / (SCALE as int)))
    }
}

/// Value of the fixed-point quotient of two raw values: the real quotient
/// rescaled by `SCALE`, truncated toward zero, then saturated.
pub open spec fn fdiv_spec(a: int, b: int) -> int
    recommends
        b != 0,
{
    if (a >= 0) == (b >= 0) {
        sat64((abs_int(a) * (SCALE as int)) / abs_int(b))
    } else {
        sat64(-((abs_int(a) * (SCALE as int)) / abs_int(b)))
    }
}

/// A saturating fixed-point number with [`SCALE`] raw units per whole unit.
#[derive(Clone, Copy, Debug, PartialEq, Eq, Structural, Hash)]
pub struct Fixed {
    /// The underlying scaled integer: the value denoted is `raw / SCALE`.
    pub raw: i64,
}

/// Clamps an `i128` intermediate into the `i64` range.
fn clamp_i128(v: i128) -> (r: i64)
    ensures
        r as int == sat64(v as int),
{
    if v > i64::MAX as i128 {
        i64::MAX
    } else if v < i64::MIN as i128 {
        i64::MIN
    } else {
        v as i64
    }
}

/// Magnitude of a raw value, exact even for `i64::MIN`.
fn magnitude(v: i64) -> (m: u64)
    ensures
        m as int == abs_int(v as int),
{
    if v >= 0 {
        v as u64
    } else {
        (-(v as i128)) as u64
    }
}

impl Fixed {
    /// The value of [`Fixed::plus`].
    pub open spec fn spec_plus(self, o: Fixed) -> Fixed {
        Fixed { raw: sat_add_spec(self.raw as int, o.raw as int) as i64 }
    }

    /// The value of [`Fixed::minus`].
    pub open spec fn spec_minus(self, o: Fixed) -> Fixed {
        Fixed { raw: sat_sub_spec(self.raw as int, o.raw as int) as i64 }
    }

    /// The value of [`Fixed::negate`].
    pub open spec fn spec_negate(self) -> Fixed {
        Fixed { raw: sat64(-(self.raw as int)) as i64 }
    }

    /// The value of [`Fixed::halved`].
    pub open spec fn spec_halved(self) -> Fixed {
        Fixed { raw: trunc_div(self.raw as int, 2) as i64 }
    }

    /// The value of [`Fixed::abs_sat`].
    pub open spec fn spec_abs(self) -> Fixed {
        Fixed { raw: sat64(abs_int(self.raw as int)) as i64 }
    }

    /// The value of [`Fixed::fmul`].
    pub open spec fn spec_fmul(self, o: Fixed) -> Fixed {
        Fixed { raw: fmul_spec(self.raw as int, o.raw as int) as i64 }
    }

    /// The value of [`Fixed::fdiv`].
    pub open spec fn spec_fdiv(self, o: Fixed) -> Fixed {
        Fixed { raw: fdiv_spec(self.raw as int, o.raw as int) as i64 }
    }

    /// The value `0`.
    pub fn zero() -> (r: Fixed)
        ensures
            r.raw == 0,
    {
        Fixed { raw: 0 }
    }

    /// The fixed-point value of the whole number `v`, saturated when
    /// `v * SCALE` exceeds the raw range.
    pub fn from_int(v: i64) -> (r: Fixed)
        ensures
            r.raw as int == sat64(v as int * SCALE as int),
    {
        proof {
            assert((v as i128) * (SCALE as i128) <= i64::MAX as int * SCALE as int
                && (v as i128) * (SCALE as i128) >= i64::MIN as int * SCALE as int)
                by (nonlinear_arith)
                requires
                    i64::MIN <= v <= i64::MAX,
            ;
        }
        Fixed { raw: clamp_i128((v as i128) * (SCALE as i128)) }
    }

    /// A value given directly in raw units.
    pub fn from_raw(raw: i64) -> (r: Fixed)
        ensures
            r.raw == raw,
    {
        Fixed { raw }
    }

    /// Saturating addition.
    pub fn plus(self, o: Fixed) -> (r: Fixed)
        ensures
            r.raw as int == sat_add_spec(self.raw as int, o.raw as int),
    {
        Fixed { raw: clamp_i128((self.raw as i128) + (o.raw as i128)) }
    }

    /// Saturating subtraction.
    pub fn minus(self, o: Fixed) -> (r: Fixed)
        ensures
            r.raw as int == sat_sub_spec(self.raw as int, o.raw as int),
    {
        Fixed { raw: clamp_i128((self.raw as i128) - (o.raw as i128)) }
    }

    /// Saturating negation: only `i64::MIN` saturates, to `i64::MAX`.
    pub fn negate(self) -> (r: Fixed)
        ensures
            r.raw as int == sat64(-(self.raw as int)),
    {
        Fixed { raw: clamp_i128(-(self.raw as i128)) }
    }

    /// Half of the value, truncated toward zero.
    pub fn halved(self) -> (r: Fixed)
        ensures
            r.raw as int == trunc_div(self.raw as int, 2),
    {
        let m: u64 = magnitude(self.raw);
        let h: u64 = m / 2;
        if self.raw >= 0 {
            Fixed { raw: h as i64 }
        } else {
            Fixed { raw: -(h as i64) }
        }
    }

    /// Saturating magnitude: only `i64::MIN` saturates, to `i64::MAX`.
    pub fn abs_sat(self) -> (r: Fixed)
        ensures
            r.raw as int == sat64(abs_int(self.raw as int)),
    {
        let m: u64 = magnitude(self.raw);
        if m > i64::MAX as u64 {
            Fixed { raw: i64::MAX }
        } else {
            Fixed { raw: m as i64 }
        }
    }

    /// Fixed-point multiplication: rescales by `SCALE`, truncating toward
    /// zero and saturating out-of-range results.
    pub fn fmul(self, o: Fixed) -> (r: Fixed)
        ensures
            r.raw as int == fmul_spec(self.raw as int, o.raw as int),
    {
        let ma: u128 = magnitude(self.raw) as u128;
        let mb: u128 = magnitude(o.raw) as u128;
        proof {
            assert((ma as int) * (mb as int) <= u64::MAX as int * u64::MAX as int)
                by (nonlinear_arith)
                requires
                    0 <= ma <= u64::MAX && 0 <= mb <= u64::MAX,
            ;
        }
        let p: u128 = (ma * mb) / (SCALE as u128);
        if (self.raw >= 0) == (o.raw >= 0) {
            if p > i64::MAX as u128 {
                Fixed { raw: i64::MAX }
            } else {
                Fixed { raw: p as i64 }
            }
        } else {
            if p >= 9_223_372_036_854_775_808u128 {
                Fixed { raw: i64::MIN }
            } else {
                Fixed { raw: -((p as i128) as i64) }
            }
        }
    }

    /// Fixed-point division: rescales by `SCALE`, truncating toward zero
    /// and saturating out-of-range results.
    pub fn fdiv(self, o: Fixed) -> (r: Fixed)
        requires
            o.raw != 0,
        ensures
            r.raw as int == fdiv_spec(self.raw as int, o.raw as int),
    {
        let ma: u128 = magnitude(self.raw) as u128;
        let mb: u128 = magnitude(o.raw) as u128;
        proof {
            assert((ma as int) * (SCALE as int) <= u64::MAX as int * SCALE as int)
                by (nonlinear_arith)
                requires
                    0 <= ma <= u64::MAX,
            ;
        }
        let p: u128 = (ma * (SCALE as u128)) / mb;
        if (self.raw >= 0) == (o.raw >= 0) {
            if p > i64::MAX as u128 {
                Fixed { raw: i64::MAX }
            } else {
                Fixed { raw: p as i64 }
            }
        } else {
            if p >= 9_223_372_036_854_775_808u128 {
                Fixed { raw: i64::MIN }
            } else {
                Fixed { raw: -((p as i128) as i64) }
            }
        }
    }
}

/// The integer square root, rounded down: the unique `r >= 0` with
/// `r * r <= x < (r + 1) * (r + 1)`, here defined by halving the binary
/// digits of `x`.
pub open spec fn sqrt_floor(x: int) -> int
    decreases x,
{
    if x < 1 {
        0
    } else if x < 4 {
        1
    } else {
        let r = 2 * sqrt_floor(x / 4);
        if (r + 1) * (r + 1) <= x {
            r + 1
        } else {
            r
        }
    }
}

/// `sqrt_floor` computes what its name says.
pub proof fn lemma_sqrt_floor_correct(x: int)
    requires
        x >= 0,
    ensures
        0 <= sqrt_floor(x),
        sqrt_floor(x) * sqrt_floor(x) <= x,
        x < (sqrt_floor(x) + 1) * (sqrt_floor(x) + 1),
    decreases x,
{
    let s = sqrt_floor(x);
    if x < 1 {
        assert(s == 0);
        assert(s * s <= x && x < (s + 1) * (s + 1)) by (nonlinear_arith)
            requires
                s == 0 && 0 <= x < 1,
        ;
    } else if x < 4 {
        assert(s == 1);
        assert(s * s <= x && x < (s + 1) * (s + 1)) by (nonlinear_arith)
            requires
                s == 1 && 1 <= x < 4,
        ;
    } else {
        lemma_sqrt_floor_correct(x / 4);
        let h = sqrt_floor(x / 4);
        let r = 2 * h;
        assert(4 * (x / 4) <= x < 4 * (x / 4) + 4);
        assert(r * r <= x) by (nonlinear_arith)
            requires
                r == 2 * h && h * h <= x / 4 && 4 * (x / 4) <= x,
        ;
        assert(x < (r + 2) * (r + 2)) by (nonlinear_arith)
            requires
                r == 2 * h && x / 4 < (h + 1) * (h + 1) && x < 4 * (x / 4) + 4,
        ;
        if (r + 1) * (r + 1) <= x {
            assert(s == r + 1);
            assert(s * s <= x && x < (s + 1) * (s + 1)) by (nonlinear_arith)
                requires
                    s == r + 1 && (r + 1) * (r + 1) <= x && x < (r + 2) * (r + 2),
            ;
        } else {
            assert(s == r);
            assert(s * s <= x && x < (s + 1) * (s + 1)) by (nonlinear_arith)
                requires
                    s == r && r * r <= x && !((r + 1) * (r + 1) <= x),
            ;
        }
    }
}

/// Computes [`sqrt_floor`] on a `u128`.
pub fn isqrt_u128(x: u128) -> (r: u64)
    ensures
        r as int == sqrt_floor(x as int),
    decreases x,
{
    proof {
        lemma_sqrt_floor_correct(x as int);
    }
    if x < 1 {
        0
    } else if x < 4 {
        1
    } else {
        let h = isqrt_u128(x / 4);
        proof {
            lemma_sqrt_floor_correct((x as int) / 4);
            assert(h < 9_223_372_036_854_775_808u128) by (nonlinear_arith)
                requires
                    (h as int) * (h as int) <= (x as int) / 4 && (x as int)
                        < 340_282_366_920_938_463_463_374_607_431_768_211_456 && h >= 0,
            ;
            let c = 2 * (h as int) + 1;
            assert(c * c < 340_282_366_920_938_463_463_374_607_431_768_211_456)
                by (nonlinear_arith)
                requires
                    0 <= c <= 18_446_744_073_709_551_615,
            ;
        }
        let cand: u128 = 2 * (h as u128) + 1;
        if cand * cand <= x {
            cand as u64
        } else {
            (cand - 1) as u64
        }
    }
}

} // verus!
