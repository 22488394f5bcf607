//! Fixed-point sine and cosine over *turns*.
//!
//! Angles are [`Fixed`] values measured in turns: one full revolution is
//! `1.0`, that is [`SCALE`] raw units. Values are reduced modulo one turn
//! first, so any angle is accepted. The half-wave is evaluated with the
//! classical rational approximation `sin t = 64 y / (5 - 16 y)` for
//! `y = t (1/2 - t)` (`t` in turns), whose absolute error stays below
//! `0.002`; every step is exact integer arithmetic truncated toward zero,
//! so the contracts below pin the result completely.

use vstd::arithmetic::div_mod::{lemma_fundamental_div_mod, lemma_fundamental_div_mod_converse};
use vstd::prelude::*;

use crate::fixed::{Fixed, SCALE};

verus! {

/// Raw units in half a turn.
pub const HALF_TURN: i64 = 50_000;

/// Raw units in a quarter turn.
pub const QUARTER_TURN: i64 = 25_000;

/// The rational half-wave approximation on `0 <= x <= HALF_TURN` raw units.
pub open spec fn half_wave_spec(x: int) -> int
    recommends
        0 <= x <= HALF_TURN as int,
{
    let y = (x * (HALF_TURN as int - x)) / (SCALE as int);
    (64 * y * (SCALE as int)) / (5 * (SCALE as int) - 16 * y)
}

/// Sine of `v` raw units of turn: reduction modulo one turn, then the
/// half-wave approximation, negated on the second half.
pub open spec fn sin_turns_spec(v: int) -> int {
    let t = v % (SCALE as int);
    if t <= HALF_TURN as int {
        half_wave_spec(t)
    } else {
        -half_wave_spec(t - HALF_TURN as int)
    }
}

/// Cosine of `v` raw units of turn: the sine a quarter turn later.
pub open spec fn cos_turns_spec(v: int) -> int {
    sin_turns_spec(v % (SCALE as int) + QUARTER_TURN as int)
}

/// Reduces a raw angle into `[0, SCALE)`, matching ghost Euclidean `%`.
fn norm_turn(raw: i64) -> (t: u64)
    ensures
        t as int == (raw as int) % (SCALE as int),
        t < SCALE as u64,
{
    let m: u64 = if raw >= 0 {
        raw as u64
    } else {
        (-(raw as i128)) as u64
    };
    let r: u64 = m % (SCALE as u64);
    if raw >= 0 {
        r
    } else if r == 0 {
        proof {
            lemma_fundamental_div_mod(m as int, SCALE as int);
            lemma_fundamental_div_mod_converse(
                raw as int,
                SCALE as int,
                -((m as int) / (SCALE as int)),
                0,
            );
        }
        0
    } else {
        proof {
            lemma_fundamental_div_mod(m as int, SCALE as int);
            lemma_fundamental_div_mod_converse(
                raw as int,
                SCALE as int,
                -((m as int) / (SCALE as int)) - 1,
                SCALE as int - r as int,
            );
        }
        SCALE as u64 - r
    }
}

/// Evaluates the half-wave approximation on `[0, HALF_TURN]` raw units.
fn half_wave(x: u64) -> (r: i64)
    requires
        x <= HALF_TURN as u64,
    ensures
        r as int == half_wave_spec(x as int),
        0 <= r <= SCALE,
{
    proof {
        assert(x as int * (HALF_TURN as int - x as int) <= 625_000_000) by (nonlinear_arith)
            requires
                0 <= x <= HALF_TURN as int,
        ;
    }
    let y: u64 = (x * (HALF_TURN as u64 - x)) / (SCALE as u64);
    let num: u64 = 64 * y * (SCALE as u64);
    let den: u64 = 5 * (SCALE as u64) - 16 * y;
    proof {
        assert(num as int / den as int <= SCALE as int && num as int / den as int >= 0)
            by (nonlinear_arith)
            requires
                num == 64 * (y as int) * (SCALE as int)
                    && den == 5 * (SCALE as int) - 16 * (y as int) && 0 <= y <= 6250,
        ;
    }
    (num / den) as i64
}

/// Sine of a reduced raw angle.
fn sin_norm(t: u64) -> (r: i64)
    requires
        t < SCALE as u64,
    ensures
        r as int == if t <= HALF_TURN as u64 {
            half_wave_spec(t as int)
        } else {
            -half_wave_spec(t as int - HALF_TURN as int)
        },
        -SCALE <= r <= SCALE,
{
    if t <= HALF_TURN as u64 {
        half_wave(t)
    } else {
        -half_wave(t - HALF_TURN as u64)
    }
}

/// Sine of an angle in turns.
pub fn sin_turns(a: Fixed) -> (r: Fixed)
    ensures
        r.raw as int == sin_turns_spec(a.raw as int),
        -SCALE <= r.raw <= SCALE,
{
    let t = norm_turn(a.raw);
    Fixed { raw: sin_norm(t) }
}

/// Cosine of an angle in turns.
pub fn cos_turns(a: Fixed) -> (r: Fixed)
    ensures
        r.raw as int == cos_turns_spec(a.raw as int),
        -SCALE <= r.raw <= SCALE,
{
    let t = norm_turn(a.raw);
    let shifted: u64 = t + QUARTER_TURN as u64;
    let reduced: u64 = if shifted >= SCALE as u64 {
        shifted - SCALE as u64
    } else {
        shifted
    };
    proof {
        if shifted >= SCALE as u64 {
            lemma_fundamental_div_mod_converse(
                shifted as int,
                SCALE as int,
                1,
                shifted as int - SCALE as int,
            );
        } else {
            lemma_fundamental_div_mod_converse(shifted as int, SCALE as int, 0, shifted as int);
        }
    }
    Fixed { raw: sin_norm(reduced) }
}

} // verus!
