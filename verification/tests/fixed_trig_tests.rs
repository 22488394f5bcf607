use shape2d::fixed::{isqrt_u128, Fixed, SCALE};
use shape2d::trig::{cos_turns, sin_turns};

#[test]
fn scale_is_five_decimal_places() {
    assert_eq!(SCALE, 100_000);
    assert_eq!(Fixed::from_int(3).raw, 300_000);
    assert_eq!(Fixed::from_int(-2).raw, -200_000);
}

#[test]
fn plus_and_minus_are_exact_in_range() {
    let a = Fixed::from_raw(150_000);
    let b = Fixed::from_raw(-50_000);
    assert_eq!(a.plus(b).raw, 100_000);
    assert_eq!(a.minus(b).raw, 200_000);
}

#[test]
fn arithmetic_saturates_at_the_bounds() {
    let max = Fixed::from_raw(i64::MAX);
    let min = Fixed::from_raw(i64::MIN);
    assert_eq!(max.plus(Fixed::from_raw(1)).raw, i64::MAX);
    assert_eq!(min.minus(Fixed::from_raw(1)).raw, i64::MIN);
    assert_eq!(min.negate().raw, i64::MAX);
    assert_eq!(max.negate().raw, -i64::MAX);
    assert_eq!(min.abs_sat().raw, i64::MAX);
}

#[test]
fn halving_truncates_toward_zero() {
    assert_eq!(Fixed::from_raw(5).halved().raw, 2);
    assert_eq!(Fixed::from_raw(-5).halved().raw, -2);
    assert_eq!(Fixed::from_raw(4).halved().raw, 2);
}

#[test]
fn fixed_multiplication_is_exact() {
    let a = Fixed::from_raw(150_000); // 1.5
    let b = Fixed::from_raw(200_000); // 2.0
    assert_eq!(a.fmul(b).raw, 300_000); // 3.0
    let third = Fixed::from_raw(33_333);
    assert_eq!(Fixed::from_int(-1).fmul(third).raw, -33_333);
}

#[test]
fn fixed_division_truncates() {
    let one = Fixed::from_int(1);
    let three = Fixed::from_int(3);
    assert_eq!(one.fdiv(three).raw, 33_333);
    assert_eq!(one.negate().fdiv(three).raw, -33_333);
}

#[test]
fn integer_square_roots_are_floored() {
    assert_eq!(isqrt_u128(0), 0);
    assert_eq!(isqrt_u128(1), 1);
    assert_eq!(isqrt_u128(2), 1);
    assert_eq!(isqrt_u128(15), 3);
    assert_eq!(isqrt_u128(16), 4);
    assert_eq!(isqrt_u128(1_000_000), 1_000);
}

#[test]
fn sine_hits_the_special_angles_exactly() {
    assert_eq!(sin_turns(Fixed::from_raw(0)).raw, 0);
    assert_eq!(sin_turns(Fixed::from_raw(25_000)).raw, 100_000);
    assert_eq!(sin_turns(Fixed::from_raw(50_000)).raw, 0);
    assert_eq!(sin_turns(Fixed::from_raw(75_000)).raw, -100_000);
    assert_eq!(cos_turns(Fixed::from_raw(0)).raw, 100_000);
    assert_eq!(cos_turns(Fixed::from_raw(50_000)).raw, -100_000);
}

#[test]
fn sine_reduces_modulo_one_turn() {
    let a = sin_turns(Fixed::from_raw(12_345));
    let b = sin_turns(Fixed::from_raw(12_345 + 100_000));
    let c = sin_turns(Fixed::from_raw(12_345 - 300_000));
    assert_eq!(a.raw, b.raw);
    assert_eq!(a.raw, c.raw);
}

#[test]
fn sine_approximates_thirty_degrees() {
    // sin(1/12 turn) = 0.5; the rational approximation is within 0.002.
    let s = sin_turns(Fixed::from_raw(100_000 / 12)).raw;
    assert!((s - 50_000).abs() <= 200, "sin(1/12) = {s}");
    let c = cos_turns(Fixed::from_raw(100_000 / 12)).raw;
    let expected = (0.8660254f64 * 100_000.0) as i64;
    assert!((c - expected).abs() <= 200, "cos(1/12) = {c}");
}

#[test]
fn sine_stays_within_the_unit_range() {
    let mut t: i64 = -200_000;
    while t <= 200_000 {
        let s = sin_turns(Fixed::from_raw(t)).raw;
        let c = cos_turns(Fixed::from_raw(t)).raw;
        assert!(-100_000 <= s && s <= 100_000);
        assert!(-100_000 <= c && c <= 100_000);
        t += 1_733;
    }
}
