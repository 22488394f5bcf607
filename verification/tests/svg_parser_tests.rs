use shape2d::svg::parse_path;
use shape2d::svg_parser::{PathSegment, SvgParseError};

#[test]
fn empty_and_blank_paths_parse_to_nothing() {
    assert_eq!(parse_path("").unwrap().len(), 0);
    assert_eq!(parse_path("   \t\n").unwrap().len(), 0);
}

#[test]
fn a_path_must_start_with_a_moveto() {
    assert_eq!(parse_path("L 1 2"), Err(SvgParseError::UnexpectedData { pos: 0 }));
    assert_eq!(parse_path("  x"), Err(SvgParseError::UnexpectedData { pos: 2 }));
}

#[test]
fn absolute_moveto_parses_its_pair() {
    let segs = parse_path("M 1 2").unwrap();
    assert_eq!(segs.len(), 1);
    match segs[0] {
        PathSegment::MoveTo { abs, x, y } => {
            assert!(abs);
            assert_eq!(x.raw, 100_000);
            assert_eq!(y.raw, 200_000);
        }
        _ => panic!("not a moveto"),
    }
}

#[test]
fn commands_chain_without_whitespace() {
    let segs = parse_path("M1,2L3,4z").unwrap();
    assert_eq!(segs.len(), 3);
    assert!(matches!(segs[1], PathSegment::LineTo { abs: true, .. }));
    assert!(matches!(segs[2], PathSegment::ClosePath));
}

#[test]
fn extra_moveto_pairs_become_linetos() {
    let segs = parse_path("M 0 0 10 10 20 20").unwrap();
    assert_eq!(segs.len(), 3);
    assert!(matches!(segs[0], PathSegment::MoveTo { abs: true, .. }));
    assert!(matches!(segs[1], PathSegment::LineTo { abs: true, .. }));
    assert!(matches!(segs[2], PathSegment::LineTo { abs: true, .. }));
}

#[test]
fn relative_moveto_repeats_as_relative_lineto() {
    let segs = parse_path("m 0 0 10 10").unwrap();
    assert_eq!(segs.len(), 2);
    assert!(matches!(segs[0], PathSegment::MoveTo { abs: false, .. }));
    assert!(matches!(segs[1], PathSegment::LineTo { abs: false, .. }));
}

#[test]
fn other_commands_repeat_themselves() {
    let segs = parse_path("M0 0 L 1 1 2 2").unwrap();
    assert_eq!(segs.len(), 3);
    assert!(matches!(segs[2], PathSegment::LineTo { abs: true, .. }));
    let segs = parse_path("M0 0 h 1 2 3").unwrap();
    assert_eq!(segs.len(), 4);
    assert!(matches!(segs[3], PathSegment::HorizontalLineTo { abs: false, .. }));
}

#[test]
fn nothing_repeats_after_a_close() {
    assert_eq!(parse_path("M0 0z5,5"), Err(SvgParseError::UnexpectedData { pos: 5 }));
}

#[test]
fn a_truncated_pair_is_an_unexpected_end() {
    assert_eq!(parse_path("M 1"), Err(SvgParseError::UnexpectedEnd));
    assert_eq!(parse_path("M 1 2 L"), Err(SvgParseError::UnexpectedEnd));
}

#[test]
fn a_bad_number_names_its_position() {
    assert_eq!(parse_path("M 1,x"), Err(SvgParseError::UnexpectedData { pos: 4 }));
}

#[test]
fn negative_numbers_need_no_separator() {
    let segs = parse_path("M 1-2").unwrap();
    match segs[0] {
        PathSegment::MoveTo { x, y, .. } => {
            assert_eq!(x.raw, 100_000);
            assert_eq!(y.raw, -200_000);
        }
        _ => panic!("not a moveto"),
    }
}

#[test]
fn bare_fractions_need_no_separator() {
    let segs = parse_path("M1.5.5").unwrap();
    match segs[0] {
        PathSegment::MoveTo { x, y, .. } => {
            assert_eq!(x.raw, 150_000);
            assert_eq!(y.raw, 50_000);
        }
        _ => panic!("not a moveto"),
    }
}

#[test]
fn exponents_shift_the_decimal_point() {
    let segs = parse_path("M 1e2 -2E-1").unwrap();
    match segs[0] {
        PathSegment::MoveTo { x, y, .. } => {
            assert_eq!(x.raw, 10_000_000); // 100
            assert_eq!(y.raw, -20_000); // -0.2
        }
        _ => panic!("not a moveto"),
    }
}

#[test]
fn an_exponent_needs_digits() {
    assert_eq!(parse_path("M 1e 0"), Err(SvgParseError::UnexpectedData { pos: 4 }));
    assert_eq!(parse_path("M 1e"), Err(SvgParseError::UnexpectedEnd));
}

#[test]
fn fractions_truncate_toward_zero_past_five_places() {
    let segs = parse_path("M 0.123456789 -0.000001").unwrap();
    match segs[0] {
        PathSegment::MoveTo { x, y, .. } => {
            assert_eq!(x.raw, 12_345);
            assert_eq!(y.raw, 0);
        }
        _ => panic!("not a moveto"),
    }
}

#[test]
fn huge_magnitudes_saturate() {
    let segs = parse_path("M 1e30 -1e30").unwrap();
    match segs[0] {
        PathSegment::MoveTo { x, y, .. } => {
            assert_eq!(x.raw, i64::MAX);
            assert_eq!(y.raw, i64::MIN);
        }
        _ => panic!("not a moveto"),
    }
}

#[test]
fn a_lone_dot_is_rejected() {
    assert_eq!(parse_path("M . 2"), Err(SvgParseError::UnexpectedData { pos: 2 }));
}

#[test]
fn arcs_parse_radii_rotation_flags_and_target() {
    let segs = parse_path("M0 0A 5 5 0 0 1 10 10").unwrap();
    match segs[1] {
        PathSegment::EllipticalArc { abs, rx, ry, x_axis_rotation, large_arc, sweep, x, y } => {
            assert!(abs);
            assert_eq!(rx.raw, 500_000);
            assert_eq!(ry.raw, 500_000);
            assert_eq!(x_axis_rotation.raw, 0);
            assert!(!large_arc);
            assert!(sweep);
            assert_eq!(x.raw, 1_000_000);
            assert_eq!(y.raw, 1_000_000);
        }
        _ => panic!("not an arc"),
    }
}

#[test]
fn arc_flags_may_be_adjacent_digits() {
    let segs = parse_path("M0 0a5,5 0 01 1,1").unwrap();
    assert!(matches!(
        segs[1],
        PathSegment::EllipticalArc { abs: false, large_arc: false, sweep: true, .. }
    ));
}

#[test]
fn an_arc_flag_must_be_zero_or_one() {
    assert_eq!(
        parse_path("M 0 0 A 1 1 0 2 0 5 5"),
        Err(SvgParseError::UnexpectedData { pos: 14 }),
    );
}

#[test]
fn curve_families_parse() {
    let segs = parse_path("M0 0 C 1 1 2 2 3 3 S 4 4 5 5 Q 6 6 7 7 T 8 8 V 9 H 1").unwrap();
    assert_eq!(segs.len(), 7);
    assert!(matches!(segs[1], PathSegment::CurveTo { abs: true, .. }));
    assert!(matches!(segs[2], PathSegment::SmoothCurveTo { abs: true, .. }));
    assert!(matches!(segs[3], PathSegment::Quadratic { abs: true, .. }));
    assert!(matches!(segs[4], PathSegment::SmoothQuadratic { abs: true, .. }));
    assert!(matches!(segs[5], PathSegment::VerticalLineTo { abs: true, .. }));
    assert!(matches!(segs[6], PathSegment::HorizontalLineTo { abs: true, .. }));
}

#[test]
fn a_trailing_separator_is_tolerated() {
    let segs = parse_path("M 1 2, ").unwrap();
    assert_eq!(segs.len(), 1);
}

#[test]
fn a_double_comma_is_rejected() {
    assert_eq!(parse_path("M 1,,2"), Err(SvgParseError::UnexpectedData { pos: 4 }));
}

#[test]
fn a_comma_directly_after_a_letter_is_rejected() {
    assert_eq!(parse_path("M,1 2"), Err(SvgParseError::UnexpectedData { pos: 1 }));
}
