use shape2d::conversions::Convert;
use shape2d::draw::{Color, Fill, FillRule, Stroke};
use shape2d::fixed::Fixed;
use shape2d::geometry::{ShapeBuilder, ShapeBuilderBase};
use shape2d::path::PathCommand;
use shape2d::point::{Point, Vector};
use shape2d::shapes::{
    BorderRadii, Circle, Ellipse, Line, Polygon, Rectangle, RectangleOrigin, RegularPolygon,
    RegularPolygonFeature, RoundedPolygon, TWO_PI_RAW,
};

fn pt(x: i64, y: i64) -> Point {
    Point::new(Fixed::from_int(x), Fixed::from_int(y))
}

fn fill() -> Fill {
    Fill::color(Color::white())
}

fn commands<G: shape2d::geometry::Geometry>(shape: &G) -> Vec<PathCommand> {
    ShapeBuilder::with(shape).fill(fill()).build().path.commands().clone()
}

#[test]
fn a_centered_rectangle_has_its_four_corners() {
    let rect = Rectangle {
        extents: Vector::new(Fixed::from_int(100), Fixed::from_int(100)),
        origin: RectangleOrigin::Center,
        radii: None,
    };
    let cmds = commands(&rect);
    assert_eq!(
        cmds,
        vec![
            PathCommand::MoveTo(pt(-50, -50)),
            PathCommand::LineTo(pt(50, -50)),
            PathCommand::LineTo(pt(50, 50)),
            PathCommand::LineTo(pt(-50, 50)),
            PathCommand::Close,
        ],
    );
    // Exactly one contour: a single moveto.
    let movetos = cmds.iter().filter(|c| matches!(c, PathCommand::MoveTo(_))).count();
    assert_eq!(movetos, 1);
}

#[test]
fn rectangle_origins_shift_the_corner() {
    let extents = Vector::new(Fixed::from_int(4), Fixed::from_int(2));
    let bl = Rectangle { extents, origin: RectangleOrigin::BottomLeft, radii: None };
    assert_eq!(commands(&bl)[0], PathCommand::MoveTo(pt(0, 0)));
    let tr = Rectangle { extents, origin: RectangleOrigin::TopRight, radii: None };
    assert_eq!(commands(&tr)[0], PathCommand::MoveTo(pt(-4, -2)));
    let cc = Rectangle { extents, origin: RectangleOrigin::CustomCenter(pt(10, 10)), radii: None };
    assert_eq!(commands(&cc)[0], PathCommand::MoveTo(pt(8, 9)));
}

#[test]
fn a_rounded_rectangle_rounds_each_corner_with_its_radius() {
    let rect = Rectangle {
        extents: Vector::new(Fixed::from_int(10), Fixed::from_int(10)),
        origin: RectangleOrigin::BottomLeft,
        radii: Some(BorderRadii::single(Fixed::from_int(1))),
    };
    let one = Fixed::from_int(1);
    let cmds = commands(&rect);
    assert_eq!(cmds.len(), 10);
    assert_eq!(cmds[0], PathCommand::MoveTo(pt(1, 0)));
    assert_eq!(cmds[1], PathCommand::LineTo(pt(9, 0)));
    assert_eq!(
        cmds[2],
        PathCommand::ArcTo {
            radii: Vector::new(one, one),
            x_rotation: Fixed::from_raw(0),
            large_arc: false,
            sweep: false,
            to: pt(10, 1),
        },
    );
    assert_eq!(cmds[3], PathCommand::LineTo(pt(10, 9)));
    assert_eq!(cmds[9], PathCommand::Close);
}

#[test]
fn rounded_corner_radii_use_their_magnitude() {
    let rect = Rectangle {
        extents: Vector::new(Fixed::from_int(10), Fixed::from_int(10)),
        origin: RectangleOrigin::BottomLeft,
        radii: Some(BorderRadii {
            top_left: Fixed::from_int(-2),
            top_right: Fixed::from_raw(0),
            bottom_left: Fixed::from_raw(0),
            bottom_right: Fixed::from_raw(0),
        }),
    };
    let cmds = commands(&rect);
    // The top-left corner arc ends two units below the top-left corner.
    assert_eq!(cmds[5], PathCommand::LineTo(pt(2, 10)));
    assert!(matches!(cmds[6], PathCommand::ArcTo { .. }));
}

#[test]
fn border_radii_helpers_fill_the_right_corners() {
    let r = Fixed::from_int(3);
    let z = Fixed::from_raw(0);
    let top = BorderRadii::top(r);
    assert_eq!(top.top_left, r);
    assert_eq!(top.top_right, r);
    assert_eq!(top.bottom_left, z);
    let left = BorderRadii::left(r);
    assert_eq!(left.top_left, r);
    assert_eq!(left.bottom_left, r);
    assert_eq!(left.top_right, z);
    let single = BorderRadii::single(r);
    assert_eq!(single.bottom_right, r);
}

#[test]
fn a_circle_is_a_full_turn_arc_around_its_center() {
    let c = Circle { radius: Fixed::from_int(2), center: pt(1, 1) };
    let cmds = commands(&c);
    assert_eq!(cmds.len(), 3);
    assert_eq!(cmds[0], PathCommand::MoveTo(pt(3, 1)));
    assert_eq!(
        cmds[1],
        PathCommand::Arc {
            center: pt(1, 1),
            radii: Vector::new(Fixed::from_int(2), Fixed::from_int(2)),
            sweep_angle: Fixed::from_raw(TWO_PI_RAW),
            x_rotation: Fixed::from_raw(0),
        },
    );
    assert_eq!(cmds[2], PathCommand::Close);
}

#[test]
fn an_ellipse_carries_both_radii() {
    let e = Ellipse { radii: Vector::new(Fixed::from_int(3), Fixed::from_int(1)), center: pt(0, 0) };
    let cmds = commands(&e);
    assert_eq!(cmds[0], PathCommand::MoveTo(pt(3, 0)));
    assert!(matches!(cmds[1], PathCommand::Arc { .. }));
}

#[test]
fn a_polygon_walks_its_points_and_closes() {
    let p = Polygon { points: vec![pt(0, 0), pt(4, 0), pt(2, 3)], closed: true };
    let cmds = commands(&p);
    assert_eq!(
        cmds,
        vec![
            PathCommand::MoveTo(pt(0, 0)),
            PathCommand::LineTo(pt(4, 0)),
            PathCommand::LineTo(pt(2, 3)),
            PathCommand::Close,
        ],
    );
}

#[test]
fn an_open_polygon_is_a_polyline() {
    let p = Polygon { points: vec![pt(0, 0), pt(4, 0), pt(2, 3)], closed: false };
    let cmds = commands(&p);
    assert_eq!(cmds.len(), 3);
    assert!(!cmds.iter().any(|c| matches!(c, PathCommand::Close)));
}

#[test]
fn an_empty_polygon_contributes_nothing() {
    let p = Polygon { points: vec![], closed: true };
    assert_eq!(commands(&p).len(), 0);
}

#[test]
fn a_line_is_an_open_two_point_polyline() {
    let l = Line(pt(1, 2), pt(3, 4));
    assert_eq!(
        commands(&l),
        vec![PathCommand::MoveTo(pt(1, 2)), PathCommand::LineTo(pt(3, 4))],
    );
}

fn vertices_of(cmds: &[PathCommand]) -> Vec<Point> {
    let mut out = Vec::new();
    for c in cmds {
        match c {
            PathCommand::MoveTo(p) => out.push(*p),
            PathCommand::LineTo(p) => out.push(*p),
            _ => {}
        }
    }
    out
}

#[test]
fn a_regular_polygon_has_exactly_its_number_of_vertices() {
    for sides in 3..12usize {
        let poly = RegularPolygon {
            sides,
            center: pt(0, 0),
            feature: RegularPolygonFeature::Radius(Fixed::from_int(5)),
        };
        let cmds = commands(&poly);
        assert_eq!(cmds.len(), sides + 1);
        assert_eq!(vertices_of(&cmds).len(), sides);
        assert_eq!(cmds[sides], PathCommand::Close);
    }
}

#[test]
fn a_square_regular_polygon_lies_flat() {
    let poly = RegularPolygon {
        sides: 4,
        center: pt(0, 0),
        feature: RegularPolygonFeature::Radius(Fixed::from_int(1)),
    };
    let verts = vertices_of(&commands(&poly));
    // Vertices at odd eighths of a turn: the closing edge from the last
    // vertex back to the first is horizontal and at the bottom.
    assert_eq!(verts[0].y.raw, verts[3].y.raw);
    assert!(verts[0].y.raw < 0);
    assert!((verts[0].x.raw + verts[3].x.raw).abs() <= 200);
}

#[test]
fn radius_and_matching_apothem_agree_within_tolerance() {
    let sides = 6usize;
    let radius = 100_000i64; // 1.0
    let by_radius = RegularPolygon {
        sides,
        center: pt(0, 0),
        feature: RegularPolygonFeature::Radius(Fixed::from_raw(radius)),
    };
    let apothem =
        ((radius as f64) * (std::f64::consts::PI / sides as f64).cos()).round() as i64;
    let by_apothem = RegularPolygon {
        sides,
        center: pt(0, 0),
        feature: RegularPolygonFeature::Apothem(Fixed::from_raw(apothem)),
    };
    let va = vertices_of(&commands(&by_radius));
    let vb = vertices_of(&commands(&by_apothem));
    assert_eq!(va.len(), vb.len());
    for (a, b) in va.iter().zip(vb.iter()) {
        assert!((a.x.raw - b.x.raw).abs() <= 1_000, "{} vs {}", a.x.raw, b.x.raw);
        assert!((a.y.raw - b.y.raw).abs() <= 1_000, "{} vs {}", a.y.raw, b.y.raw);
    }
}

#[test]
fn side_length_matches_the_hexagon_radius() {
    // A regular hexagon's side length equals its circumradius.
    let by_side = RegularPolygon {
        sides: 6,
        center: pt(0, 0),
        feature: RegularPolygonFeature::SideLength(Fixed::from_int(1)),
    };
    let by_radius = RegularPolygon {
        sides: 6,
        center: pt(0, 0),
        feature: RegularPolygonFeature::Radius(Fixed::from_int(1)),
    };
    let va = vertices_of(&commands(&by_side));
    let vb = vertices_of(&commands(&by_radius));
    for (a, b) in va.iter().zip(vb.iter()) {
        assert!((a.x.raw - b.x.raw).abs() <= 1_000);
        assert!((a.y.raw - b.y.raw).abs() <= 1_000);
    }
}

#[test]
fn a_closed_rounded_polygon_rounds_every_vertex() {
    let rp = RoundedPolygon {
        points: vec![pt(0, 0), pt(10, 0), pt(10, 10), pt(0, 10)],
        radius: Fixed::from_int(2),
        closed: true,
    };
    let two = Fixed::from_int(2);
    let cmds = commands(&rp);
    assert_eq!(cmds.len(), 9);
    assert_eq!(cmds[0], PathCommand::MoveTo(pt(0, 2)));
    assert_eq!(
        cmds[1],
        PathCommand::ArcTo {
            radii: Vector::new(two, two),
            x_rotation: Fixed::from_raw(0),
            large_arc: false,
            sweep: false,
            to: pt(2, 0),
        },
    );
    assert_eq!(cmds[2], PathCommand::LineTo(pt(8, 0)));
    assert!(matches!(cmds[3], PathCommand::ArcTo { .. }));
    assert_eq!(cmds[4], PathCommand::LineTo(pt(10, 8)));
    assert_eq!(cmds[8], PathCommand::Close);
}

#[test]
fn an_open_rounded_polyline_keeps_its_endpoints_sharp() {
    let rp = RoundedPolygon {
        points: vec![pt(0, 0), pt(10, 0), pt(10, 10)],
        radius: Fixed::from_int(2),
        closed: false,
    };
    let cmds = commands(&rp);
    assert_eq!(cmds.len(), 4);
    assert_eq!(cmds[0], PathCommand::MoveTo(pt(0, 0)));
    assert_eq!(cmds[1], PathCommand::LineTo(pt(8, 0)));
    assert!(matches!(cmds[2], PathCommand::ArcTo { .. }));
    assert_eq!(cmds[3], PathCommand::LineTo(pt(10, 10)));
}

#[test]
fn rounded_corner_radii_clamp_to_half_the_edges() {
    let rp = RoundedPolygon {
        points: vec![pt(0, 0), pt(2, 0), pt(2, 10), pt(0, 10)],
        radius: Fixed::from_int(50),
        closed: true,
    };
    let cmds = commands(&rp);
    // The short edges have length 2, so every radius clamps to 1.
    assert_eq!(cmds[0], PathCommand::MoveTo(pt(0, 1)));
    match cmds[1] {
        PathCommand::ArcTo { radii, to, .. } => {
            assert_eq!(radii.x.raw, 100_000);
            assert_eq!(to, pt(1, 0));
        }
        _ => panic!("expected an arc"),
    }
}

#[test]
fn composition_is_additive_and_order_preserving() {
    let a = Line(pt(0, 0), pt(1, 1));
    let b = Circle { radius: Fixed::from_int(1), center: pt(5, 5) };
    let combined = ShapeBuilder::new().add(&a).add(&b).fill(fill()).build();
    let alone_a = commands(&a);
    let alone_b = commands(&b);
    let mut expected = alone_a.clone();
    expected.extend(alone_b.iter().cloned());
    assert_eq!(combined.path.commands(), &expected);
}

#[test]
fn building_twice_from_equal_descriptors_is_deterministic() {
    let shape = RegularPolygon {
        sides: 5,
        center: pt(2, 3),
        feature: RegularPolygonFeature::Apothem(Fixed::from_int(4)),
    };
    let first = ShapeBuilder::with(&shape).fill(fill()).build();
    let second = ShapeBuilder::with(&shape).fill(fill()).build();
    assert_eq!(first.path.commands(), second.path.commands());
    assert_eq!(first.fill, second.fill);
    assert_eq!(first.stroke, second.stroke);
}

#[test]
fn fill_and_stroke_styling_compose() {
    let l = Line(pt(0, 0), pt(1, 0));
    let filled = ShapeBuilder::with(&l).fill(fill()).build();
    assert!(filled.fill.is_some());
    assert!(filled.stroke.is_none());
    let stroked = ShapeBuilder::with(&l).stroke(Stroke::color(Color::black())).build();
    assert!(stroked.fill.is_none());
    assert!(stroked.stroke.is_some());
    let outlined = ShapeBuilder::with(&l)
        .fill(fill())
        .stroke(Stroke::new(Color::black(), Fixed::from_int(2)))
        .build();
    assert!(outlined.fill.is_some());
    let stroke = outlined.stroke.unwrap();
    assert_eq!(stroke.options.line_width.raw, 200_000);
}

#[test]
fn shape_getters_expose_path_and_styling() {
    let l = Line(pt(0, 0), pt(1, 0));
    let shape = ShapeBuilder::with(&l).fill(fill()).build();
    assert_eq!(shape.path_ref().commands().len(), 2);
    assert_eq!(shape.fill(), shape.fill);
    assert_eq!(shape.stroke(), None);
}

#[test]
fn a_shape_can_be_added_to_another_builder() {
    let l = Line(pt(0, 0), pt(1, 0));
    let inner = ShapeBuilder::with(&l).fill(fill()).build();
    let outer = ShapeBuilder::new().add(&inner).add(&l).fill(fill()).build();
    assert_eq!(outer.path.commands().len(), 4);
}

#[test]
fn default_styling_matches_the_documented_colors() {
    let f = Fill::default();
    assert_eq!(f.color, Color::white());
    assert_eq!(f.options.fill_rule, FillRule::NonZero);
    assert_eq!(f.options.tolerance.raw, 10_000);
    let s = Stroke::default();
    assert_eq!(s.color, Color::black());
    assert_eq!(s.options.line_width.raw, 100_000);
    assert_eq!(s.options.miter_limit.raw, 400_000);
}

#[test]
fn conversions_swap_position_and_displacement() {
    let p = pt(3, 4);
    let v: Vector = p.convert();
    assert_eq!(v.x.raw, 300_000);
    let back: Point = v.convert();
    assert_eq!(back, p);
}
