use shape2d::draw::{Color, Fill};
use shape2d::fixed::Fixed;
use shape2d::geometry::{ShapeBuilder, ShapeBuilderBase};
use shape2d::path::{PathBuilder, PathCommand};
use shape2d::point::{Point, Vector};
use shape2d::svg::SvgPathShape;
use shape2d::svg_parser::SvgParseError;

fn doc_100(path: &str) -> SvgPathShape {
    SvgPathShape {
        svg_doc_size_in_px: Vector::new(Fixed::from_int(100), Fixed::from_int(100)),
        svg_path_string: String::from(path),
    }
}

fn commands_of(shape: &SvgPathShape) -> Vec<PathCommand> {
    let built = ShapeBuilder::with(shape).fill(Fill::color(Color::white())).build();
    built.path.commands().clone()
}

fn pt(x: i64, y: i64) -> Point {
    Point::new(Fixed::from_int(x), Fixed::from_int(y))
}

#[test]
fn the_document_center_maps_to_the_origin() {
    let cmds = commands_of(&doc_100("M 50,50"));
    assert_eq!(cmds.len(), 1);
    assert_eq!(cmds[0], PathCommand::MoveTo(pt(0, 0)));
}

#[test]
fn screen_down_maps_to_less_positive_y() {
    let cmds = commands_of(&doc_100("M 0,0 L 0,10"));
    assert_eq!(cmds.len(), 2);
    assert_eq!(cmds[0], PathCommand::MoveTo(pt(-50, 50)));
    // Ten pixels down in SVG space land at +40: below the +50 top edge.
    assert_eq!(cmds[1], PathCommand::LineTo(pt(-50, 40)));
}

#[test]
fn the_first_relative_moveto_is_absolute() {
    let lower = commands_of(&doc_100("m 10,10 l 5,0"));
    let upper = commands_of(&doc_100("M 10,10 l 5,0"));
    assert_eq!(lower, upper);
    assert_eq!(lower[0], PathCommand::MoveTo(pt(-40, 40)));
    assert_eq!(lower[1], PathCommand::LineTo(pt(-35, 40)));
}

#[test]
fn later_relative_movetos_stay_relative() {
    let cmds = commands_of(&doc_100("M 10,10 m 5,0"));
    assert_eq!(cmds[1], PathCommand::MoveTo(pt(-35, 40)));
}

#[test]
fn drawing_after_a_close_continues_from_the_pre_close_position() {
    let cmds = commands_of(&doc_100("M 0,0 L 10,0 L 10,10 Z L 5,5"));
    assert_eq!(
        cmds,
        vec![
            PathCommand::MoveTo(pt(-50, 50)),
            PathCommand::LineTo(pt(-40, 50)),
            PathCommand::LineTo(pt(-40, 40)),
            PathCommand::Close,
            PathCommand::LineTo(pt(-45, 45)),
        ],
    );
    // The same drawing, relative after the close: it resolves against the
    // pre-close pen position (10,10), not the subpath start (0,0).
    let rel = commands_of(&doc_100("M 0,0 L 10,0 L 10,10 Z l 1,1"));
    assert_eq!(rel[4], PathCommand::LineTo(pt(-39, 39)));
}

#[test]
fn horizontal_and_vertical_read_the_pen_for_the_other_axis() {
    let cmds = commands_of(&doc_100("M 10,20 H 30 v 5"));
    assert_eq!(cmds[0], PathCommand::MoveTo(pt(-40, 30)));
    assert_eq!(cmds[1], PathCommand::LineTo(pt(-20, 30)));
    assert_eq!(cmds[2], PathCommand::LineTo(pt(-20, 25)));
}

#[test]
fn relative_displacements_are_flipped_but_not_offset() {
    let cmds = commands_of(&doc_100("M 0,0 l 3,4"));
    // dx stays 3; dy 4 screen-down becomes -4.
    assert_eq!(cmds[1], PathCommand::LineTo(pt(-47, 46)));
}

#[test]
fn cubic_curves_transform_every_point() {
    let cmds = commands_of(&doc_100("M 0,0 C 10,10 20,20 30,30"));
    assert_eq!(
        cmds[1],
        PathCommand::CubicBezierTo { ctrl1: pt(-40, 40), ctrl2: pt(-30, 30), to: pt(-20, 20) },
    );
}

#[test]
fn smooth_cubic_reflects_across_the_transformed_pen() {
    let cmds = commands_of(&doc_100("M 0,0 C 10,10 20,20 30,30 S 50,10 60,0"));
    // Reflection of ctrl2 (-30,30) across the pen (-20,20): (-10,10).
    assert_eq!(
        cmds[2],
        PathCommand::CubicBezierTo { ctrl1: pt(-10, 10), ctrl2: pt(0, 40), to: pt(10, 50) },
    );
}

#[test]
fn arcs_keep_radii_and_flags_and_transform_the_target() {
    let cmds = commands_of(&doc_100("M 0,0 A 5 6 0 1 0 10,10"));
    assert_eq!(
        cmds[1],
        PathCommand::ArcTo {
            radii: Vector::new(Fixed::from_int(5), Fixed::from_int(6)),
            x_rotation: Fixed::from_raw(0),
            large_arc: true,
            sweep: false,
            to: pt(-40, 40),
        },
    );
}

#[test]
fn quadratic_and_smooth_quadratic_transform() {
    let cmds = commands_of(&doc_100("M 0,0 Q 10,10 20,0 T 40,0"));
    assert_eq!(
        cmds[1],
        PathCommand::QuadraticBezierTo { ctrl: pt(-40, 40), to: pt(-30, 50) },
    );
    // Reflection of (-40,40) across (-30,50): (-20,60).
    assert_eq!(
        cmds[2],
        PathCommand::QuadraticBezierTo { ctrl: pt(-20, 60), to: pt(-10, 50) },
    );
}

#[test]
fn try_add_geometry_reports_parse_errors_and_leaves_the_builder_alone() {
    let shape = doc_100("M 1,x");
    let mut b = PathBuilder::new();
    let r = shape.try_add_geometry(&mut b);
    assert_eq!(r, Err(SvgParseError::UnexpectedData { pos: 4 }));
    assert_eq!(b.build().commands().len(), 0);
}

#[test]
fn try_add_geometry_appends_on_success() {
    let shape = doc_100("M 50,50 L 60,50");
    let mut b = PathBuilder::new();
    b.move_to(pt(7, 7));
    let r = shape.try_add_geometry(&mut b);
    assert!(r.is_ok());
    let cmds = b.build();
    assert_eq!(cmds.commands().len(), 3);
    assert_eq!(cmds.commands()[1], PathCommand::MoveTo(pt(0, 0)));
    assert_eq!(cmds.commands()[2], PathCommand::LineTo(pt(10, 0)));
}

#[test]
fn an_odd_document_size_offsets_by_the_truncated_half() {
    let shape = SvgPathShape {
        svg_doc_size_in_px: Vector::new(Fixed::from_raw(101), Fixed::from_raw(101)),
        svg_path_string: String::from("M 0,0"),
    };
    let cmds = commands_of(&shape);
    assert_eq!(cmds[0], PathCommand::MoveTo(Point::new(Fixed::from_raw(-50), Fixed::from_raw(50))));
}
