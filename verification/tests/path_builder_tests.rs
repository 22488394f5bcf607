use shape2d::fixed::Fixed;
use shape2d::geometry::ShapeBuilderBase;
use shape2d::path::{PathBuilder, PathCommand, ShapePath};
use shape2d::point::{Point, Vector};

fn pt(x: i64, y: i64) -> Point {
    Point::new(Fixed::from_int(x), Fixed::from_int(y))
}

#[test]
fn builder_records_commands_in_order() {
    let mut b = PathBuilder::new();
    b.move_to(pt(1, 2));
    b.line_to(pt(3, 4));
    b.close();
    let path = b.build();
    let cmds = path.commands();
    assert_eq!(cmds.len(), 3);
    assert_eq!(cmds[0], PathCommand::MoveTo(pt(1, 2)));
    assert_eq!(cmds[1], PathCommand::LineTo(pt(3, 4)));
    assert_eq!(cmds[2], PathCommand::Close);
}

#[test]
fn close_does_not_reset_the_current_position() {
    let mut b = PathBuilder::new();
    b.move_to(pt(0, 0));
    b.line_to(pt(10, 0));
    b.line_to(pt(10, 10));
    b.close();
    // Drawing continues from the pre-close position, not the subpath start.
    assert_eq!(b.current_position(), pt(10, 10));
    b.relative_line_to(Vector::new(Fixed::from_int(-5), Fixed::from_int(-5)));
    assert_eq!(b.current_position(), pt(5, 5));
}

#[test]
fn relative_commands_resolve_against_the_pen() {
    let mut b = PathBuilder::new();
    b.move_to(pt(10, 20));
    b.relative_line_to(Vector::new(Fixed::from_int(5), Fixed::from_int(-5)));
    assert_eq!(b.current_position(), pt(15, 15));
    b.relative_move_to(Vector::new(Fixed::from_int(1), Fixed::from_int(1)));
    assert_eq!(b.current_position(), pt(16, 16));
    let cmds = b.build();
    assert_eq!(cmds.commands()[1], PathCommand::LineTo(pt(15, 15)));
    assert_eq!(cmds.commands()[2], PathCommand::MoveTo(pt(16, 16)));
}

#[test]
fn horizontal_and_vertical_keep_the_other_axis() {
    let mut b = PathBuilder::new();
    b.move_to(pt(3, 7));
    b.horizontal_line_to(Fixed::from_int(9));
    assert_eq!(b.current_position(), pt(9, 7));
    b.vertical_line_to(Fixed::from_int(-2));
    assert_eq!(b.current_position(), pt(9, -2));
    b.relative_horizontal_line_to(Fixed::from_int(1));
    assert_eq!(b.current_position(), pt(10, -2));
    b.relative_vertical_line_to(Fixed::from_int(2));
    assert_eq!(b.current_position(), pt(10, 0));
}

#[test]
fn smooth_cubic_reflects_the_previous_control_point() {
    let mut b = PathBuilder::new();
    b.move_to(pt(0, 0));
    b.cubic_bezier_to(pt(1, 1), pt(2, 1), pt(3, 0));
    b.smooth_cubic_bezier_to(pt(5, 1), pt(6, 0));
    let path = b.build();
    // Implied first control point: 2 * (3,0) - (2,1) = (4,-1).
    assert_eq!(
        path.commands()[2],
        PathCommand::CubicBezierTo { ctrl1: pt(4, -1), ctrl2: pt(5, 1), to: pt(6, 0) },
    );
}

#[test]
fn smooth_cubic_without_previous_cubic_uses_the_pen() {
    let mut b = PathBuilder::new();
    b.move_to(pt(2, 2));
    b.smooth_cubic_bezier_to(pt(5, 1), pt(6, 0));
    let path = b.build();
    assert_eq!(
        path.commands()[1],
        PathCommand::CubicBezierTo { ctrl1: pt(2, 2), ctrl2: pt(5, 1), to: pt(6, 0) },
    );
}

#[test]
fn smooth_quadratic_reflects_the_previous_control_point() {
    let mut b = PathBuilder::new();
    b.move_to(pt(0, 0));
    b.quadratic_bezier_to(pt(1, 2), pt(2, 0));
    b.smooth_quadratic_bezier_to(pt(4, 0));
    let path = b.build();
    // Implied control point: 2 * (2,0) - (1,2) = (3,-2).
    assert_eq!(
        path.commands()[2],
        PathCommand::QuadraticBezierTo { ctrl: pt(3, -2), to: pt(4, 0) },
    );
}

#[test]
fn a_line_breaks_the_smooth_cubic_chain() {
    let mut b = PathBuilder::new();
    b.move_to(pt(0, 0));
    b.cubic_bezier_to(pt(1, 1), pt(2, 1), pt(3, 0));
    b.line_to(pt(4, 4));
    b.smooth_cubic_bezier_to(pt(6, 5), pt(7, 4));
    let path = b.build();
    assert_eq!(
        path.commands()[3],
        PathCommand::CubicBezierTo { ctrl1: pt(4, 4), ctrl2: pt(6, 5), to: pt(7, 4) },
    );
}

#[test]
fn arc_command_is_recorded_verbatim() {
    let mut b = PathBuilder::new();
    b.move_to(pt(1, 0));
    b.arc(
        pt(0, 0),
        Vector::new(Fixed::from_int(1), Fixed::from_int(1)),
        Fixed::from_raw(628_319),
        Fixed::from_raw(0),
    );
    let path = b.build();
    assert_eq!(
        path.commands()[1],
        PathCommand::Arc {
            center: pt(0, 0),
            radii: Vector::new(Fixed::from_int(1), Fixed::from_int(1)),
            sweep_angle: Fixed::from_raw(628_319),
            x_rotation: Fixed::from_raw(0),
        },
    );
}

#[test]
fn concatenate_splices_commands_verbatim() {
    let mut sub = PathBuilder::new();
    sub.move_to(pt(5, 5));
    sub.close();
    let sub_path = sub.build();
    let mut b = PathBuilder::new();
    b.move_to(pt(0, 0));
    b.concatenate(sub_path.commands());
    let path = b.build();
    assert_eq!(path.commands().len(), 3);
    assert_eq!(path.commands()[1], PathCommand::MoveTo(pt(5, 5)));
    assert_eq!(path.commands()[2], PathCommand::Close);
}

#[test]
fn shape_path_chains_commands() {
    let sp = ShapePath::new()
        .move_to(pt(0, 0))
        .line_to(pt(1, 0))
        .quadratic_bezier_to(pt(2, 1), pt(3, 0))
        .cubic_bezier_to(pt(4, 1), pt(5, 1), pt(6, 0))
        .arc(
            pt(0, 0),
            Vector::new(Fixed::from_int(1), Fixed::from_int(1)),
            Fixed::from_raw(314_159),
            Fixed::from_raw(0),
        )
        .close();
    let shape = shape2d::geometry::ShapeBuilder::with(&sp)
        .fill(shape2d::draw::Fill::color(shape2d::draw::Color::white()))
        .build();
    let cmds = shape.path.commands();
    assert_eq!(cmds.len(), 6);
    assert_eq!(cmds[0], PathCommand::MoveTo(pt(0, 0)));
    assert_eq!(cmds[1], PathCommand::LineTo(pt(1, 0)));
    assert_eq!(cmds[2], PathCommand::QuadraticBezierTo { ctrl: pt(2, 1), to: pt(3, 0) });
    assert_eq!(
        cmds[3],
        PathCommand::CubicBezierTo { ctrl1: pt(4, 1), ctrl2: pt(5, 1), to: pt(6, 0) },
    );
    assert_eq!(
        cmds[4],
        PathCommand::Arc {
            center: pt(0, 0),
            radii: Vector::new(Fixed::from_int(1), Fixed::from_int(1)),
            sweep_angle: Fixed::from_raw(314_159),
            x_rotation: Fixed::from_raw(0),
        },
    );
    assert_eq!(cmds[5], PathCommand::Close);
}
