//! Collection of common shapes that can be drawn.
//!
//! The structs defined in this module implement the
//! [`Geometry`](crate::geometry::Geometry) trait. You can also implement
//! the trait for your own shapes.

use vstd::arithmetic::div_mod::lemma_fundamental_div_mod;
use vstd::prelude::*;

use crate::fixed::{
    abs_int, fdiv_spec, fmul_spec, sat64, sat_add_spec, sat_sub_spec, sqrt_floor, Fixed,
};
use crate::geometry::Geometry;
use crate::path::{BuilderModel, PathBuilder, PathCommand};
use crate::point::{Point, Vector};
use crate::trig::{cos_turns, cos_turns_spec, sin_turns, sin_turns_spec};

verus! {

/// The linetos visiting `pts[1..k]`, in order.
pub open spec fn lineto_seq(pts: Seq<Point>, k: int) -> Seq<PathCommand> {
    Seq::new((k - 1) as nat, |i: int| PathCommand::LineTo(pts[i + 1]))
}

/// The commands of a polygonal line through `pts`: a moveto to the first
/// point, a lineto to each further point, and a close when `closed`.
/// No points produce no commands.
pub open spec fn polygon_commands(pts: Seq<Point>, closed: bool) -> Seq<PathCommand> {
    if pts.len() == 0 {
        Seq::empty()
    } else {
        seq![PathCommand::MoveTo(pts[0])] + lineto_seq(pts, pts.len() as int) + (if closed {
            seq![PathCommand::Close]
        } else {
            Seq::empty()
        })
    }
}

/// The builder state after appending a polygonal line through `pts`.
pub open spec fn polygon_add(m: BuilderModel, pts: Seq<Point>, closed: bool) -> BuilderModel {
    if pts.len() == 0 {
        m
    } else {
        BuilderModel {
            commands: m.commands + polygon_commands(pts, closed),
            current: pts[pts.len() - 1],
            subpath_start: pts[0],
            last_cubic_ctrl: None,
            last_quad_ctrl: None,
        }
    }
}

/// Appends a polygonal line through `pts` to the builder.
fn add_polygon_points(b: &mut PathBuilder, pts: &Vec<Point>, closed: bool)
    ensures
        final(b)@ == polygon_add(old(b)@, pts@, closed),
{
    if pts.len() == 0 {
        return ;
    }
    b.move_to(pts[0]);
    let mut k: usize = 1;
    while k < pts.len()
        invariant
            1 <= k <= pts@.len(),
            b@.commands == old(b)@.commands + seq![PathCommand::MoveTo(pts@[0])] + lineto_seq(
                pts@,
                k as int,
            ),
            b@.current == pts@[k - 1],
            b@.subpath_start == pts@[0],
            b@.last_cubic_ctrl is None,
            b@.last_quad_ctrl is None,
        decreases pts@.len() - k,
    {
        b.line_to(pts[k]);
        k = k + 1;
        proof {
            assert(lineto_seq(pts@, k as int) =~= lineto_seq(pts@, k as int - 1).push(
                PathCommand::LineTo(pts@[k - 1]),
            ));
            assert(old(b)@.commands + seq![PathCommand::MoveTo(pts@[0])] + lineto_seq(
                pts@,
                k as int,
            ) =~= (old(b)@.commands + seq![PathCommand::MoveTo(pts@[0])] + lineto_seq(
                pts@,
                k as int - 1,
            )).push(PathCommand::LineTo(pts@[k - 1])));
        }
    }
    if closed {
        b.close();
    }
    proof {
        assert(b@.commands =~= old(b)@.commands + polygon_commands(pts@, closed));
        assert(b@ =~= polygon_add(old(b)@, pts@, closed));
    }
}

/// Defines where the origin, or pivot, of a [`Rectangle`] should be
/// positioned.
#[derive(Clone, Copy, Debug, PartialEq, Eq, Structural)]
pub enum RectangleOrigin {
    /// The extents of the rectangle are drawn relative to the center.
    Center,
    /// The extents are drawn from the bottom-left corner.
    BottomLeft,
    /// The extents are drawn from the bottom-right corner.
    BottomRight,
    /// The extents are drawn from the top-right corner.
    TopRight,
    /// The extents are drawn from the top-left corner.
    TopLeft,
    /// The extents are drawn relative to a custom center.
    CustomCenter(Point),
}

impl Default for RectangleOrigin {
    fn default() -> (r: Self)
        ensures
            r == RectangleOrigin::Center,
    {
        RectangleOrigin::Center
    }
}

/// Radii for arcs rounding the corners of a [`Rectangle`].
#[derive(Clone, Copy, Debug, PartialEq, Eq, Structural)]
pub struct BorderRadii {
    /// Radius for the top left corner.
    pub top_left: Fixed,
    /// Radius for the top right corner.
    pub top_right: Fixed,
    /// Radius for the bottom left corner.
    pub bottom_left: Fixed,
    /// Radius for the bottom right corner.
    pub bottom_right: Fixed,
}

impl Default for BorderRadii {
    fn default() -> (r: Self)
        ensures
            r == BorderRadii::spec_zero(),
    {
        BorderRadii {
            top_left: Fixed { raw: 0 },
            top_right: Fixed { raw: 0 },
            bottom_left: Fixed { raw: 0 },
            bottom_right: Fixed { raw: 0 },
        }
    }
}

impl BorderRadii {
    /// All four radii zero.
    pub open spec fn spec_zero() -> BorderRadii {
        BorderRadii {
            top_left: Fixed { raw: 0 },
            top_right: Fixed { raw: 0 },
            bottom_left: Fixed { raw: 0 },
            bottom_right: Fixed { raw: 0 },
        }
    }

    /// Use a single radius for all corners.
    pub fn single(radius: Fixed) -> (r: Self)
        ensures
            r == (BorderRadii {
                top_left: radius,
                top_right: radius,
                bottom_left: radius,
                bottom_right: radius,
            }),
    {
        BorderRadii {
            top_left: radius,
            top_right: radius,
            bottom_left: radius,
            bottom_right: radius,
        }
    }

    /// A single radius for the top corners and zero for the bottom ones.
    pub fn top(radius: Fixed) -> (r: Self)
        ensures
            r == (BorderRadii { top_left: radius, top_right: radius, ..BorderRadii::spec_zero() }),
    {
        BorderRadii { top_left: radius, top_right: radius, ..BorderRadii::default() }
    }

    /// A single radius for the bottom corners and zero for the top ones.
    pub fn bottom(radius: Fixed) -> (r: Self)
        ensures
            r == (BorderRadii {
                bottom_left: radius,
                bottom_right: radius,
                ..BorderRadii::spec_zero()
            }),
    {
        BorderRadii { bottom_left: radius, bottom_right: radius, ..BorderRadii::default() }
    }

    /// A single radius for the left corners and zero for the right ones.
    pub fn left(radius: Fixed) -> (r: Self)
        ensures
            r == (BorderRadii {
                top_left: radius,
                bottom_left: radius,
                ..BorderRadii::spec_zero()
            }),
    {
        BorderRadii { top_left: radius, bottom_left: radius, ..BorderRadii::default() }
    }

    /// A single radius for the right corners and zero for the left ones.
    pub fn right(radius: Fixed) -> (r: Self)
        ensures
            r == (BorderRadii {
                top_right: radius,
                bottom_right: radius,
                ..BorderRadii::spec_zero()
            }),
    {
        BorderRadii { top_right: radius, bottom_right: radius, ..BorderRadii::default() }
    }
}

/// A quadrilateral with all internal right angles.
#[derive(Clone, Copy, Debug, PartialEq, Eq, Structural)]
pub struct Rectangle {
    /// The width and the height.
    pub extents: Vector,
    /// The frame of reference for the `extents`.
    pub origin: RectangleOrigin,
    /// Radii to round the corners of the rectangle with arcs.
    pub radii: Option<BorderRadii>,
}

impl Default for Rectangle {
    /// A unit square around its bottom-left corner at the center.
    fn default() -> (r: Self)
        ensures
            r.extents == (Vector { x: Fixed { raw: 100_000 }, y: Fixed { raw: 100_000 } }),
            r.origin == RectangleOrigin::Center,
            r.radii is None,
    {
        Rectangle {
            extents: Vector { x: Fixed { raw: 100_000 }, y: Fixed { raw: 100_000 } },
            origin: RectangleOrigin::Center,
            radii: None,
        }
    }
}

impl Rectangle {
    /// The bottom-left corner the rectangle is drawn from, resolved from
    /// its origin convention.
    pub open spec fn spec_corner(self) -> Point {
        let w = self.extents.x;
        let h = self.extents.y;
        match self.origin {
            RectangleOrigin::Center => Point {
                x: w.spec_halved().spec_negate(),
                y: h.spec_halved().spec_negate(),
            },
            RectangleOrigin::BottomLeft => Point { x: Fixed { raw: 0 }, y: Fixed { raw: 0 } },
            RectangleOrigin::BottomRight => Point { x: w.spec_negate(), y: Fixed { raw: 0 } },
            RectangleOrigin::TopRight => Point { x: w.spec_negate(), y: h.spec_negate() },
            RectangleOrigin::TopLeft => Point { x: Fixed { raw: 0 }, y: h.spec_negate() },
            RectangleOrigin::CustomCenter(v) => Point {
                x: v.x.spec_minus(w.spec_halved()),
                y: v.y.spec_minus(h.spec_halved()),
            },
        }
    }

    /// The four corners, counterclockwise from the bottom-left one.
    pub open spec fn spec_corners(self) -> Seq<Point> {
        let o = self.spec_corner();
        let x1 = o.x.spec_plus(self.extents.x);
        let y1 = o.y.spec_plus(self.extents.y);
        seq![
            o,
            Point { x: x1, y: o.y },
            Point { x: x1, y: y1 },
            Point { x: o.x, y: y1 },
        ]
    }

    /// The commands of the rounded outline. The caller-facing radii are
    /// named in this library's y-up frame, so the corner at the minimum
    /// coordinates takes `bottom_left`; magnitudes are used, so negative
    /// radii round by their absolute value. Corner arcs are emitted with
    /// `large_arc` and `sweep` false and no axis rotation.
    pub open spec fn spec_rounded_commands(self, br: BorderRadii) -> Seq<PathCommand> {
        let o = self.spec_corner();
        let x0 = o.x;
        let y0 = o.y;
        let x1 = o.x.spec_plus(self.extents.x);
        let y1 = o.y.spec_plus(self.extents.y);
        let bl = br.bottom_left.spec_abs();
        let brr = br.bottom_right.spec_abs();
        let tl = br.top_left.spec_abs();
        let tr = br.top_right.spec_abs();
        let a = Point { x: x0.spec_plus(bl), y: y0 };
        seq![
            PathCommand::MoveTo(a),
            PathCommand::LineTo(Point { x: x1.spec_minus(brr), y: y0 }),
            PathCommand::ArcTo {
                radii: Vector { x: brr, y: brr },
                x_rotation: Fixed { raw: 0 },
                large_arc: false,
                sweep: false,
                to: Point { x: x1, y: y0.spec_plus(brr) },
            },
            PathCommand::LineTo(Point { x: x1, y: y1.spec_minus(tr) }),
            PathCommand::ArcTo {
                radii: Vector { x: tr, y: tr },
                x_rotation: Fixed { raw: 0 },
                large_arc: false,
                sweep: false,
                to: Point { x: x1.spec_minus(tr), y: y1 },
            },
            PathCommand::LineTo(Point { x: x0.spec_plus(tl), y: y1 }),
            PathCommand::ArcTo {
                radii: Vector { x: tl, y: tl },
                x_rotation: Fixed { raw: 0 },
                large_arc: false,
                sweep: false,
                to: Point { x: x0, y: y1.spec_minus(tl) },
            },
            PathCommand::LineTo(Point { x: x0, y: y0.spec_plus(bl) }),
            PathCommand::ArcTo {
                radii: Vector { x: bl, y: bl },
                x_rotation: Fixed { raw: 0 },
                large_arc: false,
                sweep: false,
                to: a,
            },
            PathCommand::Close,
        ]
    }
}

impl Geometry for Rectangle {
    open spec fn wf(&self) -> bool {
        true
    }

    open spec fn spec_appended(&self) -> Seq<PathCommand> {
        match self.radii {
            None => polygon_commands(self.spec_corners(), true),
            Some(br) => self.spec_rounded_commands(br),
        }
    }

    open spec fn spec_add(&self, m: BuilderModel) -> BuilderModel {
        match self.radii {
            None => polygon_add(m, self.spec_corners(), true),
            Some(br) => BuilderModel {
                commands: m.commands + self.spec_rounded_commands(br),
                current: Point {
                    x: self.spec_corner().x.spec_plus(br.bottom_left.spec_abs()),
                    y: self.spec_corner().y,
                },
                subpath_start: Point {
                    x: self.spec_corner().x.spec_plus(br.bottom_left.spec_abs()),
                    y: self.spec_corner().y,
                },
                last_cubic_ctrl: None,
                last_quad_ctrl: None,
            },
        }
    }

    proof fn appended_law(&self, m: BuilderModel) {
        match self.radii {
            None => {
                assert(polygon_add(m, self.spec_corners(), true).commands =~= m.commands
                    + self.spec_appended());
            },
            Some(br) => {},
        }
    }

    fn add_geometry(&self, b: &mut PathBuilder) {
        let w = self.extents.x;
        let h = self.extents.y;
        let o = match self.origin {
            RectangleOrigin::Center => Point::new(w.halved().negate(), h.halved().negate()),
            RectangleOrigin::BottomLeft => Point::zero(),
            RectangleOrigin::BottomRight => Point::new(w.negate(), Fixed::zero()),
            RectangleOrigin::TopRight => Point::new(w.negate(), h.negate()),
            RectangleOrigin::TopLeft => Point::new(Fixed::zero(), h.negate()),
            RectangleOrigin::CustomCenter(v) => Point::new(
                v.x.minus(w.halved()),
                v.y.minus(h.halved()),
            ),
        };
        let x1 = o.x.plus(w);
        let y1 = o.y.plus(h);
        match self.radii {
            None => {
                let mut pts: Vec<Point> = Vec::new();
                pts.push(o);
                pts.push(Point::new(x1, o.y));
                pts.push(Point::new(x1, y1));
                pts.push(Point::new(o.x, y1));
                proof {
                    assert(pts@ =~= self.spec_corners());
                }
                add_polygon_points(b, &pts, true);
            },
            Some(br) => {
                let bl = br.bottom_left.abs_sat();
                let brr = br.bottom_right.abs_sat();
                let tl = br.top_left.abs_sat();
                let tr = br.top_right.abs_sat();
                let zero = Fixed::zero();
                let a = Point::new(o.x.plus(bl), o.y);
                b.move_to(a);
                b.line_to(Point::new(x1.minus(brr), o.y));
                b.arc_to(Vector::new(brr, brr), zero, false, false, Point::new(x1, o.y.plus(brr)));
                b.line_to(Point::new(x1, y1.minus(tr)));
                b.arc_to(Vector::new(tr, tr), zero, false, false, Point::new(x1.minus(tr), y1));
                b.line_to(Point::new(o.x.plus(tl), y1));
                b.arc_to(Vector::new(tl, tl), zero, false, false, Point::new(o.x, y1.minus(tl)));
                b.line_to(Point::new(o.x, o.y.plus(bl)));
                b.arc_to(Vector::new(bl, bl), zero, false, false, a);
                b.close();
                proof {
                    assert(b@.commands =~= old(b)@.commands + self.spec_rounded_commands(br));
                    assert(b@ =~= self.spec_add(old(b)@));
                }
            },
        }
    }
}

/// Raw fixed-point value of `2 * pi`: a full turn, in the radian unit the
/// arc commands carry.
pub const TWO_PI_RAW: i64 = 628_319;

/// A shape where all points are equidistant from a fixed point.
#[derive(Clone, Copy, Debug, PartialEq, Eq, Structural)]
pub struct Circle {
    /// The distance from the center of any point of the circumference.
    pub radius: Fixed,
    /// Point equidistant from all points of the circumference.
    pub center: Point,
}

impl Default for Circle {
    /// The unit circle.
    fn default() -> (r: Self)
        ensures
            r.radius == (Fixed { raw: 100_000 }),
            r.center == (Point { x: Fixed { raw: 0 }, y: Fixed { raw: 0 } }),
    {
        Circle {
            radius: Fixed { raw: 100_000 },
            center: Point { x: Fixed { raw: 0 }, y: Fixed { raw: 0 } },
        }
    }
}

impl Circle {
    /// Where the circle's contour starts: on the circumference, along the
    /// positive x-axis from the center.
    pub open spec fn spec_start(self) -> Point {
        Point { x: self.center.x.spec_plus(self.radius), y: self.center.y }
    }

    /// The circle's commands: a moveto onto the circumference, one full
    /// positive turn of a center-parameterized arc, and a close.
    pub open spec fn spec_commands(self) -> Seq<PathCommand> {
        seq![
            PathCommand::MoveTo(self.spec_start()),
            PathCommand::Arc {
                center: self.center,
                radii: Vector { x: self.radius, y: self.radius },
                sweep_angle: Fixed { raw: TWO_PI_RAW },
                x_rotation: Fixed { raw: 0 },
            },
            PathCommand::Close,
        ]
    }
}

impl Geometry for Circle {
    open spec fn wf(&self) -> bool {
        true
    }

    open spec fn spec_appended(&self) -> Seq<PathCommand> {
        self.spec_commands()
    }

    open spec fn spec_add(&self, m: BuilderModel) -> BuilderModel {
        BuilderModel {
            commands: m.commands + self.spec_commands(),
            current: self.spec_start(),
            subpath_start: self.spec_start(),
            last_cubic_ctrl: None,
            last_quad_ctrl: None,
        }
    }

    proof fn appended_law(&self, m: BuilderModel) {
    }

    fn add_geometry(&self, b: &mut PathBuilder) {
        let start = Point::new(self.center.x.plus(self.radius), self.center.y);
        b.move_to(start);
        b.arc(
            self.center,
            Vector::new(self.radius, self.radius),
            Fixed::from_raw(TWO_PI_RAW),
            Fixed::zero(),
        );
        b.close();
        proof {
            assert(b@.commands =~= old(b)@.commands + self.spec_commands());
            assert(b@ =~= self.spec_add(old(b)@));
        }
    }
}

/// A shape similar to a circle under a non-uniform scaling.
#[derive(Clone, Copy, Debug, PartialEq, Eq, Structural)]
pub struct Ellipse {
    /// The horizontal and vertical radii.
    pub radii: Vector,
    /// The midpoint of the horizontal and vertical axes.
    pub center: Point,
}

impl Default for Ellipse {
    /// The unit circle.
    fn default() -> (r: Self)
        ensures
            r.radii == (Vector { x: Fixed { raw: 100_000 }, y: Fixed { raw: 100_000 } }),
            r.center == (Point { x: Fixed { raw: 0 }, y: Fixed { raw: 0 } }),
    {
        Ellipse {
            radii: Vector { x: Fixed { raw: 100_000 }, y: Fixed { raw: 100_000 } },
            center: Point { x: Fixed { raw: 0 }, y: Fixed { raw: 0 } },
        }
    }
}

impl Ellipse {
    /// Where the ellipse's contour starts: along the positive x-axis.
    pub open spec fn spec_start(self) -> Point {
        Point { x: self.center.x.spec_plus(self.radii.x), y: self.center.y }
    }

    /// The ellipse's commands: a moveto, one full positive turn of a
    /// center-parameterized arc with the two radii, and a close.
    pub open spec fn spec_commands(self) -> Seq<PathCommand> {
        seq![
            PathCommand::MoveTo(self.spec_start()),
            PathCommand::Arc {
                center: self.center,
                radii: self.radii,
                sweep_angle: Fixed { raw: TWO_PI_RAW },
                x_rotation: Fixed { raw: 0 },
            },
            PathCommand::Close,
        ]
    }
}

impl Geometry for Ellipse {
    open spec fn wf(&self) -> bool {
        true
    }

    open spec fn spec_appended(&self) -> Seq<PathCommand> {
        self.spec_commands()
    }

    open spec fn spec_add(&self, m: BuilderModel) -> BuilderModel {
        BuilderModel {
            commands: m.commands + self.spec_commands(),
            current: self.spec_start(),
            subpath_start: self.spec_start(),
            last_cubic_ctrl: None,
            last_quad_ctrl: None,
        }
    }

    proof fn appended_law(&self, m: BuilderModel) {
    }

    fn add_geometry(&self, b: &mut PathBuilder) {
        let start = Point::new(self.center.x.plus(self.radii.x), self.center.y);
        b.move_to(start);
        b.arc(self.center, self.radii, Fixed::from_raw(TWO_PI_RAW), Fixed::zero());
        b.close();
        proof {
            assert(b@.commands =~= old(b)@.commands + self.spec_commands());
            assert(b@ =~= self.spec_add(old(b)@));
        }
    }
}

/// An arbitrary polygon or polyline.
#[derive(Clone, Debug, PartialEq)]
pub struct Polygon {
    /// The vertices; each is connected to the next, and the last to the
    /// first when `closed`.
    pub points: Vec<Point>,
    /// Whether the last vertex is connected back to the first.
    pub closed: bool,
}

impl Default for Polygon {
    /// No vertices, closed.
    fn default() -> (r: Self)
        ensures
            r.points@ == Seq::<Point>::empty(),
            r.closed == true,
    {
        let r = Polygon { points: Vec::new(), closed: true };
        proof {
            assert(r.points@ =~= Seq::<Point>::empty());
        }
        r
    }
}

impl Geometry for Polygon {
    open spec fn wf(&self) -> bool {
        true
    }

    open spec fn spec_appended(&self) -> Seq<PathCommand> {
        polygon_commands(self.points@, self.closed)
    }

    open spec fn spec_add(&self, m: BuilderModel) -> BuilderModel {
        polygon_add(m, self.points@, self.closed)
    }

    proof fn appended_law(&self, m: BuilderModel) {
        if self.points@.len() == 0 {
            assert(m.commands =~= m.commands + polygon_commands(self.points@, self.closed));
        }
    }

    fn add_geometry(&self, b: &mut PathBuilder) {
        add_polygon_points(b, &self.points, self.closed);
    }
}

/// A simple line segment, specified by two points.
#[derive(Clone, Copy, Debug, PartialEq, Eq, Structural)]
pub struct Line(pub Point, pub Point);

impl Geometry for Line {
    open spec fn wf(&self) -> bool {
        true
    }

    open spec fn spec_appended(&self) -> Seq<PathCommand> {
        polygon_commands(seq![self.0, self.1], false)
    }

    open spec fn spec_add(&self, m: BuilderModel) -> BuilderModel {
        polygon_add(m, seq![self.0, self.1], false)
    }

    proof fn appended_law(&self, m: BuilderModel) {
    }

    fn add_geometry(&self, b: &mut PathBuilder) {
        let mut pts: Vec<Point> = Vec::new();
        pts.push(self.0);
        pts.push(self.1);
        proof {
            assert(pts@ =~= seq![self.0, self.1]);
        }
        add_polygon_points(b, &pts, false);
    }
}

/// The geometric property used to define a [`RegularPolygon`].
#[derive(Clone, Copy, Debug, PartialEq, Eq, Structural)]
pub enum RegularPolygonFeature {
    /// The radius of the polygon's circumcircle.
    Radius(Fixed),
    /// The radius of the polygon's incircle.
    Apothem(Fixed),
    /// The length of the polygon's side.
    SideLength(Fixed),
}

/// A polygon with all sides and angles equal.
///
/// Its vertices sit on the circumcircle at one turn divided by `sides`
/// apart, rotated so that the bottom edge lies flat, parallel to the
/// x-axis. Drawing one requires `sides >= 3`.
#[derive(Clone, Copy, Debug, PartialEq, Eq, Structural)]
pub struct RegularPolygon {
    /// The number of sides; drawing requires at least `3`.
    pub sides: usize,
    /// The point equidistant from all vertices.
    pub center: Point,
    /// The geometric property used to define the polygon.
    pub feature: RegularPolygonFeature,
}

impl Default for RegularPolygon {
    /// An equilateral triangle of circumradius one around the origin.
    fn default() -> (r: Self)
        ensures
            r.sides == 3,
            r.center == (Point { x: Fixed { raw: 0 }, y: Fixed { raw: 0 } }),
            r.feature == RegularPolygonFeature::Radius(Fixed { raw: 100_000 }),
    {
        RegularPolygon {
            sides: 3,
            center: Point { x: Fixed { raw: 0 }, y: Fixed { raw: 0 } },
            feature: RegularPolygonFeature::Radius(Fixed { raw: 100_000 }),
        }
    }
}

impl RegularPolygon {
    /// Half the vertex angle: `1 / (2 sides)` of a turn, in raw units.
    pub open spec fn spec_ratio_raw(self) -> int {
        50_000int / (self.sides as int)
    }

    /// The circumradius resolved from the size feature. An apothem `a`
    /// gives `a * tan(ratio) / sin(ratio)`, a side length `s` gives
    /// `s / (2 sin(ratio))`, both in fixed-point arithmetic; when the
    /// half-angle falls below the angular resolution, so that its sine or
    /// cosine truncates to zero, the given scalar is used as the radius
    /// unchanged.
    pub open spec fn spec_radius(self) -> Fixed {
        match self.feature {
            RegularPolygonFeature::Radius(r) => r,
            RegularPolygonFeature::Apothem(a) => {
                let sn = sin_turns_spec(self.spec_ratio_raw());
                let cs = cos_turns_spec(self.spec_ratio_raw());
                if sn == 0 || cs == 0 {
                    a
                } else {
                    let t = fdiv_spec(sn, cs);
                    Fixed { raw: fdiv_spec(fmul_spec(a.raw as int, t), sn) as i64 }
                }
            },
            RegularPolygonFeature::SideLength(s) => {
                let sn = sin_turns_spec(self.spec_ratio_raw());
                if sn == 0 {
                    s
                } else {
                    Fixed { raw: fdiv_spec(s.raw as int, 2 * sn) as i64 }
                }
            },
        }
    }

    /// The internal angle `(sides - 2) / (2 sides)` of a turn, raw.
    pub open spec fn spec_internal_raw(self) -> int {
        (100_000 * ((self.sides as int) - 2)) / (2 * (self.sides as int))
    }

    /// The angular bias laying the bottom edge flat: half the internal
    /// angle, downward.
    pub open spec fn spec_offset_raw(self) -> int {
        -(self.spec_internal_raw() / 2)
    }

    /// The angle between two vertices: `1 / sides` of a turn, raw.
    pub open spec fn spec_step_raw(self) -> int {
        100_000int / (self.sides as int)
    }

    /// The angle of vertex `i`, raw.
    pub open spec fn spec_angle_raw(self, i: int) -> int {
        self.spec_offset_raw() + i * self.spec_step_raw()
    }

    /// Vertex `i`: the center plus the circumradius along the unit vector
    /// of the vertex angle.
    pub open spec fn spec_vertex(self, i: int) -> Point {
        let r = self.spec_radius();
        let ang = self.spec_angle_raw(i);
        Point {
            x: Fixed {
                raw: sat_add_spec(
                    fmul_spec(r.raw as int, cos_turns_spec(ang)),
                    self.center.x.raw as int,
                ) as i64,
            },
            y: Fixed {
                raw: sat_add_spec(
                    fmul_spec(r.raw as int, sin_turns_spec(ang)),
                    self.center.y.raw as int,
                ) as i64,
            },
        }
    }

    /// All `sides` vertices, in angle order.
    pub open spec fn spec_points(self) -> Seq<Point> {
        Seq::new(self.sides as nat, |i: int| self.spec_vertex(i))
    }

    /// Computes the circumradius; see [`RegularPolygon::spec_radius`].
    fn radius(&self) -> (r: Fixed)
        requires
            self.sides >= 3,
        ensures
            r == self.spec_radius(),
    {
        let ratio_raw: i64 = (50_000u64 / (self.sides as u64)) as i64;
        let ratio = Fixed::from_raw(ratio_raw);
        match self.feature {
            RegularPolygonFeature::Radius(r) => r,
            RegularPolygonFeature::Apothem(a) => {
                let sn = sin_turns(ratio);
                let cs = cos_turns(ratio);
                if sn.raw == 0 || cs.raw == 0 {
                    a
                } else {
                    let t = sn.fdiv(cs);
                    a.fmul(t).fdiv(sn)
                }
            },
            RegularPolygonFeature::SideLength(s) => {
                let sn = sin_turns(ratio);
                if sn.raw == 0 {
                    s
                } else {
                    s.fdiv(sn.plus(sn))
                }
            },
        }
    }
}

impl Geometry for RegularPolygon {
    /// A polygon needs at least three sides.
    open spec fn wf(&self) -> bool {
        self.sides >= 3
    }

    open spec fn spec_appended(&self) -> Seq<PathCommand> {
        polygon_commands(self.spec_points(), true)
    }

    open spec fn spec_add(&self, m: BuilderModel) -> BuilderModel {
        polygon_add(m, self.spec_points(), true)
    }

    proof fn appended_law(&self, m: BuilderModel) {
        if self.spec_points().len() == 0 {
            assert(m.commands =~= m.commands + polygon_commands(self.spec_points(), true));
        }
    }

    fn add_geometry(&self, b: &mut PathBuilder) {
        let n = self.sides;
        let radius = self.radius();
        let internal_u: u128 = (100_000u128 * ((n - 2) as u128)) / (2 * (n as u128));
        proof {
            let a = 100_000 * ((n as int) - 2);
            let d = 2 * (n as int);
            lemma_fundamental_div_mod(a, d);
            assert(a / d < 50_000) by (nonlinear_arith)
                requires
                    d * (a / d) <= a && a < d * 50_000 && d > 0,
            ;
        }
        let internal: u64 = internal_u as u64;
        let offset_raw: i64 = -((internal / 2) as i64);
        let step: u64 = 100_000u64 / (n as u64);
        proof {
            lemma_fundamental_div_mod(100_000int, n as int);
        }
        let mut pts: Vec<Point> = Vec::new();
        let mut k: usize = 0;
        while k < n
            invariant
                k <= n,
                n == self.sides,
                3 <= n,
                radius == self.spec_radius(),
                offset_raw as int == self.spec_offset_raw(),
                step as int == self.spec_step_raw(),
                step <= 100_000,
                (step as int) * (n as int) <= 100_000,
                -25_000 <= offset_raw <= 0,
                pts@ == Seq::new(k as nat, |i: int| self.spec_vertex(i)),
            decreases n - k,
        {
            proof {
                assert(0 <= (k as int) * (step as int) <= 100_000) by (nonlinear_arith)
                    requires
                        (step as int) * (n as int) <= 100_000 && 0 <= (k as int) < (n as int) && 0
                            <= step,
                ;
            }
            let prod: u128 = (k as u128) * (step as u128);
            let angle_raw: i64 = offset_raw + (prod as i64);
            let ang = Fixed::from_raw(angle_raw);
            let c = cos_turns(ang);
            let sn = sin_turns(ang);
            let x = radius.fmul(c).plus(self.center.x);
            let y = radius.fmul(sn).plus(self.center.y);
            pts.push(Point::new(x, y));
            k = k + 1;
            proof {
                assert(angle_raw as int == self.spec_angle_raw(k as int - 1));
                assert(pts@ =~= Seq::new(k as nat, |i: int| self.spec_vertex(i)));
            }
        }
        proof {
            assert(pts@ =~= self.spec_points());
        }
        add_polygon_points(b, &pts, true);
    }
}

/// A regular polygon's path visits exactly `sides` vertices: a moveto to
/// the first, a lineto to each of the other `sides - 1`, and one closing
/// command — nothing else.
pub proof fn lemma_regular_polygon_vertex_count(p: RegularPolygon)
    requires
        p.sides >= 3,
    ensures
        p.spec_appended().len() == p.sides + 1,
        p.spec_appended()[0] == PathCommand::MoveTo(p.spec_vertex(0)),
        forall|i: int|
            1 <= i < p.sides ==> p.spec_appended()[i] == PathCommand::LineTo(p.spec_vertex(i)),
        p.spec_appended()[p.sides as int] == PathCommand::Close,
{
    let pts = p.spec_points();
    assert(pts.len() == p.sides);
    assert(p.spec_appended().len() == p.sides + 1);
    assert forall|i: int|
        1 <= i < p.sides implies p.spec_appended()[i] == PathCommand::LineTo(
        p.spec_vertex(i),
    ) by {
        assert(p.spec_appended()[i] == lineto_seq(pts, pts.len() as int)[i - 1]);
    }
}

/// The smaller of two values.
pub open spec fn min2(a: int, b: int) -> int {
    if a <= b {
        a
    } else {
        b
    }
}

/// The straight-line distance between two points in raw units: the
/// integer square root of the sum of squared saturated differences,
/// saturated into the raw range.
pub open spec fn spec_dist_raw(a: Point, b: Point) -> int {
    let dx = sat_sub_spec(b.x.raw as int, a.x.raw as int);
    let dy = sat_sub_spec(b.y.raw as int, a.y.raw as int);
    sat64(sqrt_floor(dx * dx + dy * dy))
}

/// Computes [`spec_dist_raw`].
fn point_distance(a: Point, b: Point) -> (r: Fixed)
    ensures
        r.raw as int == spec_dist_raw(a, b),
        r.raw >= 0,
{
    let v = a.vector_to(b);
    let dx: i128 = v.x.raw as i128;
    let dy: i128 = v.y.raw as i128;
    proof {
        assert(0 <= dx * dx <= 85070591730234615865843651857942052864int
            && 0 <= dy * dy <= 85070591730234615865843651857942052864int) by (nonlinear_arith)
            requires
                -9223372036854775808 <= dx <= 9223372036854775807 && -9223372036854775808 <= dy
                    <= 9223372036854775807,
        ;
        crate::fixed::lemma_sqrt_floor_correct((dx * dx + dy * dy) as int);
    }
    let sq: u128 = ((dx * dx) as u128) + ((dy * dy) as u128);
    let rt: u64 = crate::fixed::isqrt_u128(sq);
    if rt > i64::MAX as u64 {
        Fixed { raw: i64::MAX }
    } else {
        Fixed { raw: rt as i64 }
    }
}

/// Computes [`min2`] on raw values.
fn fixed_min(a: Fixed, b: Fixed) -> (r: Fixed)
    ensures
        r.raw as int == min2(a.raw as int, b.raw as int),
{
    if a.raw <= b.raw {
        a
    } else {
        b
    }
}

/// The point at distance scale `r / d` from `v` along the segment toward
/// `p`; `v` itself when the segment has zero length.
pub open spec fn spec_along(v: Point, p: Point, r_raw: int, d_raw: int) -> Point {
    if d_raw == 0 {
        v
    } else {
        let t = fdiv_spec(r_raw, d_raw);
        let dx = sat_sub_spec(p.x.raw as int, v.x.raw as int);
        let dy = sat_sub_spec(p.y.raw as int, v.y.raw as int);
        Point {
            x: Fixed { raw: sat_add_spec(v.x.raw as int, fmul_spec(dx, t)) as i64 },
            y: Fixed { raw: sat_add_spec(v.y.raw as int, fmul_spec(dy, t)) as i64 },
        }
    }
}

/// Computes [`spec_along`].
fn along(v: Point, p: Point, r: Fixed, d: Fixed) -> (e: Point)
    requires
        d.raw >= 0,
    ensures
        e == spec_along(v, p, r.raw as int, d.raw as int),
{
    if d.raw == 0 {
        v
    } else {
        let t = r.fdiv(d);
        let dv = v.vector_to(p);
        v.translate(Vector::new(dv.x.fmul(t), dv.y.fmul(t)))
    }
}

/// An arbitrary polygon, or polyline, with rounded vertices.
///
/// Each corner is rounded by a circular arc of the given radius, clamped
/// per corner to half the length of either adjacent edge: the contour
/// enters the corner on the incoming edge at that distance from the
/// vertex, and an arc (`large_arc` and `sweep` false, no axis rotation)
/// carries it to the matching point on the outgoing edge. The endpoints
/// of an open polyline are not rounded. A closed run of fewer than three
/// points, or an open run of fewer than two, degenerates to the plain
/// polygonal line.
#[derive(Clone, Debug, PartialEq)]
pub struct RoundedPolygon {
    /// The vertices; each is connected to the next, and the last to the
    /// first when `closed`.
    pub points: Vec<Point>,
    /// The radius of the arcs rounding the vertices.
    pub radius: Fixed,
    /// Whether the last vertex is connected back to the first.
    pub closed: bool,
}

impl Default for RoundedPolygon {
    /// No vertices, radius zero, closed.
    fn default() -> (r: Self)
        ensures
            r.points@ == Seq::<Point>::empty(),
            r.radius == (Fixed { raw: 0 }),
            r.closed == true,
    {
        let r = RoundedPolygon { points: Vec::new(), radius: Fixed { raw: 0 }, closed: true };
        proof {
            assert(r.points@ =~= Seq::<Point>::empty());
        }
        r
    }
}

impl RoundedPolygon {
    /// Index of the vertex before `i`, wrapping around.
    pub open spec fn spec_prev(self, i: int) -> int {
        if i == 0 {
            self.points@.len() - 1
        } else {
            i - 1
        }
    }

    /// Index of the vertex after `i`, wrapping around.
    pub open spec fn spec_next(self, i: int) -> int {
        if i == self.points@.len() - 1 {
            0
        } else {
            i + 1
        }
    }

    /// Length of the edge arriving at vertex `i`.
    pub open spec fn spec_din(self, i: int) -> int {
        spec_dist_raw(self.points@[self.spec_prev(i)], self.points@[i])
    }

    /// Length of the edge leaving vertex `i`.
    pub open spec fn spec_dout(self, i: int) -> int {
        spec_dist_raw(self.points@[i], self.points@[self.spec_next(i)])
    }

    /// The arc radius used at vertex `i`: the magnitude of the configured
    /// radius, clamped to half of either adjacent edge.
    pub open spec fn spec_corner_r(self, i: int) -> int {
        min2(
            sat64(abs_int(self.radius.raw as int)),
            min2(self.spec_din(i) / 2, self.spec_dout(i) / 2),
        )
    }

    /// Where the contour enters the corner at vertex `i`.
    pub open spec fn spec_entry(self, i: int) -> Point {
        spec_along(
            self.points@[i],
            self.points@[self.spec_prev(i)],
            self.spec_corner_r(i),
            self.spec_din(i),
        )
    }

    /// Where the contour leaves the corner at vertex `i`.
    pub open spec fn spec_exit(self, i: int) -> Point {
        spec_along(
            self.points@[i],
            self.points@[self.spec_next(i)],
            self.spec_corner_r(i),
            self.spec_dout(i),
        )
    }

    /// The arc rounding vertex `i`.
    pub open spec fn spec_corner_arc(self, i: int) -> PathCommand {
        PathCommand::ArcTo {
            radii: Vector {
                x: Fixed { raw: self.spec_corner_r(i) as i64 },
                y: Fixed { raw: self.spec_corner_r(i) as i64 },
            },
            x_rotation: Fixed { raw: 0 },
            large_arc: false,
            sweep: false,
            to: self.spec_exit(i),
        }
    }

    /// The rounded corners of the vertices `1 .. k`: a lineto to each
    /// entry point followed by the corner's arc.
    pub open spec fn spec_body(self, k: int) -> Seq<PathCommand>
        decreases k,
    {
        if k <= 1 {
            Seq::empty()
        } else {
            self.spec_body(k - 1) + seq![
                PathCommand::LineTo(self.spec_entry(k - 1)),
                self.spec_corner_arc(k - 1),
            ]
        }
    }

    /// The commands of the rounded outline.
    pub open spec fn spec_commands(self) -> Seq<PathCommand> {
        let n = self.points@.len() as int;
        if self.closed && n >= 3 {
            seq![PathCommand::MoveTo(self.spec_entry(0)), self.spec_corner_arc(0)] + self.spec_body(
                n,
            ) + seq![PathCommand::Close]
        } else if !self.closed && n >= 2 {
            seq![PathCommand::MoveTo(self.points@[0])] + self.spec_body(n - 1) + seq![
                PathCommand::LineTo(self.points@[n - 1]),
            ]
        } else {
            polygon_commands(self.points@, self.closed)
        }
    }
}

impl Geometry for RoundedPolygon {
    open spec fn wf(&self) -> bool {
        true
    }

    open spec fn spec_appended(&self) -> Seq<PathCommand> {
        self.spec_commands()
    }

    open spec fn spec_add(&self, m: BuilderModel) -> BuilderModel {
        let n = self.points@.len() as int;
        if self.closed && n >= 3 {
            BuilderModel {
                commands: m.commands + self.spec_commands(),
                current: self.spec_exit(n - 1),
                subpath_start: self.spec_entry(0),
                last_cubic_ctrl: None,
                last_quad_ctrl: None,
            }
        } else if !self.closed && n >= 2 {
            BuilderModel {
                commands: m.commands + self.spec_commands(),
                current: self.points@[n - 1],
                subpath_start: self.points@[0],
                last_cubic_ctrl: None,
                last_quad_ctrl: None,
            }
        } else {
            polygon_add(m, self.points@, self.closed)
        }
    }

    proof fn appended_law(&self, m: BuilderModel) {
        let n = self.points@.len() as int;
        if self.closed && n >= 3 {
        } else if !self.closed && n >= 2 {
        } else if self.points@.len() == 0 {
            assert(m.commands =~= m.commands + polygon_commands(self.points@, self.closed));
        }
    }

    #[verifier::rlimit(100)]
    #[verifier::spinoff_prover]
    fn add_geometry(&self, b: &mut PathBuilder) {
        let n = self.points.len();
        let rad = self.radius.abs_sat();
        if self.closed && n >= 3 {
            let din0 = point_distance(self.points[n - 1], self.points[0]);
            let dout0 = point_distance(self.points[0], self.points[1]);
            let r0 = fixed_min(rad, fixed_min(din0.halved(), dout0.halved()));
            let e0 = along(self.points[0], self.points[n - 1], r0, din0);
            let x0 = along(self.points[0], self.points[1], r0, dout0);
            b.move_to(e0);
            b.arc_to(Vector::new(r0, r0), Fixed::zero(), false, false, x0);
            proof {
                assert(e0 == self.spec_entry(0));
                assert(b@.commands =~= old(b)@.commands + seq![
                    PathCommand::MoveTo(self.spec_entry(0)),
                    self.spec_corner_arc(0),
                ] + self.spec_body(1));
            }
            let mut k: usize = 1;
            while k < n
                invariant
                    1 <= k <= n,
                    n == self.points@.len(),
                    3 <= n,
                    self.closed,
                    rad.raw as int == sat64(abs_int(self.radius.raw as int)),
                    b@.commands == old(b)@.commands + seq![
                        PathCommand::MoveTo(self.spec_entry(0)),
                        self.spec_corner_arc(0),
                    ] + self.spec_body(k as int),
                    b@.current == (if k == 1 {
                        self.spec_exit(0)
                    } else {
                        self.spec_exit(k - 1)
                    }),
                    b@.subpath_start == self.spec_entry(0),
                    b@.last_cubic_ctrl is None,
                    b@.last_quad_ctrl is None,
                decreases n - k,
            {
                let prev: usize = k - 1;
                let next: usize = if k == n - 1 {
                    0
                } else {
                    k + 1
                };
                let din = point_distance(self.points[prev], self.points[k]);
                let dout = point_distance(self.points[k], self.points[next]);
                let r = fixed_min(rad, fixed_min(din.halved(), dout.halved()));
                let e = along(self.points[k], self.points[prev], r, din);
                let x = along(self.points[k], self.points[next], r, dout);
                b.line_to(e);
                b.arc_to(Vector::new(r, r), Fixed::zero(), false, false, x);
                k = k + 1;
                proof {
                    assert(e == self.spec_entry(k - 1));
                    assert(x == self.spec_exit(k - 1));
                    assert(self.spec_body(k as int) =~= self.spec_body(k as int - 1) + seq![
                        PathCommand::LineTo(self.spec_entry(k as int - 1)),
                        self.spec_corner_arc(k as int - 1),
                    ]);
                    assert(b@.commands =~= old(b)@.commands + seq![
                        PathCommand::MoveTo(self.spec_entry(0)),
                        self.spec_corner_arc(0),
                    ] + self.spec_body(k as int));
                }
            }
            b.close();
            proof {
                assert(b@.commands =~= old(b)@.commands + self.spec_commands());
                assert(b@ =~= self.spec_add(old(b)@));
            }
        } else if !self.closed && n >= 2 {
            b.move_to(self.points[0]);
            proof {
                assert(b@.commands =~= old(b)@.commands + seq![
                    PathCommand::MoveTo(self.points@[0]),
                ] + self.spec_body(1));
            }
            let mut k: usize = 1;
            while k < n - 1
                invariant
                    1 <= k <= n - 1,
                    n == self.points@.len(),
                    2 <= n,
                    !self.closed,
                    rad.raw as int == sat64(abs_int(self.radius.raw as int)),
                    b@.commands == old(b)@.commands + seq![PathCommand::MoveTo(self.points@[0])]
                        + self.spec_body(k as int),
                    b@.current == (if k == 1 {
                        self.points@[0]
                    } else {
                        self.spec_exit(k - 1)
                    }),
                    b@.subpath_start == self.points@[0],
                    b@.last_cubic_ctrl is None,
                    b@.last_quad_ctrl is None,
                decreases n - k,
            {
                let prev: usize = k - 1;
                let next: usize = k + 1;
                let din = point_distance(self.points[prev], self.points[k]);
                let dout = point_distance(self.points[k], self.points[next]);
                let r = fixed_min(rad, fixed_min(din.halved(), dout.halved()));
                let e = along(self.points[k], self.points[prev], r, din);
                let x = along(self.points[k], self.points[next], r, dout);
                b.line_to(e);
                b.arc_to(Vector::new(r, r), Fixed::zero(), false, false, x);
                k = k + 1;
                proof {
                    assert(e == self.spec_entry(k - 1));
                    assert(x == self.spec_exit(k - 1));
                    assert(self.spec_body(k as int) =~= self.spec_body(k as int - 1) + seq![
                        PathCommand::LineTo(self.spec_entry(k as int - 1)),
                        self.spec_corner_arc(k as int - 1),
                    ]);
                    assert(b@.commands =~= old(b)@.commands + seq![
                        PathCommand::MoveTo(self.points@[0]),
                    ] + self.spec_body(k as int));
                }
            }
            b.line_to(self.points[n - 1]);
            proof {
                assert(b@.commands =~= old(b)@.commands + self.spec_commands());
                assert(b@ =~= self.spec_add(old(b)@));
            }
        } else {
            add_polygon_points(b, &self.points, self.closed);
        }
    }
}

} // verus!
