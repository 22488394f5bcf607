//! The path command model: commands, the stateful builder, and [`ShapePath`].
//!
//! A [`Path`] is an immutable, ordered sequence of [`PathCommand`]s
//! describing one or more contours; a new contour begins at each `MoveTo`.
//! Commands are accumulated through a [`PathBuilder`], which threads the
//! state an SVG-style command stream needs: the current pen position, the
//! start of the open subpath (where `Close` draws back to), and the last
//! control point of a curve, used to resolve smooth-curve shorthand by
//! reflection.
//!
//! All builder operations are total: malformed sequences (for example a
//! `close` before any `move_to`) are recorded verbatim and merely describe
//! a degenerate contour. `close` appends a `Close` command but does *not*
//! move the current position back to the subpath start: a following
//! `line_to` continues from wherever the pen was before the close.

use vstd::prelude::*;

use crate::fixed::Fixed;
use crate::geometry::Geometry;
use crate::point::{Point, Vector};

verus! {

/// One atomic command of a [`Path`].
#[derive(Clone, Copy, Debug, PartialEq, Eq, Structural)]
pub enum PathCommand {
    /// Starts a new contour at the given position.
    MoveTo(Point),
    /// A straight edge from the current position.
    LineTo(Point),
    /// A quadratic Bézier curve from the current position.
    QuadraticBezierTo {
        /// The control point.
        ctrl: Point,
        /// The end point.
        to: Point,
    },
    /// A cubic Bézier curve from the current position.
    CubicBezierTo {
        /// The first control point.
        ctrl1: Point,
        /// The second control point.
        ctrl2: Point,
        /// The end point.
        to: Point,
    },
    /// An endpoint-parameterized elliptical arc from the current position,
    /// as written in an SVG path.
    ArcTo {
        /// The two radii of the ellipse.
        radii: Vector,
        /// Rotation of the ellipse's x-axis, kept as written in the source.
        x_rotation: Fixed,
        /// Chooses the larger of the two candidate sweeps.
        large_arc: bool,
        /// Chooses the sweep direction.
        sweep: bool,
        /// The end point.
        to: Point,
    },
    /// A center-parameterized elliptical arc, used by the direct builder
    /// API once an arc no longer needs endpoint form.
    Arc {
        /// The center of the ellipse.
        center: Point,
        /// The two radii of the ellipse.
        radii: Vector,
        /// Signed sweep around the center, in radians scaled by
        /// [`crate::fixed::SCALE`].
        sweep_angle: Fixed,
        /// Rotation of the ellipse's x-axis, in the same unit.
        x_rotation: Fixed,
    },
    /// Draws a straight edge back to the start of the open subpath.
    Close,
}

/// An immutable, ordered sequence of path commands.
#[derive(Clone, Debug, PartialEq)]
pub struct Path {
    commands: Vec<PathCommand>,
}

impl View for Path {
    type V = Seq<PathCommand>;

    closed spec fn view(&self) -> Seq<PathCommand> {
        self.commands@
    }
}

impl Path {
    /// The command sequence.
    pub fn commands(&self) -> (r: &Vec<PathCommand>)
        ensures
            r@ == self@,
    {
        &self.commands
    }
}

/// The abstract state of a [`PathBuilder`]: its commands so far and the
/// pen state threaded between them.
#[verifier::ext_equal]
pub ghost struct BuilderModel {
    /// Commands emitted so far.
    pub commands: Seq<PathCommand>,
    /// The pen position.
    pub current: Point,
    /// Where `Close` draws back to; reset by every `MoveTo`.
    pub subpath_start: Point,
    /// Second control point of the last command, when that command was a
    /// cubic curve; what smooth cubic shorthand reflects.
    pub last_cubic_ctrl: Option<Point>,
    /// Control point of the last command, when that command was a
    /// quadratic curve; what smooth quadratic shorthand reflects.
    pub last_quad_ctrl: Option<Point>,
}

/// The state of a fresh builder: no commands, pen at the origin.
pub open spec fn builder_init() -> BuilderModel {
    BuilderModel {
        commands: Seq::empty(),
        current: Point { x: Fixed { raw: 0 }, y: Fixed { raw: 0 } },
        subpath_start: Point { x: Fixed { raw: 0 }, y: Fixed { raw: 0 } },
        last_cubic_ctrl: None,
        last_quad_ctrl: None,
    }
}

/// Effect of `move_to`: starts a new contour at `p`.
pub open spec fn model_move_to(m: BuilderModel, p: Point) -> BuilderModel {
    BuilderModel {
        commands: m.commands.push(PathCommand::MoveTo(p)),
        current: p,
        subpath_start: p,
        last_cubic_ctrl: None,
        last_quad_ctrl: None,
    }
}

/// Effect of `line_to`: a straight edge to `p`.
pub open spec fn model_line_to(m: BuilderModel, p: Point) -> BuilderModel {
    BuilderModel {
        commands: m.commands.push(PathCommand::LineTo(p)),
        current: p,
        subpath_start: m.subpath_start,
        last_cubic_ctrl: None,
        last_quad_ctrl: None,
    }
}

/// Effect of `quadratic_bezier_to`.
pub open spec fn model_quadratic_bezier_to(m: BuilderModel, ctrl: Point, to: Point) -> BuilderModel {
    BuilderModel {
        commands: m.commands.push(PathCommand::QuadraticBezierTo { ctrl, to }),
        current: to,
        subpath_start: m.subpath_start,
        last_cubic_ctrl: None,
        last_quad_ctrl: Some(ctrl),
    }
}

/// Effect of `cubic_bezier_to`.
pub open spec fn model_cubic_bezier_to(
    m: BuilderModel,
    ctrl1: Point,
    ctrl2: Point,
    to: Point,
) -> BuilderModel {
    BuilderModel {
        commands: m.commands.push(PathCommand::CubicBezierTo { ctrl1, ctrl2, to }),
        current: to,
        subpath_start: m.subpath_start,
        last_cubic_ctrl: Some(ctrl2),
        last_quad_ctrl: None,
    }
}

/// Effect of `arc_to`: appends the endpoint-parameterized arc verbatim and
/// moves the pen to its end point.
pub open spec fn model_arc_to(
    m: BuilderModel,
    radii: Vector,
    x_rotation: Fixed,
    large_arc: bool,
    sweep: bool,
    to: Point,
) -> BuilderModel {
    BuilderModel {
        commands: m.commands.push(
            PathCommand::ArcTo { radii, x_rotation, large_arc, sweep, to },
        ),
        current: to,
        subpath_start: m.subpath_start,
        last_cubic_ctrl: None,
        last_quad_ctrl: None,
    }
}

/// Effect of `arc`: appends the center-parameterized arc verbatim. The pen
/// position is left unchanged — the end point of such an arc is
/// transcendental in its parameters, so a caller that wants to continue
/// drawing from it starts a fresh contour with `move_to`.
pub open spec fn model_arc(
    m: BuilderModel,
    center: Point,
    radii: Vector,
    sweep_angle: Fixed,
    x_rotation: Fixed,
) -> BuilderModel {
    BuilderModel {
        commands: m.commands.push(PathCommand::Arc { center, radii, sweep_angle, x_rotation }),
        current: m.current,
        subpath_start: m.subpath_start,
        last_cubic_ctrl: None,
        last_quad_ctrl: None,
    }
}

/// Effect of `close`: appends `Close`. The pen position is *not* reset to
/// the subpath start; subsequent drawing continues from the position the
/// pen had before the close.
pub open spec fn model_close(m: BuilderModel) -> BuilderModel {
    BuilderModel {
        commands: m.commands.push(PathCommand::Close),
        current: m.current,
        subpath_start: m.subpath_start,
        last_cubic_ctrl: None,
        last_quad_ctrl: None,
    }
}

/// Effect of `concatenate`: splices prebuilt commands verbatim. The pen
/// state is not replayed; a caller that continues drawing relative to the
/// pen should `move_to` first.
pub open spec fn model_concat(m: BuilderModel, cmds: Seq<PathCommand>) -> BuilderModel {
    BuilderModel {
        commands: m.commands + cmds,
        current: m.current,
        subpath_start: m.subpath_start,
        last_cubic_ctrl: None,
        last_quad_ctrl: None,
    }
}

/// The reflection of `ctrl` across `cur`: the implied first control point
/// of a smooth curve, `2 * cur - ctrl` componentwise (saturating).
pub open spec fn spec_reflect(cur: Point, ctrl: Point) -> Point {
    cur.spec_translate(ctrl.spec_vector_to(cur))
}

/// The control point a smooth cubic curve starts with: the reflection of
/// the previous cubic's second control point, or the current position when
/// the previous command was not a cubic curve.
pub open spec fn spec_smooth_cubic_ctrl(m: BuilderModel) -> Point {
    match m.last_cubic_ctrl {
        Some(c) => spec_reflect(m.current, c),
        None => m.current,
    }
}

/// The control point a smooth quadratic curve uses, by the same rule over
/// the previous quadratic's control point.
pub open spec fn spec_smooth_quad_ctrl(m: BuilderModel) -> Point {
    match m.last_quad_ctrl {
        Some(c) => spec_reflect(m.current, c),
        None => m.current,
    }
}

/// Closing a contour does not move the pen: drawing after a `close`
/// continues from the position the pen had before it, not from the
/// subpath start — a caller wanting a fresh contour must `move_to`.
pub proof fn lemma_close_keeps_position(m: BuilderModel)
    ensures
        model_close(m).current == m.current,
        model_close(m).subpath_start == m.subpath_start,
{
}

/// A stateful accumulator of path commands with an SVG-style pen model.
pub struct PathBuilder {
    commands: Vec<PathCommand>,
    current: Point,
    subpath_start: Point,
    last_cubic_ctrl: Option<Point>,
    last_quad_ctrl: Option<Point>,
}

impl View for PathBuilder {
    type V = BuilderModel;

    closed spec fn view(&self) -> BuilderModel {
        BuilderModel {
            commands: self.commands@,
            current: self.current,
            subpath_start: self.subpath_start,
            last_cubic_ctrl: self.last_cubic_ctrl,
            last_quad_ctrl: self.last_quad_ctrl,
        }
    }
}

impl PathBuilder {
    /// A fresh builder with the pen at the origin.
    pub fn new() -> (r: PathBuilder)
        ensures
            r@ == builder_init(),
    {
        let r = PathBuilder {
            commands: Vec::new(),
            current: Point::zero(),
            subpath_start: Point::zero(),
            last_cubic_ctrl: None,
            last_quad_ctrl: None,
        };
        proof {
            assert(r@ =~= builder_init());
        }
        r
    }

    /// The pen position, which relative commands resolve against.
    pub fn current_position(&self) -> (r: Point)
        ensures
            r == self@.current,
    {
        self.current
    }

    /// Starts a new contour at `p`.
    pub fn move_to(&mut self, p: Point)
        ensures
            final(self)@ == model_move_to(old(self)@, p),
    {
        self.commands.push(PathCommand::MoveTo(p));
        self.current = p;
        self.subpath_start = p;
        self.last_cubic_ctrl = None;
        self.last_quad_ctrl = None;
        proof {
            assert(self@ =~= model_move_to(old(self)@, p));
        }
    }

    /// Starts a new contour displaced by `v` from the pen.
    pub fn relative_move_to(&mut self, v: Vector)
        ensures
            final(self)@ == model_move_to(old(self)@, old(self)@.current.spec_translate(v)),
    {
        let p = self.current.translate(v);
        self.move_to(p);
    }

    /// Appends a straight edge from the pen to `p`.
    pub fn line_to(&mut self, p: Point)
        ensures
            final(self)@ == model_line_to(old(self)@, p),
    {
        self.commands.push(PathCommand::LineTo(p));
        self.current = p;
        self.last_cubic_ctrl = None;
        self.last_quad_ctrl = None;
        proof {
            assert(self@ =~= model_line_to(old(self)@, p));
        }
    }

    /// Appends a straight edge displaced by `v` from the pen.
    pub fn relative_line_to(&mut self, v: Vector)
        ensures
            final(self)@ == model_line_to(old(self)@, old(self)@.current.spec_translate(v)),
    {
        let p = self.current.translate(v);
        self.line_to(p);
    }

    /// Appends a horizontal edge to the absolute coordinate `x`.
    pub fn horizontal_line_to(&mut self, x: Fixed)
        ensures
            final(self)@ == model_line_to(
                old(self)@,
                Point { x, y: old(self)@.current.y },
            ),
    {
        let p = Point::new(x, self.current.y);
        self.line_to(p);
    }

    /// Appends a horizontal edge displaced by `dx` from the pen.
    pub fn relative_horizontal_line_to(&mut self, dx: Fixed)
        ensures
            final(self)@ == model_line_to(
                old(self)@,
                old(self)@.current.spec_translate(Vector { x: dx, y: Fixed { raw: 0 } }),
            ),
    {
        let v = Vector::new(dx, Fixed::zero());
        self.relative_line_to(v);
    }

    /// Appends a vertical edge to the absolute coordinate `y`.
    pub fn vertical_line_to(&mut self, y: Fixed)
        ensures
            final(self)@ == model_line_to(
                old(self)@,
                Point { x: old(self)@.current.x, y },
            ),
    {
        let p = Point::new(self.current.x, y);
        self.line_to(p);
    }

    /// Appends a vertical edge displaced by `dy` from the pen.
    pub fn relative_vertical_line_to(&mut self, dy: Fixed)
        ensures
            final(self)@ == model_line_to(
                old(self)@,
                old(self)@.current.spec_translate(Vector { x: Fixed { raw: 0 }, y: dy }),
            ),
    {
        let v = Vector::new(Fixed::zero(), dy);
        self.relative_line_to(v);
    }

    /// Appends a quadratic Bézier curve.
    pub fn quadratic_bezier_to(&mut self, ctrl: Point, to: Point)
        ensures
            final(self)@ == model_quadratic_bezier_to(old(self)@, ctrl, to),
    {
        self.commands.push(PathCommand::QuadraticBezierTo { ctrl, to });
        self.current = to;
        self.last_cubic_ctrl = None;
        self.last_quad_ctrl = Some(ctrl);
        proof {
            assert(self@ =~= model_quadratic_bezier_to(old(self)@, ctrl, to));
        }
    }

    /// Appends a quadratic Bézier curve with both points displaced from
    /// the pen.
    pub fn relative_quadratic_bezier_to(&mut self, ctrl: Vector, to: Vector)
        ensures
            final(self)@ == model_quadratic_bezier_to(
                old(self)@,
                old(self)@.current.spec_translate(ctrl),
                old(self)@.current.spec_translate(to),
            ),
    {
        let c = self.current.translate(ctrl);
        let t = self.current.translate(to);
        self.quadratic_bezier_to(c, t);
    }

    /// Appends a smooth quadratic Bézier curve: the control point is the
    /// reflection of the previous quadratic's control point across the
    /// pen, or the pen itself after any other command.
    pub fn smooth_quadratic_bezier_to(&mut self, to: Point)
        ensures
            final(self)@ == model_quadratic_bezier_to(
                old(self)@,
                spec_smooth_quad_ctrl(old(self)@),
                to,
            ),
    {
        let ctrl = match self.last_quad_ctrl {
            Some(c) => {
                let refl = self.current.translate(c.vector_to(self.current));
                refl
            },
            None => self.current,
        };
        self.quadratic_bezier_to(ctrl, to);
    }

    /// The smooth quadratic curve with its end point displaced from the pen.
    pub fn smooth_relative_quadratic_bezier_to(&mut self, to: Vector)
        ensures
            final(self)@ == model_quadratic_bezier_to(
                old(self)@,
                spec_smooth_quad_ctrl(old(self)@),
                old(self)@.current.spec_translate(to),
            ),
    {
        let t = self.current.translate(to);
        self.smooth_quadratic_bezier_to(t);
    }

    /// Appends a cubic Bézier curve.
    pub fn cubic_bezier_to(&mut self, ctrl1: Point, ctrl2: Point, to: Point)
        ensures
            final(self)@ == model_cubic_bezier_to(old(self)@, ctrl1, ctrl2, to),
    {
        self.commands.push(PathCommand::CubicBezierTo { ctrl1, ctrl2, to });
        self.current = to;
        self.last_cubic_ctrl = Some(ctrl2);
        self.last_quad_ctrl = None;
        proof {
            assert(self@ =~= model_cubic_bezier_to(old(self)@, ctrl1, ctrl2, to));
        }
    }

    /// Appends a cubic Bézier curve with all three points displaced from
    /// the pen.
    pub fn relative_cubic_bezier_to(&mut self, ctrl1: Vector, ctrl2: Vector, to: Vector)
        ensures
            final(self)@ == model_cubic_bezier_to(
                old(self)@,
                old(self)@.current.spec_translate(ctrl1),
                old(self)@.current.spec_translate(ctrl2),
                old(self)@.current.spec_translate(to),
            ),
    {
        let c1 = self.current.translate(ctrl1);
        let c2 = self.current.translate(ctrl2);
        let t = self.current.translate(to);
        self.cubic_bezier_to(c1, c2, t);
    }

    /// Appends a smooth cubic Bézier curve: the first control point is the
    /// reflection of the previous cubic's second control point across the
    /// pen, or the pen itself after any other command.
    pub fn smooth_cubic_bezier_to(&mut self, ctrl2: Point, to: Point)
        ensures
            final(self)@ == model_cubic_bezier_to(
                old(self)@,
                spec_smooth_cubic_ctrl(old(self)@),
                ctrl2,
                to,
            ),
    {
        let ctrl1 = match self.last_cubic_ctrl {
            Some(c) => {
                let refl = self.current.translate(c.vector_to(self.current));
                refl
            },
            None => self.current,
        };
        self.cubic_bezier_to(ctrl1, ctrl2, to);
    }

    /// The smooth cubic curve with its given points displaced from the pen.
    pub fn smooth_relative_cubic_bezier_to(&mut self, ctrl2: Vector, to: Vector)
        ensures
            final(self)@ == model_cubic_bezier_to(
                old(self)@,
                spec_smooth_cubic_ctrl(old(self)@),
                old(self)@.current.spec_translate(ctrl2),
                old(self)@.current.spec_translate(to),
            ),
    {
        let c2 = self.current.translate(ctrl2);
        let t = self.current.translate(to);
        self.smooth_cubic_bezier_to(c2, t);
    }

    /// Appends an endpoint-parameterized elliptical arc ending at `to`.
    pub fn arc_to(&mut self, radii: Vector, x_rotation: Fixed, large_arc: bool, sweep: bool, to: Point)
        ensures
            final(self)@ == model_arc_to(old(self)@, radii, x_rotation, large_arc, sweep, to),
    {
        self.commands.push(PathCommand::ArcTo { radii, x_rotation, large_arc, sweep, to });
        self.current = to;
        self.last_cubic_ctrl = None;
        self.last_quad_ctrl = None;
        proof {
            assert(self@ =~= model_arc_to(old(self)@, radii, x_rotation, large_arc, sweep, to));
        }
    }

    /// The endpoint-parameterized arc with its end point displaced from
    /// the pen.
    pub fn relative_arc_to(
        &mut self,
        radii: Vector,
        x_rotation: Fixed,
        large_arc: bool,
        sweep: bool,
        to: Vector,
    )
        ensures
            final(self)@ == model_arc_to(
                old(self)@,
                radii,
                x_rotation,
                large_arc,
                sweep,
                old(self)@.current.spec_translate(to),
            ),
    {
        let t = self.current.translate(to);
        self.arc_to(radii, x_rotation, large_arc, sweep, t);
    }

    /// Appends a center-parameterized elliptical arc.
    pub fn arc(&mut self, center: Point, radii: Vector, sweep_angle: Fixed, x_rotation: Fixed)
        ensures
            final(self)@ == model_arc(old(self)@, center, radii, sweep_angle, x_rotation),
    {
        self.commands.push(PathCommand::Arc { center, radii, sweep_angle, x_rotation });
        self.last_cubic_ctrl = None;
        self.last_quad_ctrl = None;
        proof {
            assert(self@ =~= model_arc(old(self)@, center, radii, sweep_angle, x_rotation));
        }
    }

    /// Appends `Close`; the pen position is kept, see the module note.
    pub fn close(&mut self)
        ensures
            final(self)@ == model_close(old(self)@),
    {
        self.commands.push(PathCommand::Close);
        self.last_cubic_ctrl = None;
        self.last_quad_ctrl = None;
        proof {
            assert(self@ =~= model_close(old(self)@));
        }
    }

    /// Splices the commands of a prebuilt path verbatim.
    pub fn concatenate(&mut self, cmds: &Vec<PathCommand>)
        ensures
            final(self)@ == model_concat(old(self)@, cmds@),
    {
        let mut k: usize = 0;
        while k < cmds.len()
            invariant
                k <= cmds@.len(),
                self.commands@ == old(self).commands@ + cmds@.subrange(0, k as int),
                self.current == old(self).current,
                self.subpath_start == old(self).subpath_start,
            decreases cmds@.len() - k,
        {
            self.commands.push(cmds[k]);
            k = k + 1;
            proof {
                assert(self.commands@ == old(self).commands@ + cmds@.subrange(0, k as int));
            }
        }
        self.last_cubic_ctrl = None;
        self.last_quad_ctrl = None;
        proof {
            assert(cmds@.subrange(0, cmds@.len() as int) == cmds@);
            assert(self@ =~= model_concat(old(self)@, cmds@));
        }
    }

    /// Finalizes the accumulated commands into an immutable [`Path`],
    /// consuming the builder.
    pub fn build(self) -> (r: Path)
        ensures
            r@ == self@.commands,
    {
        Path { commands: self.commands }
    }
}

/// An SVG-like path described directly, command by command, through a
/// self-consuming chained API; it contributes its commands verbatim when
/// added to a builder.
#[derive(Clone, Debug, PartialEq)]
pub struct ShapePath {
    actions: Vec<PathCommand>,
}

impl View for ShapePath {
    type V = Seq<PathCommand>;

    closed spec fn view(&self) -> Seq<PathCommand> {
        self.actions@
    }
}

impl ShapePath {
    /// Creates a new, empty `ShapePath`.
    pub fn new() -> (r: ShapePath)
        ensures
            r@ == Seq::<PathCommand>::empty(),
    {
        let r = ShapePath { actions: Vec::new() };
        proof {
            assert(r@ =~= Seq::<PathCommand>::empty());
        }
        r
    }

    /// Moves the current point to the given position.
    pub fn move_to(self, to: Point) -> (r: ShapePath)
        ensures
            r@ == self@.push(PathCommand::MoveTo(to)),
    {
        let mut actions = self.actions;
        actions.push(PathCommand::MoveTo(to));
        ShapePath { actions }
    }

    /// Adds a line from the current position to the given one.
    pub fn line_to(self, to: Point) -> (r: ShapePath)
        ensures
            r@ == self@.push(PathCommand::LineTo(to)),
    {
        let mut actions = self.actions;
        actions.push(PathCommand::LineTo(to));
        ShapePath { actions }
    }

    /// Adds a quadratic Bézier curve.
    pub fn quadratic_bezier_to(self, ctrl: Point, to: Point) -> (r: ShapePath)
        ensures
            r@ == self@.push(PathCommand::QuadraticBezierTo { ctrl, to }),
    {
        let mut actions = self.actions;
        actions.push(PathCommand::QuadraticBezierTo { ctrl, to });
        ShapePath { actions }
    }

    /// Adds a cubic Bézier curve.
    pub fn cubic_bezier_to(self, ctrl1: Point, ctrl2: Point, to: Point) -> (r: ShapePath)
        ensures
            r@ == self@.push(PathCommand::CubicBezierTo { ctrl1, ctrl2, to }),
    {
        let mut actions = self.actions;
        actions.push(PathCommand::CubicBezierTo { ctrl1, ctrl2, to });
        ShapePath { actions }
    }

    /// Adds a center-parameterized elliptical arc.
    pub fn arc(self, center: Point, radii: Vector, sweep_angle: Fixed, x_rotation: Fixed) -> (r:
        ShapePath)
        ensures
            r@ == self@.push(PathCommand::Arc { center, radii, sweep_angle, x_rotation }),
    {
        let mut actions = self.actions;
        actions.push(PathCommand::Arc { center, radii, sweep_angle, x_rotation });
        ShapePath { actions }
    }

    /// Closes the shape: a line from the current position back to the
    /// start of the subpath.
    pub fn close(self) -> (r: ShapePath)
        ensures
            r@ == self@.push(PathCommand::Close),
    {
        let mut actions = self.actions;
        actions.push(PathCommand::Close);
        ShapePath { actions }
    }
}

/// The effect of replaying one already-resolved command on a builder.
pub open spec fn replay_step(m: BuilderModel, cmd: PathCommand) -> BuilderModel {
    match cmd {
        PathCommand::MoveTo(p) => model_move_to(m, p),
        PathCommand::LineTo(p) => model_line_to(m, p),
        PathCommand::QuadraticBezierTo { ctrl, to } => model_quadratic_bezier_to(m, ctrl, to),
        PathCommand::CubicBezierTo { ctrl1, ctrl2, to } => model_cubic_bezier_to(
            m,
            ctrl1,
            ctrl2,
            to,
        ),
        PathCommand::ArcTo { radii, x_rotation, large_arc, sweep, to } => model_arc_to(
            m,
            radii,
            x_rotation,
            large_arc,
            sweep,
            to,
        ),
        PathCommand::Arc { center, radii, sweep_angle, x_rotation } => model_arc(
            m,
            center,
            radii,
            sweep_angle,
            x_rotation,
        ),
        PathCommand::Close => model_close(m),
    }
}

/// Folds [`replay_step`] over the commands from index `k` on.
pub open spec fn replay_from(m: BuilderModel, cmds: Seq<PathCommand>, k: int) -> BuilderModel
    decreases cmds.len() - k,
{
    if k < 0 || k >= cmds.len() {
        m
    } else {
        replay_from(replay_step(m, cmds[k]), cmds, k + 1)
    }
}

/// Replaying commands appends exactly those commands.
pub proof fn lemma_replay_appends(m: BuilderModel, cmds: Seq<PathCommand>, k: int)
    requires
        0 <= k <= cmds.len(),
    ensures
        replay_from(m, cmds, k).commands == m.commands + cmds.skip(k),
    decreases cmds.len() - k,
{
    if k == cmds.len() {
        assert(m.commands + cmds.skip(k) =~= m.commands);
    } else {
        let m2 = replay_step(m, cmds[k]);
        assert(m2.commands == m.commands.push(cmds[k]));
        lemma_replay_appends(m2, cmds, k + 1);
        assert(m.commands.push(cmds[k]) + cmds.skip(k + 1) =~= m.commands + cmds.skip(k));
    }
}

/// Replays one already-resolved command into the builder.
fn match_action(action: PathCommand, b: &mut PathBuilder)
    ensures
        final(b)@ == replay_step(old(b)@, action),
{
    match action {
        PathCommand::MoveTo(p) => b.move_to(p),
        PathCommand::LineTo(p) => b.line_to(p),
        PathCommand::QuadraticBezierTo { ctrl, to } => b.quadratic_bezier_to(ctrl, to),
        PathCommand::CubicBezierTo { ctrl1, ctrl2, to } => b.cubic_bezier_to(ctrl1, ctrl2, to),
        PathCommand::ArcTo { radii, x_rotation, large_arc, sweep, to } => b.arc_to(
            radii,
            x_rotation,
            large_arc,
            sweep,
            to,
        ),
        PathCommand::Arc { center, radii, sweep_angle, x_rotation } => b.arc(
            center,
            radii,
            sweep_angle,
            x_rotation,
        ),
        PathCommand::Close => b.close(),
    }
}

impl Geometry for ShapePath {
    open spec fn wf(&self) -> bool {
        true
    }

    open spec fn spec_appended(&self) -> Seq<PathCommand> {
        self@
    }

    open spec fn spec_add(&self, m: BuilderModel) -> BuilderModel {
        replay_from(m, self@, 0)
    }

    proof fn appended_law(&self, m: BuilderModel) {
        lemma_replay_appends(m, self@, 0);
        assert(self@.skip(0) =~= self@);
    }

    fn add_geometry(&self, b: &mut PathBuilder) {
        let mut k: usize = 0;
        while k < self.actions.len()
            invariant
                k <= self@.len(),
                replay_from(b@, self@, k as int) == replay_from(old(b)@, self@, 0),
            decreases self@.len() - k,
        {
            match_action(self.actions[k], b);
            k = k + 1;
        }
    }
}

} // verus!
