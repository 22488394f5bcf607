//! The SVG path interpreter and the [`SvgPathShape`] descriptor.
//!
//! An easy way to display SVG paths as a shape: takes an SVG path string
//! and the document size in pixels. The interpreter re-centers absolute
//! coordinates on the middle of the document and flips the y-axis, since
//! SVG is y-down while this library's geometry is y-up: for a document of
//! size `(w, h)` an absolute source point `(x, y)` becomes
//! `(x - w/2, -y + h/2)`. Relative displacements are only y-flipped, never
//! offset. The parsed segments then drive a [`PathBuilder`] through its
//! absolute or relative methods, which also resolve the smooth-curve
//! shorthand; the interpreter keeps no shadow state of its own beyond the
//! one flag the first-moveto rule needs.
//!
//! By the SVG specification a relative moveto as the very first command is
//! treated as absolute: the interpreter tracks whether a moveto has been
//! used yet and promotes the first one.

use vstd::prelude::*;
use vstd::string::StringSliceAdditionalSpecFns;

use crate::fixed::{sat64, sat_add_spec, sat_sub_spec, trunc_div, Fixed};
use crate::geometry::Geometry;
use crate::path::{
    builder_init, model_arc_to, model_close, model_concat, model_cubic_bezier_to, model_line_to,
    model_move_to, model_quadratic_bezier_to, spec_smooth_cubic_ctrl, spec_smooth_quad_ctrl,
    BuilderModel, PathBuilder, PathCommand,
};
use crate::point::{Point, Vector};
use crate::svg_parser::{parse_segments, parse_segments_spec, PathSegment, SvgParseError};

verus! {

/// The y-up image of a source ordinate: its negation.
pub open spec fn spec_y_in_bevy_orientation(y: Fixed) -> Fixed {
    Fixed { raw: sat64(-(y.raw as int)) as i64 }
}

/// The y-up, re-centered image of an absolute source ordinate.
pub open spec fn spec_y_after_offset(y: Fixed, offset_y: Fixed) -> Fixed {
    Fixed { raw: sat_add_spec(sat64(-(y.raw as int)), offset_y.raw as int) as i64 }
}

/// The re-centered image of an absolute source abscissa.
pub open spec fn spec_x_after_offset(x: Fixed, offset_x: Fixed) -> Fixed {
    Fixed { raw: sat_sub_spec(x.raw as int, offset_x.raw as int) as i64 }
}

/// The re-centered, y-flipped image of an absolute source point.
pub open spec fn spec_point_after_offset(x: Fixed, y: Fixed, offset: Vector) -> Point {
    Point { x: spec_x_after_offset(x, offset.x), y: spec_y_after_offset(y, offset.y) }
}

/// The y-flipped image of a relative displacement; displacements are
/// origin-independent, so no offset applies.
pub open spec fn spec_corrected_relative_vector(x: Fixed, y: Fixed) -> Vector {
    Vector { x, y: spec_y_in_bevy_orientation(y) }
}

/// Half the document size: what absolute coordinates are re-centered by.
pub open spec fn spec_doc_offset(size: Vector) -> Vector {
    Vector {
        x: Fixed { raw: trunc_div(size.x.raw as int, 2) as i64 },
        y: Fixed { raw: trunc_div(size.y.raw as int, 2) as i64 },
    }
}

fn get_y_in_bevy_orientation(y: Fixed) -> (r: Fixed)
    ensures
        r == spec_y_in_bevy_orientation(y),
{
    y.negate()
}

fn get_y_after_offset(y: Fixed, offset_y: Fixed) -> (r: Fixed)
    ensures
        r == spec_y_after_offset(y, offset_y),
{
    get_y_in_bevy_orientation(y).plus(offset_y)
}

fn get_x_after_offset(x: Fixed, offset_x: Fixed) -> (r: Fixed)
    ensures
        r == spec_x_after_offset(x, offset_x),
{
    x.minus(offset_x)
}

fn get_point_after_offset(x: Fixed, y: Fixed, offset: Vector) -> (r: Point)
    ensures
        r == spec_point_after_offset(x, y, offset),
{
    Point::new(get_x_after_offset(x, offset.x), get_y_after_offset(y, offset.y))
}

fn get_corrected_relative_vector(x: Fixed, y: Fixed) -> (r: Vector)
    ensures
        r == spec_corrected_relative_vector(x, y),
{
    Vector::new(x, get_y_in_bevy_orientation(y))
}

/// The effect of one parsed segment on the builder and on the
/// has-a-moveto-been-used flag, mirroring the absolute/relative builder
/// calls the interpreter makes.
pub open spec fn svg_segment_step(
    m: BuilderModel,
    used_move: bool,
    seg: PathSegment,
    offset: Vector,
) -> (BuilderModel, bool) {
    match seg {
        PathSegment::MoveTo { abs, x, y } => {
            if abs || !used_move {
                (model_move_to(m, spec_point_after_offset(x, y, offset)), true)
            } else {
                (
                    model_move_to(
                        m,
                        m.current.spec_translate(spec_corrected_relative_vector(x, y)),
                    ),
                    used_move,
                )
            }
        },
        PathSegment::LineTo { abs, x, y } => {
            if abs {
                (model_line_to(m, spec_point_after_offset(x, y, offset)), used_move)
            } else {
                (
                    model_line_to(
                        m,
                        m.current.spec_translate(spec_corrected_relative_vector(x, y)),
                    ),
                    used_move,
                )
            }
        },
        PathSegment::HorizontalLineTo { abs, x } => {
            if abs {
                (
                    model_line_to(
                        m,
                        Point { x: spec_x_after_offset(x, offset.x), y: m.current.y },
                    ),
                    used_move,
                )
            } else {
                (
                    model_line_to(
                        m,
                        m.current.spec_translate(Vector { x, y: Fixed { raw: 0 } }),
                    ),
                    used_move,
                )
            }
        },
        PathSegment::VerticalLineTo { abs, y } => {
            if abs {
                (
                    model_line_to(
                        m,
                        Point { x: m.current.x, y: spec_y_after_offset(y, offset.y) },
                    ),
                    used_move,
                )
            } else {
                (
                    model_line_to(
                        m,
                        m.current.spec_translate(
                            Vector { x: Fixed { raw: 0 }, y: spec_y_in_bevy_orientation(y) },
                        ),
                    ),
                    used_move,
                )
            }
        },
        PathSegment::CurveTo { abs, x1, y1, x2, y2, x, y } => {
            if abs {
                (
                    model_cubic_bezier_to(
                        m,
                        spec_point_after_offset(x1, y1, offset),
                        spec_point_after_offset(x2, y2, offset),
                        spec_point_after_offset(x, y, offset),
                    ),
                    used_move,
                )
            } else {
                (
                    model_cubic_bezier_to(
                        m,
                        m.current.spec_translate(spec_corrected_relative_vector(x1, y1)),
                        m.current.spec_translate(spec_corrected_relative_vector(x2, y2)),
                        m.current.spec_translate(spec_corrected_relative_vector(x, y)),
                    ),
                    used_move,
                )
            }
        },
        PathSegment::SmoothCurveTo { abs, x2, y2, x, y } => {
            if abs {
                (
                    model_cubic_bezier_to(
                        m,
                        spec_smooth_cubic_ctrl(m),
                        spec_point_after_offset(x2, y2, offset),
                        spec_point_after_offset(x, y, offset),
                    ),
                    used_move,
                )
            } else {
                (
                    model_cubic_bezier_to(
                        m,
                        spec_smooth_cubic_ctrl(m),
                        m.current.spec_translate(spec_corrected_relative_vector(x2, y2)),
                        m.current.spec_translate(spec_corrected_relative_vector(x, y)),
                    ),
                    used_move,
                )
            }
        },
        PathSegment::Quadratic { abs, x1, y1, x, y } => {
            if abs {
                (
                    model_quadratic_bezier_to(
                        m,
                        spec_point_after_offset(x1, y1, offset),
                        spec_point_after_offset(x, y, offset),
                    ),
                    used_move,
                )
            } else {
                (
                    model_quadratic_bezier_to(
                        m,
                        m.current.spec_translate(spec_corrected_relative_vector(x1, y1)),
                        m.current.spec_translate(spec_corrected_relative_vector(x, y)),
                    ),
                    used_move,
                )
            }
        },
        PathSegment::SmoothQuadratic { abs, x, y } => {
            if abs {
                (
                    model_quadratic_bezier_to(
                        m,
                        spec_smooth_quad_ctrl(m),
                        spec_point_after_offset(x, y, offset),
                    ),
                    used_move,
                )
            } else {
                (
                    model_quadratic_bezier_to(
                        m,
                        spec_smooth_quad_ctrl(m),
                        m.current.spec_translate(spec_corrected_relative_vector(x, y)),
                    ),
                    used_move,
                )
            }
        },
        PathSegment::EllipticalArc { abs, rx, ry, x_axis_rotation, large_arc, sweep, x, y } => {
            if abs {
                (
                    model_arc_to(
                        m,
                        Vector { x: rx, y: ry },
                        x_axis_rotation,
                        large_arc,
                        sweep,
                        spec_point_after_offset(x, y, offset),
                    ),
                    used_move,
                )
            } else {
                (
                    model_arc_to(
                        m,
                        Vector { x: rx, y: ry },
                        x_axis_rotation,
                        large_arc,
                        sweep,
                        m.current.spec_translate(spec_corrected_relative_vector(x, y)),
                    ),
                    used_move,
                )
            }
        },
        PathSegment::ClosePath => (model_close(m), used_move),
    }
}

/// Folds the segments from index `k` on over the builder model.
pub open spec fn svg_interp_from(
    m: BuilderModel,
    used_move: bool,
    segs: Seq<PathSegment>,
    k: int,
    offset: Vector,
) -> BuilderModel
    decreases segs.len() - k,
{
    if k < 0 || k >= segs.len() {
        m
    } else {
        let r = svg_segment_step(m, used_move, segs[k], offset);
        svg_interp_from(r.0, r.1, segs, k + 1, offset)
    }
}

/// The commands an SVG path's segments produce for a document of the
/// given size, starting from a fresh builder.
pub open spec fn svg_path_commands(segs: Seq<PathSegment>, doc_size: Vector) -> Seq<PathCommand> {
    svg_interp_from(builder_init(), false, segs, 0, spec_doc_offset(doc_size)).commands
}

/// Drives a fresh builder through every segment; the result is exactly
/// the fold [`svg_interp_from`] describes.
fn interpret_segments(segs: &Vec<PathSegment>, offset: Vector) -> (b: PathBuilder)
    ensures
        b@ == svg_interp_from(builder_init(), false, segs@, 0, offset),
{
    let mut b = PathBuilder::new();
    let mut used_move: bool = false;
    let mut k: usize = 0;
    while k < segs.len()
        invariant
            k <= segs@.len(),
            svg_interp_from(b@, used_move, segs@, k as int, offset) == svg_interp_from(
                builder_init(),
                false,
                segs@,
                0,
                offset,
            ),
        decreases segs@.len() - k,
    {
        let seg = segs[k];
        match seg {
            PathSegment::MoveTo { abs, x, y } => {
                if abs || !used_move {
                    let p = get_point_after_offset(x, y, offset);
                    b.move_to(p);
                    used_move = true;
                } else {
                    let v = get_corrected_relative_vector(x, y);
                    b.relative_move_to(v);
                }
            },
            PathSegment::LineTo { abs, x, y } => {
                if abs {
                    let p = get_point_after_offset(x, y, offset);
                    b.line_to(p);
                } else {
                    let v = get_corrected_relative_vector(x, y);
                    b.relative_line_to(v);
                }
            },
            PathSegment::HorizontalLineTo { abs, x } => {
                if abs {
                    b.horizontal_line_to(get_x_after_offset(x, offset.x));
                } else {
                    b.relative_horizontal_line_to(x);
                }
            },
            PathSegment::VerticalLineTo { abs, y } => {
                if abs {
                    b.vertical_line_to(get_y_after_offset(y, offset.y));
                } else {
                    b.relative_vertical_line_to(get_y_in_bevy_orientation(y));
                }
            },
            PathSegment::CurveTo { abs, x1, y1, x2, y2, x, y } => {
                if abs {
                    let c1 = get_point_after_offset(x1, y1, offset);
                    let c2 = get_point_after_offset(x2, y2, offset);
                    let p = get_point_after_offset(x, y, offset);
                    b.cubic_bezier_to(c1, c2, p);
                } else {
                    let c1 = get_corrected_relative_vector(x1, y1);
                    let c2 = get_corrected_relative_vector(x2, y2);
                    let v = get_corrected_relative_vector(x, y);
                    b.relative_cubic_bezier_to(c1, c2, v);
                }
            },
            PathSegment::SmoothCurveTo { abs, x2, y2, x, y } => {
                if abs {
                    let c2 = get_point_after_offset(x2, y2, offset);
                    let p = get_point_after_offset(x, y, offset);
                    b.smooth_cubic_bezier_to(c2, p);
                } else {
                    let c2 = get_corrected_relative_vector(x2, y2);
                    let v = get_corrected_relative_vector(x, y);
                    b.smooth_relative_cubic_bezier_to(c2, v);
                }
            },
            PathSegment::Quadratic { abs, x1, y1, x, y } => {
                if abs {
                    let c = get_point_after_offset(x1, y1, offset);
                    let p = get_point_after_offset(x, y, offset);
                    b.quadratic_bezier_to(c, p);
                } else {
                    let c = get_corrected_relative_vector(x1, y1);
                    let v = get_corrected_relative_vector(x, y);
                    b.relative_quadratic_bezier_to(c, v);
                }
            },
            PathSegment::SmoothQuadratic { abs, x, y } => {
                if abs {
                    let p = get_point_after_offset(x, y, offset);
                    b.smooth_quadratic_bezier_to(p);
                } else {
                    let v = get_corrected_relative_vector(x, y);
                    b.smooth_relative_quadratic_bezier_to(v);
                }
            },
            PathSegment::EllipticalArc { abs, rx, ry, x_axis_rotation, large_arc, sweep, x, y } => {
                let radii = Vector::new(rx, ry);
                if abs {
                    let p = get_point_after_offset(x, y, offset);
                    b.arc_to(radii, x_axis_rotation, large_arc, sweep, p);
                } else {
                    let v = get_corrected_relative_vector(x, y);
                    b.relative_arc_to(radii, x_axis_rotation, large_arc, sweep, v);
                }
            },
            PathSegment::ClosePath => {
                b.close();
            },
        }
        k = k + 1;
    }
    b
}

/// An easy way to display SVG paths as a shape: an SVG path string and
/// the size of the SVG document, in pixels.
///
/// Make sure the units of the path are pixels and that the transform of
/// the `<g>` element of the document is `translate(0,0)`, so that nothing
/// offsets the coordinates of the path.
#[derive(Clone, Debug, PartialEq)]
pub struct SvgPathShape {
    /// The document size of the SVG art, in pixels.
    pub svg_doc_size_in_px: Vector,
    /// The string that describes the path.
    pub svg_path_string: String,
}

impl SvgPathShape {
    /// The bytes of the path string, which the grammar is defined over.
    pub open spec fn spec_path_bytes(&self) -> Seq<u8> {
        vstd::utf8::encode_utf8(self.svg_path_string@)
    }

    /// The commands this shape contributes: those of its parsed path,
    /// re-centered and y-flipped for its document size.
    pub open spec fn spec_commands(&self) -> Seq<PathCommand> {
        match parse_segments_spec(self.spec_path_bytes()) {
            Ok(segs) => svg_path_commands(segs, self.svg_doc_size_in_px),
            Err(_) => Seq::empty(),
        }
    }

    /// Adds the path's geometry to `b` if the path string parses,
    /// reporting the grammar's error — and leaving `b` untouched —
    /// if it does not.
    pub fn try_add_geometry(&self, b: &mut PathBuilder) -> (r: Result<(), SvgParseError>)
        ensures
            match r {
                Ok(()) => parse_segments_spec(self.spec_path_bytes()) is Ok && final(b)@
                    == model_concat(old(b)@, self.spec_commands()),
                Err(e) => parse_segments_spec(self.spec_path_bytes()) == Err::<
                    Seq<PathSegment>,
                    SvgParseError,
                >(e) && final(b)@ == old(b)@,
            },
    {
        let bytes = self.svg_path_string.as_str().as_bytes();
        match parse_segments(bytes) {
            Err(e) => Err(e),
            Ok(segs) => {
                let offset = Vector::new(
                    self.svg_doc_size_in_px.x.halved(),
                    self.svg_doc_size_in_px.y.halved(),
                );
                let sub = interpret_segments(&segs, offset);
                let sub_path = sub.build();
                b.concatenate(sub_path.commands());
                Ok(())
            },
        }
    }
}

impl Geometry for SvgPathShape {
    /// The path string must parse under the SVG path grammar.
    open spec fn wf(&self) -> bool {
        parse_segments_spec(self.spec_path_bytes()) is Ok
    }

    open spec fn spec_appended(&self) -> Seq<PathCommand> {
        self.spec_commands()
    }

    open spec fn spec_add(&self, m: BuilderModel) -> BuilderModel {
        model_concat(m, self.spec_commands())
    }

    proof fn appended_law(&self, m: BuilderModel) {
    }

    fn add_geometry(&self, b: &mut PathBuilder) {
        let r = self.try_add_geometry(b);
        proof {
            assert(r is Ok);
        }
    }
}

/// A relative moveto as the first command of a path is treated as
/// absolute: before any moveto has been used, a moveto segment has the
/// same effect whatever its addressing mode.
pub proof fn lemma_first_moveto_is_absolute(
    m: BuilderModel,
    abs: bool,
    x: Fixed,
    y: Fixed,
    offset: Vector,
)
    ensures
        svg_segment_step(m, false, PathSegment::MoveTo { abs, x, y }, offset) == svg_segment_step(
            m,
            false,
            PathSegment::MoveTo { abs: true, x, y },
            offset,
        ),
{
}

/// Parses an SVG path string into its segments: exactly the sequence that
/// [`parse_segments_spec`] assigns to the string's bytes, or the error it
/// assigns, with nothing accepted or rejected beyond the grammar.
pub fn parse_path(s: &str) -> (r: Result<Vec<PathSegment>, SvgParseError>)
    ensures
        (match r {
            Ok(v) => parse_segments_spec(s.spec_bytes()) == Ok::<
                Seq<PathSegment>,
                SvgParseError,
            >(v@),
            Err(e) => parse_segments_spec(s.spec_bytes()) == Err::<
                Seq<PathSegment>,
                SvgParseError,
            >(e),
        }),
{
    parse_segments(s.as_bytes())
}

} // verus!
