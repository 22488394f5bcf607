//! Types for defining shape color and tessellation options.
//!
//! Options mirror what a tessellator consumes; they are carried through
//! unchanged by this crate, never interpreted. Colors are 8-bit sRGBA.

use vstd::prelude::*;

use crate::fixed::Fixed;

verus! {

/// An 8-bit sRGBA color.
#[derive(Clone, Copy, Debug, PartialEq, Eq, Structural, Hash)]
pub struct Color {
    /// Red channel.
    pub red: u8,
    /// Green channel.
    pub green: u8,
    /// Blue channel.
    pub blue: u8,
    /// Alpha channel; `255` is opaque.
    pub alpha: u8,
}

impl Color {
    /// The color of the given channels.
    pub fn rgba(red: u8, green: u8, blue: u8, alpha: u8) -> (r: Color)
        ensures
            r.red == red && r.green == green && r.blue == blue && r.alpha == alpha,
    {
        Color { red, green, blue, alpha }
    }

    /// Opaque white.
    pub fn white() -> (r: Color)
        ensures
            r == (Color { red: 255, green: 255, blue: 255, alpha: 255 }),
    {
        Color { red: 255, green: 255, blue: 255, alpha: 255 }
    }

    /// Opaque black.
    pub fn black() -> (r: Color)
        ensures
            r == (Color { red: 0, green: 0, blue: 0, alpha: 255 }),
    {
        Color { red: 0, green: 0, blue: 0, alpha: 255 }
    }
}

/// The rule deciding which regions a fill covers; passed through to the
/// tessellator.
#[derive(Clone, Copy, Debug, PartialEq, Eq, Structural, Hash)]
pub enum FillRule {
    /// A point is inside when its winding number is non-zero.
    NonZero,
    /// A point is inside when a ray from it crosses an odd number of edges.
    EvenOdd,
}

/// The default flattening tolerance of fill and stroke options: `0.1`.
pub open spec fn spec_default_tolerance() -> Fixed {
    Fixed { raw: 10_000 }
}

/// Fill options for a tessellator, opaque to this crate.
#[derive(Clone, Copy, Debug, PartialEq, Eq, Structural, Hash)]
pub struct FillOptions {
    /// Maximum allowed distance between a curve and its flattening.
    pub tolerance: Fixed,
    /// Which regions count as inside.
    pub fill_rule: FillRule,
}

impl Default for FillOptions {
    /// Tolerance `0.1` and the non-zero fill rule.
    fn default() -> (r: Self)
        ensures
            r.tolerance == spec_default_tolerance() && r.fill_rule == FillRule::NonZero,
    {
        FillOptions { tolerance: Fixed { raw: 10_000 }, fill_rule: FillRule::NonZero }
    }
}

/// The shape of a stroke's endpoints.
#[derive(Clone, Copy, Debug, PartialEq, Eq, Structural, Hash)]
pub enum LineCap {
    /// The stroke stops exactly at the endpoint.
    Butt,
    /// A half square protrudes past the endpoint.
    Square,
    /// A half disc protrudes past the endpoint.
    Round,
}

/// The shape of a stroke's corners.
#[derive(Clone, Copy, Debug, PartialEq, Eq, Structural, Hash)]
pub enum LineJoin {
    /// Corners keep a sharp point, up to the miter limit.
    Miter,
    /// Like `Miter`, clipped at the miter limit.
    MiterClip,
    /// Corners are rounded.
    Round,
    /// Corners are cut flat.
    Bevel,
}

/// Stroke options for a tessellator, opaque to this crate.
#[derive(Clone, Copy, Debug, PartialEq, Eq, Structural, Hash)]
pub struct StrokeOptions {
    /// Cap at the start of each open contour.
    pub start_cap: LineCap,
    /// Cap at the end of each open contour.
    pub end_cap: LineCap,
    /// Corner shape.
    pub line_join: LineJoin,
    /// Width of the stroked band.
    pub line_width: Fixed,
    /// Bound on the length of miter corners, in stroke widths.
    pub miter_limit: Fixed,
    /// Maximum allowed distance between a curve and its flattening.
    pub tolerance: Fixed,
}

/// The stroke options `default` returns: butt caps, miter joins, width
/// `1.0`, miter limit `4.0`, tolerance `0.1`.
pub open spec fn spec_default_stroke_options() -> StrokeOptions {
    StrokeOptions {
        start_cap: LineCap::Butt,
        end_cap: LineCap::Butt,
        line_join: LineJoin::Miter,
        line_width: Fixed { raw: 100_000 },
        miter_limit: Fixed { raw: 400_000 },
        tolerance: Fixed { raw: 10_000 },
    }
}

impl Default for StrokeOptions {
    fn default() -> (r: Self)
        ensures
            r == spec_default_stroke_options(),
    {
        StrokeOptions {
            start_cap: LineCap::Butt,
            end_cap: LineCap::Butt,
            line_join: LineJoin::Miter,
            line_width: Fixed { raw: 100_000 },
            miter_limit: Fixed { raw: 400_000 },
            tolerance: Fixed { raw: 10_000 },
        }
    }
}

impl StrokeOptions {
    /// The same options with the given line width.
    pub fn with_line_width(self, line_width: Fixed) -> (r: StrokeOptions)
        ensures
            r == (StrokeOptions { line_width, ..self }),
    {
        StrokeOptions { line_width, ..self }
    }
}

/// Fill styling of a shape: tessellation options and the vertex color.
#[derive(Clone, Copy, Debug, PartialEq, Eq, Structural, Hash)]
pub struct Fill {
    /// Options handed to the fill tessellator.
    pub options: FillOptions,
    /// Color given to the generated vertices.
    pub color: Color,
}

impl Fill {
    /// Convenience constructor requiring only the color; options are the
    /// defaults.
    pub fn color(color: Color) -> (r: Self)
        ensures
            r.color == color,
            r.options.tolerance == spec_default_tolerance(),
            r.options.fill_rule == FillRule::NonZero,
    {
        Fill { options: FillOptions::default(), color }
    }
}

impl Default for Fill {
    /// Default fill options and opaque white.
    fn default() -> (r: Self)
        ensures
            r.color == (Color { red: 255, green: 255, blue: 255, alpha: 255 }),
            r.options.tolerance == spec_default_tolerance(),
            r.options.fill_rule == FillRule::NonZero,
    {
        Fill { options: FillOptions::default(), color: Color::white() }
    }
}

/// Stroke styling of a shape: tessellation options and the vertex color.
#[derive(Clone, Copy, Debug, PartialEq, Eq, Structural, Hash)]
pub struct Stroke {
    /// Options handed to the stroke tessellator.
    pub options: StrokeOptions,
    /// Color given to the generated vertices.
    pub color: Color,
}

impl Stroke {
    /// Constructor that requires a color and a line width.
    pub fn new(color: Color, line_width: Fixed) -> (r: Self)
        ensures
            r.color == color,
            r.options == (StrokeOptions { line_width, ..spec_default_stroke_options() }),
    {
        Stroke { options: StrokeOptions::default().with_line_width(line_width), color }
    }

    /// Convenience constructor requiring only the color; options are the
    /// defaults.
    pub fn color(color: Color) -> (r: Self)
        ensures
            r.color == color,
            r.options == spec_default_stroke_options(),
    {
        Stroke { options: StrokeOptions::default(), color }
    }
}

impl Default for Stroke {
    /// Default stroke options and opaque black.
    fn default() -> (r: Self)
        ensures
            r.color == (Color { red: 0, green: 0, blue: 0, alpha: 255 }),
            r.options == spec_default_stroke_options(),
    {
        Stroke { options: StrokeOptions::default(), color: Color::black() }
    }
}

} // verus!
