//! Declarative 2D vector shapes, built into inspectable paths.
//!
//! The crate turns shape descriptors (rectangles, circles, polygons, SVG
//! path strings and more) into a single immutable [`path::Path`]: an ordered
//! list of move, line, curve, arc and close commands, ready to hand to a
//! tessellator. Coordinates use the saturating fixed-point scalar
//! [`fixed::Fixed`], so every construction step carries an exact contract.
//!
//! Start with [`geometry::ShapeBuilder`] to compose any number of shapes
//! into one [`entity::Shape`] carrying optional fill and stroke styling.

pub mod conversions;
pub mod draw;
pub mod entity;
pub mod fixed;
pub mod geometry;
pub mod path;
pub mod point;
pub mod shapes;
pub mod svg;
pub mod svg_parser;
pub mod trig;
