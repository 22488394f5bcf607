//! Positions and displacements on the 2D plane.
//!
//! A [`Point`] is an absolute position, a [`Vector`] a displacement;
//! adding a `Vector` to a `Point` yields a `Point`. Both are pairs of
//! [`Fixed`] coordinates in the y-up orientation of the geometry layer.

use vstd::prelude::*;

use crate::fixed::{sat_add_spec, sat_sub_spec, Fixed};

verus! {

/// An absolute position.
#[derive(Clone, Copy, Debug, PartialEq, Eq, Structural, Hash)]
pub struct Point {
    /// Horizontal coordinate.
    pub x: Fixed,
    /// Vertical coordinate, growing upward.
    pub y: Fixed,
}

/// A displacement between positions.
#[derive(Clone, Copy, Debug, PartialEq, Eq, Structural, Hash)]
pub struct Vector {
    /// Horizontal component.
    pub x: Fixed,
    /// Vertical component, growing upward.
    pub y: Fixed,
}

impl Point {
    /// The position of the given coordinates.
    pub fn new(x: Fixed, y: Fixed) -> (r: Point)
        ensures
            r.x == x && r.y == y,
    {
        Point { x, y }
    }

    /// The origin.
    pub fn zero() -> (r: Point)
        ensures
            r.x.raw == 0 && r.y.raw == 0,
    {
        Point { x: Fixed { raw: 0 }, y: Fixed { raw: 0 } }
    }

    /// The position reached from `self` by the displacement `v`,
    /// componentwise saturating addition.
    pub open spec fn spec_translate(self, v: Vector) -> Point {
        Point {
            x: Fixed { raw: sat_add_spec(self.x.raw as int, v.x.raw as int) as i64 },
            y: Fixed { raw: sat_add_spec(self.y.raw as int, v.y.raw as int) as i64 },
        }
    }

    /// Moves `self` by the displacement `v`.
    pub fn translate(self, v: Vector) -> (r: Point)
        ensures
            r == self.spec_translate(v),
    {
        Point { x: self.x.plus(v.x), y: self.y.plus(v.y) }
    }

    /// The displacement carrying `self` onto `o`, componentwise
    /// saturating subtraction `o - self`.
    pub open spec fn spec_vector_to(self, o: Point) -> Vector {
        Vector {
            x: Fixed { raw: sat_sub_spec(o.x.raw as int, self.x.raw as int) as i64 },
            y: Fixed { raw: sat_sub_spec(o.y.raw as int, self.y.raw as int) as i64 },
        }
    }

    /// Computes the displacement carrying `self` onto `o`.
    pub fn vector_to(self, o: Point) -> (r: Vector)
        ensures
            r == self.spec_vector_to(o),
    {
        Vector { x: o.x.minus(self.x), y: o.y.minus(self.y) }
    }
}

impl Vector {
    /// The displacement of the given components.
    pub fn new(x: Fixed, y: Fixed) -> (r: Vector)
        ensures
            r.x == x && r.y == y,
    {
        Vector { x, y }
    }

    /// The null displacement.
    pub fn zero() -> (r: Vector)
        ensures
            r.x.raw == 0 && r.y.raw == 0,
    {
        Vector { x: Fixed { raw: 0 }, y: Fixed { raw: 0 } }
    }
}

} // verus!
