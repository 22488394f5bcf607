//! Conversions between the position and displacement datatypes.

use vstd::prelude::*;

use crate::point::{Point, Vector};

verus! {

/// A locally defined [`core::convert::Into`] surrogate, so that the
/// conversion carries an exact contract through [`Convert::convert_spec`].
pub trait Convert<T>: Sized {
    /// The value `convert` returns.
    spec fn convert_spec(self) -> T;

    /// Converts the value to `T`.
    fn convert(self) -> (r: T)
        ensures
            r == self.convert_spec(),
    ;
}

impl Convert<Vector> for Point {
    open spec fn convert_spec(self) -> Vector {
        Vector { x: self.x, y: self.y }
    }

    fn convert(self) -> (r: Vector) {
        Vector { x: self.x, y: self.y }
    }
}

impl Convert<Point> for Vector {
    open spec fn convert_spec(self) -> Point {
        Point { x: self.x, y: self.y }
    }

    fn convert(self) -> (r: Point) {
        Point { x: self.x, y: self.y }
    }
}

} // verus!
