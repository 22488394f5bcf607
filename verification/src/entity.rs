//! The finished shape record: a path plus optional styling.

use vstd::prelude::*;

use crate::draw::{Fill, Stroke};
use crate::geometry::Geometry;
use crate::path::{model_concat, BuilderModel, Path, PathBuilder, PathCommand};

verus! {

/// A geometric shape, ready for tessellation: an immutable [`Path`] with
/// the fill and stroke styling chosen at build time.
///
/// A `Shape` is produced once by
/// [`ReadyShapeBuilder::build`](crate::geometry::ReadyShapeBuilder::build)
/// and replaced wholesale — never mutated in place — when its source
/// descriptors change. A shape with neither fill nor stroke is legal and
/// simply renders as nothing.
#[derive(Clone, Debug, PartialEq)]
pub struct Shape {
    /// Geometry of the shape.
    pub path: Path,
    /// Fill styling, when the shape is filled.
    pub fill: Option<Fill>,
    /// Stroke styling, when the shape is outlined.
    pub stroke: Option<Stroke>,
}

impl Shape {
    pub(crate) fn new(path: Path, fill: Option<Fill>, stroke: Option<Stroke>) -> (r: Shape)
        ensures
            r.path == path && r.fill == fill && r.stroke == stroke,
    {
        Shape { path, fill, stroke }
    }

    /// The reference to the path of the shape.
    pub fn path_ref(&self) -> (r: &Path)
        ensures
            r == self.path,
    {
        &self.path
    }

    /// The fill options of the shape.
    pub fn fill(&self) -> (r: Option<Fill>)
        ensures
            r == self.fill,
    {
        self.fill
    }

    /// The stroke options of the shape.
    pub fn stroke(&self) -> (r: Option<Stroke>)
        ensures
            r == self.stroke,
    {
        self.stroke
    }
}

impl Geometry for Shape {
    open spec fn wf(&self) -> bool {
        true
    }

    open spec fn spec_appended(&self) -> Seq<PathCommand> {
        self.path@
    }

    open spec fn spec_add(&self, m: BuilderModel) -> BuilderModel {
        model_concat(m, self.path@)
    }

    proof fn appended_law(&self, m: BuilderModel) {
    }

    fn add_geometry(&self, b: &mut PathBuilder) {
        b.concatenate(self.path.commands());
    }
}

} // verus!
