//! Types for defining shapes.
//!
//! This module contains the central [`Geometry`] trait, plus the builders
//! that compose any number of shapes into one [`Shape`]. To build a shape,
//! start with [`ShapeBuilder`].

use vstd::prelude::*;

use crate::draw::{Fill, Stroke};
use crate::entity::Shape;
use crate::path::{builder_init, BuilderModel, PathBuilder, PathCommand};

verus! {

/// Interface for defining the geometry of a shape.
///
/// Types implementing this trait can be drawn as a shape: they know how to
/// append their own commands to a path under construction. The appended
/// commands do not depend on what the builder already holds, which is what
/// makes composition additive and order-preserving; [`Geometry::appended_law`]
/// records that fact once per implementation.
pub trait Geometry {
    /// The inputs on which the shape can add itself; `add_geometry` and
    /// the builders require it.
    spec fn wf(&self) -> bool;

    /// The commands this shape appends to any builder.
    spec fn spec_appended(&self) -> Seq<PathCommand>;

    /// The full effect of `add_geometry` on the builder state.
    spec fn spec_add(&self, m: BuilderModel) -> BuilderModel;

    /// Adding a shape appends exactly [`Geometry::spec_appended`], after
    /// everything the builder already held, leaving earlier commands
    /// untouched.
    proof fn appended_law(&self, m: BuilderModel)
        ensures
            self.spec_add(m).commands == m.commands + self.spec_appended(),
    ;

    /// Adds the geometry of the shape to the given builder.
    fn add_geometry(&self, b: &mut PathBuilder)
        requires
            self.wf(),
        ensures
            final(b)@ == self.spec_add(old(b)@),
    ;
}

/// Interface for functionality common to any [`Shape`] builder.
pub trait ShapeBuilderBase: Sized {
    /// The state of the wrapped path builder.
    spec fn base_model(&self) -> BuilderModel;

    /// The fill styling chosen so far.
    spec fn base_fill(&self) -> Option<Fill>;

    /// The stroke styling chosen so far.
    spec fn base_stroke(&self) -> Option<Stroke>;

    /// The stroke styling a call to `fill` leaves in place.
    spec fn fill_keeps_stroke(&self) -> Option<Stroke>;

    /// The fill styling a call to `stroke` leaves in place.
    spec fn stroke_keeps_fill(&self) -> Option<Fill>;

    /// Adds a [`Geometry`] to the builder.
    fn add<G: Geometry>(self, shape: &G) -> (r: Self)
        requires
            shape.wf(),
        ensures
            r.base_model() == shape.spec_add(self.base_model()),
            r.base_fill() == self.base_fill(),
            r.base_stroke() == self.base_stroke(),
    ;

    /// Sets the fill mode of the builder.
    fn fill(self, fill: Fill) -> (r: ReadyShapeBuilder)
        ensures
            r.model() == self.base_model(),
            r.fill_opt() == Some(fill),
            r.stroke_opt() == self.fill_keeps_stroke(),
    ;

    /// Sets the stroke mode of the builder.
    fn stroke(self, stroke: Stroke) -> (r: ReadyShapeBuilder)
        ensures
            r.model() == self.base_model(),
            r.stroke_opt() == Some(stroke),
            r.fill_opt() == self.stroke_keeps_fill(),
    ;
}

/// Provides methods for building a [`Shape`].
///
/// This struct won't build a `Shape` directly: [`ShapeBuilderBase::fill`]
/// or [`ShapeBuilderBase::stroke`] must be used first.
pub struct ShapeBuilder {
    builder: PathBuilder,
}

impl ShapeBuilderBase for ShapeBuilder {
    closed spec fn base_model(&self) -> BuilderModel {
        self.builder@
    }

    closed spec fn base_fill(&self) -> Option<Fill> {
        None
    }

    closed spec fn base_stroke(&self) -> Option<Stroke> {
        None
    }

    closed spec fn fill_keeps_stroke(&self) -> Option<Stroke> {
        None
    }

    closed spec fn stroke_keeps_fill(&self) -> Option<Fill> {
        None
    }

    fn add<G: Geometry>(self, shape: &G) -> (r: Self) {
        let mut builder = self.builder;
        shape.add_geometry(&mut builder);
        ShapeBuilder { builder }
    }

    fn fill(self, fill: Fill) -> (r: ReadyShapeBuilder) {
        ReadyShapeBuilder { builder: self.builder, fill: Some(fill), stroke: None }
    }

    fn stroke(self, stroke: Stroke) -> (r: ReadyShapeBuilder) {
        ReadyShapeBuilder { builder: self.builder, fill: None, stroke: Some(stroke) }
    }
}

impl ShapeBuilder {
    /// Constructs a new `ShapeBuilder` over a fresh path builder.
    pub fn new() -> (r: Self)
        ensures
            r.base_model() == builder_init(),
            r.base_fill() == None::<Fill>,
            r.base_stroke() == None::<Stroke>,
    {
        ShapeBuilder { builder: <PathBuilder as LyonPathBuilderExt>::new() }
    }

    /// Constructs a new `ShapeBuilder` with an initial [`Geometry`].
    pub fn with<G: Geometry>(geometry: &G) -> (r: Self)
        requires
            geometry.wf(),
        ensures
            r.base_model() == geometry.spec_add(builder_init()),
            r.base_fill() == None::<Fill>,
            r.base_stroke() == None::<Stroke>,
    {
        Self::new().add(geometry)
    }
}

/// Provides methods for building a [`Shape`].
///
/// This struct can only be obtained by using [`ShapeBuilder`].
pub struct ReadyShapeBuilder {
    pub(crate) builder: PathBuilder,
    pub(crate) fill: Option<Fill>,
    pub(crate) stroke: Option<Stroke>,
}

impl ReadyShapeBuilder {
    /// The state of the wrapped path builder.
    pub closed spec fn model(&self) -> BuilderModel {
        self.builder@
    }

    /// The fill styling chosen so far.
    pub closed spec fn fill_opt(&self) -> Option<Fill> {
        self.fill
    }

    /// The stroke styling chosen so far.
    pub closed spec fn stroke_opt(&self) -> Option<Stroke> {
        self.stroke
    }
}

impl ShapeBuilderBase for ReadyShapeBuilder {
    open spec fn base_model(&self) -> BuilderModel {
        self.model()
    }

    open spec fn base_fill(&self) -> Option<Fill> {
        self.fill_opt()
    }

    open spec fn base_stroke(&self) -> Option<Stroke> {
        self.stroke_opt()
    }

    open spec fn fill_keeps_stroke(&self) -> Option<Stroke> {
        self.stroke_opt()
    }

    open spec fn stroke_keeps_fill(&self) -> Option<Fill> {
        self.fill_opt()
    }

    fn add<G: Geometry>(self, shape: &G) -> (r: Self) {
        let mut builder = self.builder;
        shape.add_geometry(&mut builder);
        ReadyShapeBuilder { builder, fill: self.fill, stroke: self.stroke }
    }

    fn fill(self, fill: Fill) -> (r: ReadyShapeBuilder) {
        ReadyShapeBuilder { fill: Some(fill), ..self }
    }

    fn stroke(self, stroke: Stroke) -> (r: ReadyShapeBuilder) {
        ReadyShapeBuilder { stroke: Some(stroke), ..self }
    }
}

impl ReadyShapeBuilder {
    /// Builds a [`Shape`] according to builder settings, consuming the
    /// builder.
    pub fn build(self) -> (r: Shape)
        ensures
            r.path@ == self.model().commands,
            r.fill == self.fill_opt(),
            r.stroke == self.stroke_opt(),
    {
        Shape::new(self.builder.build(), self.fill, self.stroke)
    }
}

/// Groups analogous constructors of path builders under one interface.
pub trait LyonPathBuilderExt: Sized {
    /// The state of the builder.
    spec fn ext_model(&self) -> BuilderModel;

    /// Creates a new path builder.
    fn new() -> (r: Self)
        ensures
            r.ext_model() == builder_init(),
    ;
}

impl LyonPathBuilderExt for PathBuilder {
    open spec fn ext_model(&self) -> BuilderModel {
        self@
    }

    fn new() -> (r: Self) {
        PathBuilder::new()
    }
}

/// Composing two shapes is additive and order-preserving: the commands of
/// a builder after `add(a).add(b)` are the commands it already held,
/// followed by all of `a`'s commands, followed by all of `b`'s, each run
/// internally unmodified.
pub proof fn lemma_composition_additive<A: Geometry, B: Geometry>(
    m: BuilderModel,
    a: &A,
    b: &B,
)
    ensures
        b.spec_add(a.spec_add(m)).commands == m.commands + a.spec_appended() + b.spec_appended(),
{
    a.appended_law(m);
    b.appended_law(a.spec_add(m));
    assert(b.spec_add(a.spec_add(m)).commands =~= m.commands + a.spec_appended()
        + b.spec_appended());
}

/// Building is deterministic: two [`Shape`]s built from builders in equal
/// states — equal path-builder models and equal styling — are structurally
/// equal, command for command. There is no hidden state or randomness a
/// build could depend on.
pub proof fn lemma_build_deterministic(
    m1: BuilderModel,
    m2: BuilderModel,
    f1: Option<Fill>,
    f2: Option<Fill>,
    s1: Option<Stroke>,
    s2: Option<Stroke>,
    r1: Shape,
    r2: Shape,
)
    requires
        m1 == m2,
        f1 == f2,
        s1 == s2,
        r1.path@ == m1.commands && r1.fill == f1 && r1.stroke == s1,
        r2.path@ == m2.commands && r2.fill == f2 && r2.stroke == s2,
    ensures
        r1.path@ == r2.path@,
        r1.fill == r2.fill,
        r1.stroke == r2.stroke,
{
}

/// Descriptor-equal shapes contribute equal geometry: the effect of
/// `add_geometry` is a function of the descriptor's field values alone.
pub proof fn lemma_equal_descriptors_equal_commands<G: Geometry>(a: &G, b: &G, m: BuilderModel)
    requires
        a == b,
    ensures
        a.spec_add(m) == b.spec_add(m),
        a.spec_appended() == b.spec_appended(),
{
}

} // verus!
