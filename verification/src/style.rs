//! The resolved style a path node carries: visibility, paint order,
//! rendering quality, fill and stroke specifications, and the paint
//! descriptions they reference.

use vstd::prelude::*;
use std::rc::Rc;
use crate::geom::{Point, Rect, Transform, COORD_LIMIT};

verus! {

#[derive(Clone, Copy, PartialEq, Eq, Structural, Debug)]
pub enum Visibility {
    Visible,
    Hidden,
    Collapse,
}

/// Relative ordering of a node's fill and stroke operations.
#[derive(Clone, Copy, PartialEq, Eq, Structural, Debug)]
pub enum PaintOrder {
    FillAndStroke,
    StrokeAndFill,
}

/// The node's declared rendering-quality mode.
#[derive(Clone, Copy, PartialEq, Eq, Structural, Debug)]
pub enum ShapeRendering {
    OptimizeSpeed,
    CrispEdges,
    GeometricPrecision,
}

impl ShapeRendering {
    pub open spec fn spec_use_shape_antialiasing(self) -> bool {
        self is GeometricPrecision
    }

    /// Only geometric-precision rendering antialiases shape edges.
    pub fn use_shape_antialiasing(&self) -> (r: bool)
        ensures
            r == self.spec_use_shape_antialiasing(),
    {
        match self {
            ShapeRendering::OptimizeSpeed => false,
            ShapeRendering::CrispEdges => false,
            ShapeRendering::GeometricPrecision => true,
        }
    }
}

/// Policy for deciding which enclosed regions a fill covers.
#[derive(Clone, Copy, PartialEq, Eq, Structural, Debug)]
pub enum FillRule {
    NonZero,
    EvenOdd,
}

#[derive(Clone, Copy, PartialEq, Eq, Structural, Debug)]
pub enum LineCap {
    Butt,
    Round,
    Square,
}

#[derive(Clone, Copy, PartialEq, Eq, Structural, Debug)]
pub enum LineJoin {
    Miter,
    MiterClip,
    Round,
    Bevel,
}

/// Full opacity in per-mille units.
pub const OPACITY_ONE: u16 = 1000;

/// An opacity in per-mille units, between 0 and `OPACITY_ONE`.
#[derive(Clone, Copy, PartialEq, Eq, Structural, Debug)]
pub struct Opacity {
    pub value: u16,
}

impl Opacity {
    pub open spec fn wf(self) -> bool {
        self.value <= OPACITY_ONE
    }

    pub fn full() -> (r: Opacity)
        ensures
            r == (Opacity { value: OPACITY_ONE }),
    {
        Opacity { value: OPACITY_ONE }
    }

    pub open spec fn spec_times(self, o: Opacity) -> Opacity {
        (Opacity { value: ((self.value * o.value) / (OPACITY_ONE as int)) as u16 })
    }

    /// Multiplies two opacities in per-mille arithmetic.
    pub fn times(&self, o: &Opacity) -> (r: Opacity)
        requires
            self.wf(),
            o.wf(),
        ensures
            r == self.spec_times(*o),
            r.wf(),
    {
        proof {
            assert(self.value * o.value <= 1000 * 1000) by (nonlinear_arith)
                requires
                    self.value <= 1000,
                    o.value <= 1000,
            ;
        }
        let prod: u32 = (self.value as u32) * (o.value as u32);
        let r: u32 = prod / (OPACITY_ONE as u32);
        proof {
            assert(prod / 1000 <= 1000);
        }
        Opacity { value: r as u16 }
    }
}

#[derive(Clone, Copy, PartialEq, Eq, Structural, Debug)]
pub struct Color {
    pub red: u8,
    pub green: u8,
    pub blue: u8,
}

/// Coordinate system a paint server's geometry is expressed in.
#[derive(Clone, Copy, PartialEq, Eq, Structural, Debug)]
pub enum Units {
    UserSpaceOnUse,
    ObjectBoundingBox,
}

/// One color stop of a gradient. Offsets are per-mille of the gradient axis.
#[derive(Clone, Copy, PartialEq, Eq, Structural, Debug)]
pub struct GradientStop {
    pub offset: u16,
    pub color: Color,
    pub opacity: Opacity,
}

impl GradientStop {
    pub open spec fn wf(self) -> bool {
        self.offset <= OPACITY_ONE && self.opacity.wf()
    }
}

/// A linear gradient paint description. Color interpolation itself is the
/// rasterizer's concern; this core only carries the description through.
#[derive(Clone, PartialEq, Debug)]
pub struct Gradient {
    pub start: Point,
    pub end: Point,
    pub units: Units,
    pub transform: Transform,
    pub stops: Vec<GradientStop>,
}

impl Gradient {
    pub open spec fn wf(self) -> bool {
        forall|i: int| 0 <= i < self.stops@.len() ==> (#[trigger] self.stops@[i]).wf()
    }
}

/// A pattern paint description: the tile rectangle, its placement, and a
/// handle naming the sub-scene that fills the tile. The sub-scene itself
/// is rendered by the surrounding pipeline, not by this core.
#[derive(Clone, Copy, PartialEq, Eq, Structural, Debug)]
pub struct Pattern {
    pub rect: Rect,
    pub units: Units,
    pub transform: Transform,
    pub content: u64,
}

impl Pattern {
    pub open spec fn wf(self) -> bool {
        self.rect.wf()
    }
}

/// An abstract paint description, before resolution.
#[derive(Clone, PartialEq, Debug)]
pub enum PaintSource {
    Color(Color),
    Gradient(Rc<Gradient>),
    Pattern(Pattern),
}

impl PaintSource {
    pub open spec fn wf(self) -> bool {
        match self {
            PaintSource::Color(_) => true,
            PaintSource::Gradient(g) => g.wf(),
            PaintSource::Pattern(p) => p.wf(),
        }
    }
}

/// A node's fill specification.
#[derive(Clone, PartialEq, Debug)]
pub struct Fill {
    pub paint: PaintSource,
    pub opacity: Opacity,
    pub rule: FillRule,
}

impl Fill {
    pub open spec fn wf(self) -> bool {
        self.paint.wf() && self.opacity.wf()
    }
}

/// Largest number of dash entries a stroke may carry.
pub const MAX_DASHES: usize = 4096;

/// A node's stroke specification.
#[derive(Clone, PartialEq, Debug)]
pub struct Stroke {
    pub paint: PaintSource,
    pub dasharray: Option<Rc<Vec<i64>>>,
    pub dashoffset: i64,
    pub miterlimit: i64,
    pub opacity: Opacity,
    pub width: i64,
    pub linecap: LineCap,
    pub linejoin: LineJoin,
}

impl Stroke {
    pub open spec fn wf(self) -> bool {
        &&& self.paint.wf()
        &&& self.opacity.wf()
        &&& 0 < self.width <= COORD_LIMIT
        &&& 1 <= self.miterlimit <= COORD_LIMIT
        &&& -COORD_LIMIT <= self.dashoffset <= COORD_LIMIT
        &&& match self.dasharray {
            Some(a) => a@.len() <= MAX_DASHES && forall|i: int|
                0 <= i < a@.len() ==> -COORD_LIMIT <= #[trigger] a@[i] <= COORD_LIMIT,
            None => true,
        }
    }
}

} // verus!
