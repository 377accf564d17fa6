//! Paint resolution: turning an abstract paint description, an opacity and
//! an object bounding box into a renderable paint, or deciding that no
//! paint applies (an empty gradient, a degenerate pattern tile, an
//! object-units paint without a usable bounding box).

use vstd::prelude::*;
use std::rc::Rc;
use crate::geom::{rc_clone, Rect};
use crate::style::{Color, Gradient, Opacity, PaintSource, Pattern, Units};

verus! {

/// A ready-to-use shading function: a solid color, or a gradient handed to
/// the rasterizer as described.
#[derive(Clone, PartialEq, Debug)]
pub enum Shader {
    Solid { color: Color, opacity: Opacity },
    Gradient { gradient: Rc<Gradient>, opacity: Opacity },
}

/// A pattern paint awaiting tile rendering: the tile description plus the
/// opacity the tile is composited with.
#[derive(Clone, Copy, PartialEq, Eq, Structural, Debug)]
pub struct PatternPaint {
    pub pattern: Pattern,
    pub opacity: Opacity,
}

/// A resolved paint: either a shading function that can be used as it is,
/// or a pattern whose tile must still be rendered.
#[derive(Clone, PartialEq, Debug)]
pub enum Paint {
    Shader(Shader),
    Pattern(PatternPaint),
}

impl Paint {
    pub open spec fn wf(self) -> bool {
        match self {
            Paint::Shader(s) => match s {
                Shader::Solid { opacity, .. } => opacity.wf(),
                Shader::Gradient { gradient, opacity } => gradient.wf() && opacity.wf(),
            },
            Paint::Pattern(p) => p.pattern.wf() && p.opacity.wf(),
        }
    }
}

/// What resolution yields, for every description, opacity and bounding
/// box:
/// - a solid color always resolves;
/// - a gradient without stops never resolves; one with a single stop
///   collapses to a solid color of that stop, with the opacities
///   multiplied; any other gradient resolves to a gradient shader;
/// - a pattern with a degenerate tile rectangle never resolves;
/// - a paint expressed in object bounding-box units does not resolve when
///   no usable (non-degenerate) bounding box exists.
pub open spec fn resolve_spec(p: PaintSource, opacity: Opacity, object_bbox: Option<Rect>) -> Option<
    Paint,
> {
    match p {
        PaintSource::Color(c) => Some(Paint::Shader(Shader::Solid { color: c, opacity })),
        PaintSource::Gradient(g) => if g.stops@.len() == 0 {
            None
        } else if g.units is ObjectBoundingBox && object_bbox is None {
            None
        } else if g.stops@.len() == 1 {
            Some(
                Paint::Shader(
                    Shader::Solid {
                        color: g.stops@[0].color,
                        opacity: opacity.spec_times(g.stops@[0].opacity),
                    },
                ),
            )
        } else {
            Some(Paint::Shader(Shader::Gradient { gradient: g, opacity }))
        },
        PaintSource::Pattern(pat) => if pat.units is ObjectBoundingBox && object_bbox is None {
            None
        } else if pat.rect.is_degenerate() {
            None
        } else {
            Some(Paint::Pattern(PatternPaint { pattern: pat, opacity }))
        },
    }
}

/// Resolves a paint description against an opacity and the object's
/// non-degenerate bounding box, if one exists.
pub fn resolve(paint: &PaintSource, opacity: Opacity, object_bbox: Option<Rect>) -> (r: Option<
    Paint,
>)
    requires
        paint.wf(),
        opacity.wf(),
    ensures
        r == resolve_spec(*paint, opacity, object_bbox),
        r matches Some(p) ==> p.wf(),
{
    match paint {
        PaintSource::Color(c) => Some(Paint::Shader(Shader::Solid { color: *c, opacity })),
        PaintSource::Gradient(g) => {
            if g.stops.len() == 0 {
                None
            } else if matches!(g.units, Units::ObjectBoundingBox) && object_bbox.is_none() {
                None
            } else if g.stops.len() == 1 {
                let stop = g.stops[0];
                Some(
                    Paint::Shader(
                        Shader::Solid { color: stop.color, opacity: opacity.times(&stop.opacity) },
                    ),
                )
            } else {
                Some(Paint::Shader(Shader::Gradient { gradient: rc_clone(g), opacity }))
            }
        },
        PaintSource::Pattern(pat) => {
            if matches!(pat.units, Units::ObjectBoundingBox) && object_bbox.is_none() {
                None
            } else if pat.rect.degenerate() {
                None
            } else {
                Some(Paint::Pattern(PatternPaint { pattern: *pat, opacity }))
            }
        },
    }
}

} // verus!
