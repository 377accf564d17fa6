//! The draw-op builder: turns a resolved path node into zero or more draw
//! operations and a layer bounding box, honoring degenerate-geometry,
//! visibility and paint-order policy.

use vstd::prelude::*;
use std::rc::Rc;
use crate::geom::{rc_clone, BBox, PathGeometry, Rect};
use crate::paint::{resolve, resolve_spec, Paint};
use crate::raster;
use crate::style::{
    Fill, FillRule, PaintOrder, ShapeRendering, Stroke, Visibility,
};

verus! {

/// A resolved path node, as the surrounding tree-rendering pipeline hands
/// it over: shared geometry, optional fill and stroke specifications, and
/// the object and stroke bounding boxes a prior pass computed.
#[derive(Clone, PartialEq, Debug)]
pub struct Path {
    pub data: Rc<PathGeometry>,
    pub visibility: Visibility,
    pub fill: Option<Fill>,
    pub stroke: Option<Stroke>,
    pub paint_order: PaintOrder,
    pub rendering_mode: ShapeRendering,
    pub bounding_box: Option<Rect>,
    pub stroke_bounding_box: Option<Rect>,
}

impl Path {
    pub open spec fn wf(self) -> bool {
        &&& self.data.wf()
        &&& match self.fill {
            Some(f) => f.wf(),
            None => true,
        }
        &&& match self.stroke {
            Some(s) => s.wf(),
            None => true,
        }
        &&& match self.bounding_box {
            Some(b) => b.wf(),
            None => true,
        }
        &&& match self.stroke_bounding_box {
            Some(b) => b.wf(),
            None => true,
        }
    }
}

/// A fill draw operation.
#[derive(Clone, PartialEq, Debug)]
pub struct FillPath {
    pub paint: Paint,
    pub rule: raster::FillRule,
    pub anti_alias: bool,
    pub path: Rc<PathGeometry>,
}

/// A stroke draw operation.
#[derive(Clone, PartialEq, Debug)]
pub struct StrokePath {
    pub paint: Paint,
    pub stroke: raster::Stroke,
    pub anti_alias: bool,
    pub path: Rc<PathGeometry>,
}

/// A built draw operation, in emission order.
#[derive(Clone, PartialEq, Debug)]
pub enum Node {
    FillPath(FillPath),
    StrokePath(StrokePath),
}

/// The fill rule as the rasterizer takes it.
pub open spec fn spec_raster_rule(rule: FillRule) -> raster::FillRule {
    match rule {
        FillRule::NonZero => raster::FillRule::Winding,
        FillRule::EvenOdd => raster::FillRule::EvenOdd,
    }
}

/// The bounding box paint coordinates are resolved against: the node's
/// own object bounding box, unless an external one (a text glyph run's)
/// overrides it.
pub open spec fn effective_bbox(upath: Path, text_bbox: Option<Rect>) -> Rect
    recommends
        upath.bounding_box is Some,
{
    match text_bbox {
        Some(t) => t,
        None => upath.bounding_box.unwrap(),
    }
}

/// A degenerate bounding box is no bounding box at all for paint
/// resolution.
pub open spec fn nonzero_bbox(r: Rect) -> Option<Rect> {
    if r.is_degenerate() {
        None
    } else {
        Some(r)
    }
}

/// The fill draw operation a fill specification yields: none when the
/// effective bounding box is degenerate (a fill cannot cover a degenerate
/// region) or when its paint does not resolve.
pub open spec fn fill_path_spec(
    ufill: Fill,
    data: Rc<PathGeometry>,
    object_bbox: Rect,
    anti_alias: bool,
) -> Option<FillPath> {
    if object_bbox.is_degenerate() {
        None
    } else {
        match resolve_spec(ufill.paint, ufill.opacity, nonzero_bbox(object_bbox)) {
            Some(paint) => Some(
                (FillPath { paint, rule: spec_raster_rule(ufill.rule), anti_alias, path: data }),
            ),
            None => None,
        }
    }
}

/// The stroke draw operation a stroke specification yields: none exactly
/// when its paint does not resolve. Degenerate geometry is allowed, since
/// round or square caps and joins can still produce visible area.
pub open spec fn stroke_path_spec(
    ustroke: Stroke,
    data: Rc<PathGeometry>,
    object_bbox: Rect,
    anti_alias: bool,
) -> Option<StrokePath> {
    match resolve_spec(ustroke.paint, ustroke.opacity, nonzero_bbox(object_bbox)) {
        Some(paint) => Some(
            (StrokePath {
                paint,
                stroke: raster::spec_to_raster(ustroke),
                anti_alias,
                path: data,
            }),
        ),
        None => None,
    }
}

/// The fill operation the whole node yields, if any.
pub open spec fn fill_op_spec(upath: Path, text_bbox: Option<Rect>) -> Option<FillPath> {
    match upath.fill {
        Some(f) => fill_path_spec(
            f,
            upath.data,
            effective_bbox(upath, text_bbox),
            upath.rendering_mode.spec_use_shape_antialiasing(),
        ),
        None => None,
    }
}

/// The stroke operation the whole node yields, if any.
pub open spec fn stroke_op_spec(upath: Path, text_bbox: Option<Rect>) -> Option<StrokePath> {
    match upath.stroke {
        Some(s) => stroke_path_spec(
            s,
            upath.data,
            effective_bbox(upath, text_bbox),
            upath.rendering_mode.spec_use_shape_antialiasing(),
        ),
        None => None,
    }
}

/// The node's layer bounding box: its object bounding box, expanded by
/// the precomputed stroke bounding box when a stroke operation was built.
/// The external text bounding box overrides paint coordinates only, never
/// the layer bounding box.
pub open spec fn layer_bbox_spec(upath: Path, text_bbox: Option<Rect>) -> BBox
    recommends
        upath.bounding_box is Some,
{
    let base = BBox::spec_from_rect(upath.bounding_box.unwrap());
    if stroke_op_spec(upath, text_bbox) is Some {
        match upath.stroke_bounding_box {
            Some(sb) => base.spec_expand_rect(sb),
            None => base,
        }
    } else {
        base
    }
}

/// The draw operations the node emits, in paint order. Hidden nodes, and
/// nodes without a precomputed bounding box, emit nothing.
pub open spec fn emitted_spec(upath: Path, text_bbox: Option<Rect>) -> Seq<Node> {
    if upath.bounding_box is None {
        Seq::empty()
    } else if !(upath.visibility is Visible) {
        Seq::empty()
    } else {
        let fill_seq = match fill_op_spec(upath, text_bbox) {
            Some(f) => seq![Node::FillPath(f)],
            None => Seq::empty(),
        };
        let stroke_seq = match stroke_op_spec(upath, text_bbox) {
            Some(s) => seq![Node::StrokePath(s)],
            None => Seq::empty(),
        };
        if upath.paint_order is FillAndStroke {
            fill_seq + stroke_seq
        } else {
            stroke_seq + fill_seq
        }
    }
}

/// What `convert` returns: nothing when the node carries no precomputed
/// bounding box (an upstream precondition violation) or when neither a
/// fill nor a stroke operation was built; otherwise the layer bounding
/// box, whether or not the node is visible.
pub open spec fn convert_result_spec(upath: Path, text_bbox: Option<Rect>) -> Option<BBox> {
    if upath.bounding_box is None {
        None
    } else if fill_op_spec(upath, text_bbox) is None && stroke_op_spec(upath, text_bbox) is None {
        None
    } else {
        Some(layer_bbox_spec(upath, text_bbox))
    }
}

/// Attempts to build a fill draw operation, rejecting degenerate
/// bounding boxes before resolving the paint.
pub fn convert_fill_path(
    ufill: &Fill,
    path: Rc<PathGeometry>,
    object_bbox: Rect,
    anti_alias: bool,
) -> (r: Option<FillPath>)
    requires
        ufill.wf(),
    ensures
        r == fill_path_spec(*ufill, path, object_bbox, anti_alias),
{
    // A degenerate region cannot be filled. Skip.
    if object_bbox.degenerate() {
        return None;
    }
    let rule = match ufill.rule {
        FillRule::NonZero => raster::FillRule::Winding,
        FillRule::EvenOdd => raster::FillRule::EvenOdd,
    };
    let paint = match resolve(&ufill.paint, ufill.opacity, Some(object_bbox)) {
        Some(p) => p,
        None => {
            return None;
        },
    };
    Some(FillPath { paint, rule, anti_alias, path })
}

/// Attempts to build a stroke draw operation. A degenerate bounding box
/// only withholds the object bounding box from paint resolution; the
/// stroke itself is still built when its paint resolves.
pub fn convert_stroke_path(
    ustroke: &Stroke,
    path: Rc<PathGeometry>,
    object_bbox: Rect,
    anti_alias: bool,
) -> (r: Option<StrokePath>)
    requires
        ustroke.wf(),
    ensures
        r == stroke_path_spec(*ustroke, path, object_bbox, anti_alias),
{
    let bbox = if object_bbox.degenerate() {
        None
    } else {
        Some(object_bbox)
    };
    let paint = match resolve(&ustroke.paint, ustroke.opacity, bbox) {
        Some(p) => p,
        None => {
            return None;
        },
    };
    let stroke = raster::to_raster(ustroke);
    Some(StrokePath { paint, stroke, anti_alias, path })
}

/// Builds the draw operations of one path node and accumulates its layer
/// bounding box.
///
/// Returns `None`, emitting nothing, when the node carries no precomputed
/// bounding box or when neither operation was built. A node that is not
/// visible emits nothing but still yields its layer bounding box, since
/// hidden nodes keep affecting ancestor bounding boxes.
pub fn convert(upath: &Path, text_bbox: Option<Rect>, children: &mut Vec<Node>) -> (r: Option<BBox>)
    requires
        upath.wf(),
    ensures
        r == convert_result_spec(*upath, text_bbox),
        final(children)@ == old(children)@ + emitted_spec(*upath, text_bbox),
{
    let anti_alias = upath.rendering_mode.use_shape_antialiasing();

    let node_bbox = match upath.bounding_box {
        Some(b) => b,
        None => {
            // Upstream must already have computed the bounding box; the
            // caller reports the diagnostic.
            proof {
                assert(old(children)@ + emitted_spec(*upath, text_bbox) =~= old(children)@);
            }
            return None;
        },
    };
    let bounding_box = match text_bbox {
        Some(t) => t,
        None => node_bbox,
    };

    let fill_path = match &upath.fill {
        Some(ufill) => convert_fill_path(ufill, rc_clone(&upath.data), bounding_box, anti_alias),
        None => None,
    };
    let stroke_path = match &upath.stroke {
        Some(ustroke) => convert_stroke_path(
            ustroke,
            rc_clone(&upath.data),
            bounding_box,
            anti_alias,
        ),
        None => None,
    };

    if fill_path.is_none() && stroke_path.is_none() {
        proof {
            assert(old(children)@ + emitted_spec(*upath, text_bbox) =~= old(children)@);
        }
        return None;
    }

    let mut layer_bbox = BBox::from_rect(node_bbox);
    if stroke_path.is_some() {
        if let Some(stroke_bbox) = upath.stroke_bounding_box {
            layer_bbox = layer_bbox.expand_rect(stroke_bbox);
        }
    }

    // Do not emit hidden paths, but preserve the bounding box:
    // hidden nodes still affect ancestor bounding boxes.
    if !matches!(upath.visibility, Visibility::Visible) {
        proof {
            assert(old(children)@ + emitted_spec(*upath, text_bbox) =~= old(children)@);
        }
        return Some(layer_bbox);
    }

    if matches!(upath.paint_order, PaintOrder::FillAndStroke) {
        if let Some(path) = fill_path {
            children.push(Node::FillPath(path));
        }
        if let Some(path) = stroke_path {
            children.push(Node::StrokePath(path));
        }
    } else {
        if let Some(path) = stroke_path {
            children.push(Node::StrokePath(path));
        }
        if let Some(path) = fill_path {
            children.push(Node::FillPath(path));
        }
    }
    proof {
        assert(children@ =~= old(children)@ + emitted_spec(*upath, text_bbox));
    }

    Some(layer_bbox)
}

} // verus!
