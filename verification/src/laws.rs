//! The policy laws of the draw-op builder, stated and proved over the
//! same specification functions its contracts use.

use vstd::prelude::*;
use crate::geom::Rect;
use crate::paint::resolve_spec;
use crate::path::{
    convert_result_spec, effective_bbox, emitted_spec, fill_op_spec, nonzero_bbox, stroke_op_spec,
    Node, Path,
};
use crate::style::{PaintOrder, Visibility};

verus! {

/// For any node whose effective bounding box has zero width or zero
/// height, no fill operation is ever produced or emitted, regardless of
/// paint validity.
pub proof fn lemma_degenerate_bbox_never_fills(upath: Path, text_bbox: Option<Rect>)
    requires
        effective_bbox(upath, text_bbox).is_degenerate(),
    ensures
        fill_op_spec(upath, text_bbox) is None,
        forall|i: int|
            0 <= i < emitted_spec(upath, text_bbox).len() ==> !((#[trigger] emitted_spec(
                upath,
                text_bbox,
            )[i]) is FillPath),
{
    let e = emitted_spec(upath, text_bbox);
    assert forall|i: int| 0 <= i < e.len() implies !((#[trigger] e[i]) is FillPath) by {
        match stroke_op_spec(upath, text_bbox) {
            Some(s) => {
                assert(e =~= seq![Node::StrokePath(s)]);
            },
            None => {
                assert(e =~= Seq::<Node>::empty());
            },
        }
    }
}

/// A stroke operation is produced exactly when its paint resolves, and a
/// visible node then emits it. In particular zero-area geometry still
/// strokes: a degenerate bounding box only withholds the object bounding
/// box from paint resolution, since round or square caps can render
/// visible area either way.
pub proof fn lemma_stroke_built_whenever_paint_resolves(upath: Path, text_bbox: Option<Rect>)
    requires
        upath.stroke is Some,
        resolve_spec(
            upath.stroke.unwrap().paint,
            upath.stroke.unwrap().opacity,
            nonzero_bbox(effective_bbox(upath, text_bbox)),
        ) is Some,
    ensures
        stroke_op_spec(upath, text_bbox) is Some,
        upath.bounding_box is Some && upath.visibility is Visible ==> emitted_spec(
            upath,
            text_bbox,
        ).contains(Node::StrokePath(stroke_op_spec(upath, text_bbox).unwrap())),
{
    let s = stroke_op_spec(upath, text_bbox).unwrap();
    let e = emitted_spec(upath, text_bbox);
    if upath.bounding_box is Some && upath.visibility is Visible {
        match fill_op_spec(upath, text_bbox) {
            Some(f) => {
                if upath.paint_order is FillAndStroke {
                    assert(e[1] == Node::StrokePath(s));
                } else {
                    assert(e[0] == Node::StrokePath(s));
                }
            },
            None => {
                assert(e[0] == Node::StrokePath(s));
            },
        }
    }
}

/// A hidden node emits no draw operation, yet `convert` returns the same
/// layer bounding box (stroke expansion included) as for the identical
/// visible node.
pub proof fn lemma_hidden_preserves_layer_bbox(upath: Path, text_bbox: Option<Rect>)
    requires
        !(upath.visibility is Visible),
    ensures
        emitted_spec(upath, text_bbox) == Seq::<Node>::empty(),
        convert_result_spec(upath, text_bbox) == convert_result_spec(
            (Path { visibility: Visibility::Visible, ..upath }),
            text_bbox,
        ),
{
}

/// Switching the paint order from fill-then-stroke to stroke-then-fill
/// reverses the emission order of the built operations without changing
/// their content.
pub proof fn lemma_paint_order_reverses_emission(upath: Path, text_bbox: Option<Rect>)
    requires
        upath.paint_order is FillAndStroke,
    ensures
        emitted_spec(upath, text_bbox) == emitted_spec(
            (Path { paint_order: PaintOrder::StrokeAndFill, ..upath }),
            text_bbox,
        ).reverse(),
{
    let swapped = Path { paint_order: PaintOrder::StrokeAndFill, ..upath };
    let e1 = emitted_spec(upath, text_bbox);
    let e2 = emitted_spec(swapped, text_bbox);
    assert(fill_op_spec(swapped, text_bbox) == fill_op_spec(upath, text_bbox));
    assert(stroke_op_spec(swapped, text_bbox) == stroke_op_spec(upath, text_bbox));
    assert(e1 =~= e2.reverse());
}

} // verus!
