use std::rc::Rc;

use resvg_path::geom::{BBox, PathGeometry, PathSegment, Point, Rect};
use resvg_path::paint::Paint;
use resvg_path::path::{convert, FillPath, Node, Path, StrokePath};
use resvg_path::raster;
use resvg_path::style::{
    Color, Fill, FillRule, LineCap, LineJoin, Opacity, PaintOrder, PaintSource, ShapeRendering,
    Stroke, Units, Visibility,
};

fn rect_geometry() -> Rc<PathGeometry> {
    let segments = vec![
        PathSegment::MoveTo(Point { x: 0, y: 0 }),
        PathSegment::LineTo(Point { x: 10, y: 0 }),
        PathSegment::LineTo(Point { x: 10, y: 5 }),
        PathSegment::LineTo(Point { x: 0, y: 5 }),
        PathSegment::Close,
    ];
    Rc::new(PathGeometry::new(segments).unwrap())
}

fn horizontal_line_geometry() -> Rc<PathGeometry> {
    let segments = vec![
        PathSegment::MoveTo(Point { x: 0, y: 3 }),
        PathSegment::LineTo(Point { x: 10, y: 3 }),
    ];
    Rc::new(PathGeometry::new(segments).unwrap())
}

fn solid_fill() -> Fill {
    Fill {
        paint: PaintSource::Color(Color { red: 200, green: 100, blue: 50 }),
        opacity: Opacity::full(),
        rule: FillRule::NonZero,
    }
}

fn solid_stroke() -> Stroke {
    Stroke {
        paint: PaintSource::Color(Color { red: 10, green: 20, blue: 30 }),
        dasharray: None,
        dashoffset: 0,
        miterlimit: 4,
        opacity: Opacity::full(),
        width: 2,
        linecap: LineCap::Round,
        linejoin: LineJoin::Miter,
    }
}

fn base_node(data: Rc<PathGeometry>, bbox: Rect) -> Path {
    Path {
        data,
        visibility: Visibility::Visible,
        fill: None,
        stroke: None,
        paint_order: PaintOrder::FillAndStroke,
        rendering_mode: ShapeRendering::GeometricPrecision,
        bounding_box: Some(bbox),
        stroke_bounding_box: None,
    }
}

#[test]
fn degenerate_bbox_never_fills() {
    let geometry = horizontal_line_geometry();
    let bbox = geometry.bounds;
    assert_eq!(bbox, Rect { left: 0, top: 3, right: 10, bottom: 3 });
    let mut node = base_node(geometry, bbox);
    node.fill = Some(solid_fill());
    let mut children: Vec<Node> = Vec::new();
    let r = convert(&node, None, &mut children);
    assert!(r.is_none());
    assert!(children.is_empty());
}

#[test]
fn degenerate_bbox_still_strokes() {
    let geometry = horizontal_line_geometry();
    let bbox = geometry.bounds;
    let mut node = base_node(geometry, bbox);
    node.fill = Some(solid_fill());
    node.stroke = Some(solid_stroke());
    let mut children: Vec<Node> = Vec::new();
    let r = convert(&node, None, &mut children);
    assert!(r.is_some());
    assert_eq!(children.len(), 1);
    assert!(matches!(children[0], Node::StrokePath(_)));
}

#[test]
fn single_point_path_with_round_caps_strokes() {
    let geometry = Rc::new(
        PathGeometry::new(vec![PathSegment::MoveTo(Point { x: 4, y: 4 })]).unwrap(),
    );
    let bbox = geometry.bounds;
    assert_eq!(bbox, Rect { left: 4, top: 4, right: 4, bottom: 4 });
    let mut node = base_node(geometry, bbox);
    node.stroke = Some(solid_stroke());
    let mut children: Vec<Node> = Vec::new();
    let r = convert(&node, None, &mut children);
    assert!(r.is_some());
    assert_eq!(children.len(), 1);
    assert!(matches!(children[0], Node::StrokePath(_)));
}

#[test]
fn object_units_paint_needs_nonzero_bbox() {
    // A pattern in object bounding-box units cannot resolve against a
    // degenerate bounding box, so even the stroke is withheld.
    let geometry = horizontal_line_geometry();
    let bbox = geometry.bounds;
    let mut stroke = solid_stroke();
    stroke.paint = PaintSource::Pattern(resvg_path::style::Pattern {
        rect: Rect { left: 0, top: 0, right: 4, bottom: 4 },
        units: Units::ObjectBoundingBox,
        transform: resvg_path::geom::Transform::identity(),
        content: 7,
    });
    let mut node = base_node(geometry, bbox);
    node.stroke = Some(stroke);
    let mut children: Vec<Node> = Vec::new();
    let r = convert(&node, None, &mut children);
    assert!(r.is_none());
    assert!(children.is_empty());
}

#[test]
fn hidden_node_preserves_layer_bbox() {
    let bbox = Rect { left: 0, top: 0, right: 10, bottom: 5 };
    let stroke_bbox = Rect { left: -1, top: -1, right: 11, bottom: 6 };

    let mut visible = base_node(rect_geometry(), bbox);
    visible.fill = Some(solid_fill());
    visible.stroke = Some(solid_stroke());
    visible.stroke_bounding_box = Some(stroke_bbox);

    let mut hidden = visible.clone();
    hidden.visibility = Visibility::Hidden;

    let mut visible_children: Vec<Node> = Vec::new();
    let visible_bbox = convert(&visible, None, &mut visible_children);
    let mut hidden_children: Vec<Node> = Vec::new();
    let hidden_bbox = convert(&hidden, None, &mut hidden_children);

    assert_eq!(visible_children.len(), 2);
    assert!(hidden_children.is_empty());
    assert_eq!(visible_bbox, hidden_bbox);
    assert_eq!(
        hidden_bbox,
        Some(BBox { rect: Some(Rect { left: -1, top: -1, right: 11, bottom: 6 }) })
    );
}

#[test]
fn paint_order_reverses_emission() {
    let bbox = Rect { left: 0, top: 0, right: 10, bottom: 5 };
    let mut node = base_node(rect_geometry(), bbox);
    node.fill = Some(solid_fill());
    node.stroke = Some(solid_stroke());

    let mut fill_first: Vec<Node> = Vec::new();
    convert(&node, None, &mut fill_first).unwrap();

    node.paint_order = PaintOrder::StrokeAndFill;
    let mut stroke_first: Vec<Node> = Vec::new();
    convert(&node, None, &mut stroke_first).unwrap();

    assert_eq!(fill_first.len(), 2);
    assert_eq!(stroke_first.len(), 2);
    assert!(matches!(fill_first[0], Node::FillPath(_)));
    assert!(matches!(fill_first[1], Node::StrokePath(_)));
    assert_eq!(fill_first[0], stroke_first[1]);
    assert_eq!(fill_first[1], stroke_first[0]);
}

#[test]
fn missing_bounding_box_emits_nothing() {
    let mut node = base_node(rect_geometry(), Rect { left: 0, top: 0, right: 10, bottom: 5 });
    node.fill = Some(solid_fill());
    node.bounding_box = None;
    let mut children: Vec<Node> = Vec::new();
    let r = convert(&node, None, &mut children);
    assert!(r.is_none());
    assert!(children.is_empty());
}

#[test]
fn text_bbox_overrides_paint_coordinates_only() {
    // The node's own bounding box is degenerate, but the text override is
    // not: the fill is built, while the layer bounding box still comes
    // from the node's own bounding box.
    let geometry = horizontal_line_geometry();
    let bbox = geometry.bounds;
    let mut node = base_node(geometry, bbox);
    node.fill = Some(solid_fill());
    let text_bbox = Rect { left: 0, top: 0, right: 10, bottom: 12 };
    let mut children: Vec<Node> = Vec::new();
    let r = convert(&node, Some(text_bbox), &mut children);
    assert_eq!(children.len(), 1);
    assert!(matches!(children[0], Node::FillPath(_)));
    assert_eq!(r, Some(BBox { rect: Some(bbox) }));
}

#[test]
fn rectangle_solid_fill_scenario() {
    let geometry = rect_geometry();
    let bbox = Rect { left: 0, top: 0, right: 10, bottom: 5 };
    assert_eq!(geometry.bounds, bbox);
    let mut node = base_node(geometry, bbox);
    node.fill = Some(solid_fill());
    let mut children: Vec<Node> = Vec::new();
    let r = convert(&node, None, &mut children);
    assert_eq!(r, Some(BBox { rect: Some(bbox) }));
    assert_eq!(children.len(), 1);
    match &children[0] {
        Node::FillPath(FillPath { paint, rule, anti_alias, path }) => {
            assert_eq!(
                *paint,
                Paint::Shader(resvg_path::paint::Shader::Solid {
                    color: Color { red: 200, green: 100, blue: 50 },
                    opacity: Opacity::full(),
                })
            );
            assert_eq!(*rule, raster::FillRule::Winding);
            assert!(*anti_alias);
            assert_eq!(path.bounds, bbox);
        }
        Node::StrokePath(StrokePath { .. }) => panic!("expected a fill operation"),
    }
}

#[test]
fn stroke_carries_converted_style() {
    let bbox = Rect { left: 0, top: 0, right: 10, bottom: 5 };
    let mut stroke = solid_stroke();
    stroke.dasharray = Some(Rc::new(vec![6, 4]));
    stroke.dashoffset = 1;
    let mut node = base_node(rect_geometry(), bbox);
    node.stroke = Some(stroke);
    let mut children: Vec<Node> = Vec::new();
    convert(&node, None, &mut children).unwrap();
    match &children[0] {
        Node::StrokePath(sp) => {
            assert_eq!(sp.stroke.width, 2);
            assert_eq!(sp.stroke.miter_limit, 4);
            assert_eq!(sp.stroke.line_cap, LineCap::Round);
            assert_eq!(sp.stroke.line_join, LineJoin::Miter);
            let dash = sp.stroke.dash.as_ref().unwrap();
            assert_eq!(*dash.array, vec![6, 4]);
            assert_eq!(dash.offset, 1);
        }
        Node::FillPath(_) => panic!("expected a stroke operation"),
    }
}
