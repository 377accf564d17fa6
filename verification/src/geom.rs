//! Integer geometry: points, axis-aligned rectangles, bounding-box
//! accumulation, affine transforms, and immutable path geometry with a
//! precomputed tight bounding box.

use vstd::prelude::*;
use std::rc::Rc;

verus! {

/// Largest magnitude a coordinate may have. Keeps every width, height and
/// union free of overflow in `i64` arithmetic.
pub const COORD_LIMIT: i64 = 2_147_483_648;

#[derive(Clone, Copy, PartialEq, Eq, Structural, Debug)]
pub struct Point {
    pub x: i64,
    pub y: i64,
}

impl Point {
    pub open spec fn wf(self) -> bool {
        &&& -COORD_LIMIT <= self.x <= COORD_LIMIT
        &&& -COORD_LIMIT <= self.y <= COORD_LIMIT
    }
}

/// An axis-aligned rectangle given by its left/top/right/bottom edges.
/// A rectangle may have zero width or height; see `is_degenerate`.
#[derive(Clone, Copy, PartialEq, Eq, Structural, Debug)]
pub struct Rect {
    pub left: i64,
    pub top: i64,
    pub right: i64,
    pub bottom: i64,
}

impl Rect {
    pub open spec fn wf(self) -> bool {
        &&& -COORD_LIMIT <= self.left <= self.right <= COORD_LIMIT
        &&& -COORD_LIMIT <= self.top <= self.bottom <= COORD_LIMIT
    }

    pub open spec fn spec_width(self) -> int {
        self.right - self.left
    }

    pub open spec fn spec_height(self) -> int {
        self.bottom - self.top
    }

    /// A degenerate rectangle has no interior: a fill cannot cover it.
    pub open spec fn is_degenerate(self) -> bool {
        self.spec_width() == 0 || self.spec_height() == 0
    }

    pub open spec fn spec_union(self, o: Rect) -> Rect {
        (Rect {
            left: if o.left < self.left { o.left } else { self.left },
            top: if o.top < self.top { o.top } else { self.top },
            right: if o.right > self.right { o.right } else { self.right },
            bottom: if o.bottom > self.bottom { o.bottom } else { self.bottom },
        })
    }

    pub fn width(&self) -> (w: i64)
        requires
            self.wf(),
        ensures
            w == self.spec_width(),
    {
        self.right - self.left
    }

    pub fn height(&self) -> (h: i64)
        requires
            self.wf(),
        ensures
            h == self.spec_height(),
    {
        self.bottom - self.top
    }

    pub fn degenerate(&self) -> (r: bool)
        ensures
            r == self.is_degenerate(),
    {
        self.right == self.left || self.bottom == self.top
    }

    /// The smallest rectangle enclosing both `self` and `o`.
    pub fn union(&self, o: &Rect) -> (r: Rect)
        ensures
            r == self.spec_union(*o),
            self.wf() && o.wf() ==> r.wf(),
    {
        Rect {
            left: if o.left < self.left { o.left } else { self.left },
            top: if o.top < self.top { o.top } else { self.top },
            right: if o.right > self.right { o.right } else { self.right },
            bottom: if o.bottom > self.bottom { o.bottom } else { self.bottom },
        }
    }
}

/// A bounding-box accumulator with an explicit empty state.
#[derive(Clone, Copy, PartialEq, Debug)]
pub struct BBox {
    pub rect: Option<Rect>,
}

impl BBox {
    pub open spec fn spec_from_rect(r: Rect) -> BBox {
        (BBox { rect: Some(r) })
    }

    pub open spec fn spec_expand_rect(self, r: Rect) -> BBox {
        match self.rect {
            Some(cur) => BBox { rect: Some(cur.spec_union(r)) },
            None => BBox { rect: Some(r) },
        }
    }

    pub open spec fn wf(self) -> bool {
        match self.rect {
            Some(r) => r.wf(),
            None => true,
        }
    }

    pub fn empty() -> (b: BBox)
        ensures
            b.rect is None,
    {
        BBox { rect: None }
    }

    pub fn from_rect(r: Rect) -> (b: BBox)
        ensures
            b == BBox::spec_from_rect(r),
    {
        BBox { rect: Some(r) }
    }

    /// Grows the accumulator to enclose `r` as well.
    pub fn expand_rect(&self, r: Rect) -> (b: BBox)
        ensures
            b == self.spec_expand_rect(r),
    {
        match self.rect {
            Some(cur) => BBox { rect: Some(cur.union(&r)) },
            None => BBox { rect: Some(r) },
        }
    }

    pub fn to_rect(&self) -> (r: Option<Rect>)
        ensures
            r == self.rect,
    {
        self.rect
    }
}

/// A 2x3 affine transform, carried through to the rasterizer unchanged.
#[derive(Clone, Copy, PartialEq, Eq, Structural, Debug)]
pub struct Transform {
    pub sx: i64,
    pub kx: i64,
    pub ky: i64,
    pub sy: i64,
    pub tx: i64,
    pub ty: i64,
}

impl Transform {
    /// The identity transform, at unit scale `TRANSFORM_ONE`.
    pub fn identity() -> (t: Transform)
        ensures
            t == (Transform { sx: TRANSFORM_ONE, kx: 0, ky: 0, sy: TRANSFORM_ONE, tx: 0, ty: 0 }),
    {
        Transform { sx: TRANSFORM_ONE, kx: 0, ky: 0, sy: TRANSFORM_ONE, tx: 0, ty: 0 }
    }
}

/// Fixed-point unit for transform matrix entries.
pub const TRANSFORM_ONE: i64 = 65_536;

/// One segment of a path outline.
#[derive(Clone, Copy, PartialEq, Eq, Structural, Debug)]
pub enum PathSegment {
    MoveTo(Point),
    LineTo(Point),
    QuadTo(Point, Point),
    CubicTo(Point, Point, Point),
    Close,
}

/// The control points a segment contributes to the geometry's bounds.
pub open spec fn segment_points(s: PathSegment) -> Seq<Point> {
    match s {
        PathSegment::MoveTo(p) => seq![p],
        PathSegment::LineTo(p) => seq![p],
        PathSegment::QuadTo(p1, p2) => seq![p1, p2],
        PathSegment::CubicTo(p1, p2, p3) => seq![p1, p2, p3],
        PathSegment::Close => seq![],
    }
}

/// All control points of a segment sequence, in order.
pub open spec fn segments_points(ss: Seq<PathSegment>) -> Seq<Point>
    decreases ss.len(),
{
    if ss.len() == 0 {
        Seq::empty()
    } else {
        segments_points(ss.drop_last()) + segment_points(ss.last())
    }
}

pub open spec fn rect_contains(r: Rect, p: Point) -> bool {
    &&& r.left <= p.x <= r.right
    &&& r.top <= p.y <= r.bottom
}

/// `r` encloses every point of `pts` and touches it on all four edges.
pub open spec fn tight_bounds(r: Rect, pts: Seq<Point>) -> bool {
    &&& forall|i: int| 0 <= i < pts.len() ==> rect_contains(r, #[trigger] pts[i])
    &&& exists|i: int| 0 <= i < pts.len() && (#[trigger] pts[i]).x == r.left
    &&& exists|i: int| 0 <= i < pts.len() && (#[trigger] pts[i]).x == r.right
    &&& exists|i: int| 0 <= i < pts.len() && (#[trigger] pts[i]).y == r.top
    &&& exists|i: int| 0 <= i < pts.len() && (#[trigger] pts[i]).y == r.bottom
}

/// Immutable path geometry with a precomputed tight control-point
/// bounding box. Shared by reference counting among the draw operations
/// that use it; never mutated after creation.
#[derive(Clone, PartialEq, Debug)]
pub struct PathGeometry {
    pub segments: Vec<PathSegment>,
    pub bounds: Rect,
}

impl PathGeometry {
    pub open spec fn wf(self) -> bool {
        &&& segments_points(self.segments@).len() > 0
        &&& forall|i: int|
            0 <= i < segments_points(self.segments@).len() ==> (#[trigger] segments_points(
                self.segments@,
            )[i]).wf()
        &&& tight_bounds(self.bounds, segments_points(self.segments@))
        &&& self.bounds.wf()
    }

    /// Builds geometry from segments, computing the bounding box of all
    /// control points. Returns `None` when the segments carry no point at
    /// all, since no bounds exist then.
    pub fn new(segments: Vec<PathSegment>) -> (r: Option<PathGeometry>)
        requires
            forall|i: int|
                0 <= i < segments_points(segments@).len() ==> (#[trigger] segments_points(
                    segments@,
                )[i]).wf(),
        ensures
            match r {
                Some(g) => g.segments == segments && g.wf(),
                None => segments_points(segments@).len() == 0,
            },
    {
        let pts = collect_points(&segments);
        if pts.len() == 0 {
            return None;
        }
        let first = pts[0];
        let mut left: i64 = first.x;
        let mut right: i64 = first.x;
        let mut top: i64 = first.y;
        let mut bottom: i64 = first.y;
        let mut i: usize = 1;
        while i < pts.len()
            invariant
                1 <= i <= pts@.len(),
                pts@ == segments_points(segments@),
                forall|j: int|
                    0 <= j < pts@.len() ==> (#[trigger] pts@[j]).wf(),
                forall|j: int|
                    0 <= j < i ==> rect_contains(
                        (Rect { left, top, right, bottom }),
                        #[trigger] pts@[j],
                    ),
                exists|j: int| 0 <= j < i && (#[trigger] pts@[j]).x == left,
                exists|j: int| 0 <= j < i && (#[trigger] pts@[j]).x == right,
                exists|j: int| 0 <= j < i && (#[trigger] pts@[j]).y == top,
                exists|j: int| 0 <= j < i && (#[trigger] pts@[j]).y == bottom,
            decreases pts@.len() - i,
        {
            let p = pts[i];
            if p.x < left {
                left = p.x;
            }
            if p.x > right {
                right = p.x;
            }
            if p.y < top {
                top = p.y;
            }
            if p.y > bottom {
                bottom = p.y;
            }
            i += 1;
        }
        let bounds = Rect { left, top, right, bottom };
        Some(PathGeometry { segments, bounds })
    }

    pub fn bounds(&self) -> (r: Rect)
        ensures
            r == self.bounds,
    {
        self.bounds
    }
}

fn collect_points(segments: &Vec<PathSegment>) -> (pts: Vec<Point>)
    ensures
        pts@ == segments_points(segments@),
{
    let mut pts: Vec<Point> = Vec::new();
    let mut i: usize = 0;
    while i < segments.len()
        invariant
            i <= segments@.len(),
            pts@ == segments_points(segments@.take(i as int)),
        decreases segments@.len() - i,
    {
        match segments[i] {
            PathSegment::MoveTo(p) => pts.push(p),
            PathSegment::LineTo(p) => pts.push(p),
            PathSegment::QuadTo(p1, p2) => {
                pts.push(p1);
                pts.push(p2);
            },
            PathSegment::CubicTo(p1, p2, p3) => {
                pts.push(p1);
                pts.push(p2);
                pts.push(p3);
            },
            PathSegment::Close => {},
        }
        proof {
            assert(segments@.take(i as int + 1).drop_last() =~= segments@.take(i as int));
            assert(segments@.take(i as int + 1).last() == segments@[i as int]);
            assert(pts@ =~= segments_points(segments@.take(i as int + 1)));
        }
        i += 1;
    }
    proof {
        assert(segments@.take(segments@.len() as int) =~= segments@);
    }
    pts
}

/// Relies on `Rc::clone` from std: returns a new handle to the same
/// shared, immutable value.
#[verifier::external_body]
pub fn rc_clone<T>(p: &Rc<T>) -> (r: Rc<T>)
    ensures
        r == *p,
{
    Rc::clone(p)
}

} // verus!
