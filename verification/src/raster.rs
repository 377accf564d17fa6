//! The rasterizer-facing side of the model: the attribute types a raster
//! primitive consumes, and the conversion of a stroke specification into
//! rasterizer stroke properties, including dash validation.

use vstd::prelude::*;
use std::rc::Rc;
use crate::geom::{rc_clone, COORD_LIMIT};
use crate::style::{LineCap, LineJoin, MAX_DASHES};

verus! {

/// How the rasterizer decides which regions a fill covers.
#[derive(Clone, Copy, PartialEq, Eq, Structural, Debug)]
pub enum FillRule {
    Winding,
    EvenOdd,
}

/// How a shader behaves outside its own bounds.
#[derive(Clone, Copy, PartialEq, Eq, Structural, Debug)]
pub enum SpreadMode {
    Pad,
    Reflect,
    Repeat,
}

/// Sampling quality of a pattern shader.
#[derive(Clone, Copy, PartialEq, Eq, Structural, Debug)]
pub enum FilterQuality {
    Nearest,
    Bilinear,
    Bicubic,
}

/// How source pixels are blended over the target.
#[derive(Clone, Copy, PartialEq, Eq, Structural, Debug)]
pub enum BlendMode {
    Clear,
    Source,
    Destination,
    SourceOver,
    DestinationOver,
    SourceIn,
    DestinationIn,
    SourceOut,
    DestinationOut,
    SourceAtop,
    DestinationAtop,
    Xor,
    Plus,
    Modulate,
    Screen,
    Overlay,
    Darken,
    Lighten,
    ColorDodge,
    ColorBurn,
    HardLight,
    SoftLight,
    Difference,
    Exclusion,
    Multiply,
    Hue,
    Saturation,
    Color,
    Luminosity,
}

/// Sum of a dash array.
pub open spec fn dash_sum(s: Seq<i64>) -> int
    decreases s.len(),
{
    if s.len() == 0 {
        0
    } else {
        dash_sum(s.drop_last()) + s.last()
    }
}

/// A dash array is usable when it has at least two entries, an even number
/// of entries, no negative entry, and a positive total length.
pub open spec fn dash_array_valid(s: Seq<i64>) -> bool {
    &&& s.len() >= 2
    &&& s.len() % 2 == 0
    &&& forall|i: int| 0 <= i < s.len() ==> #[trigger] s[i] >= 0
    &&& dash_sum(s) > 0
}

/// Validated stroke dashing properties.
#[derive(Clone, PartialEq, Debug)]
pub struct StrokeDash {
    pub array: Rc<Vec<i64>>,
    pub offset: i64,
}

impl StrokeDash {
    pub open spec fn wf(self) -> bool {
        dash_array_valid(self.array@)
    }

    /// Validates a dash array, accepting it exactly when
    /// `dash_array_valid` holds of it.
    pub fn new(array: &Rc<Vec<i64>>, offset: i64) -> (r: Option<StrokeDash>)
        requires
            array@.len() <= MAX_DASHES,
            forall|i: int|
                0 <= i < array@.len() ==> -COORD_LIMIT <= #[trigger] array@[i] <= COORD_LIMIT,
        ensures
            match r {
                Some(d) => dash_array_valid(array@) && d == (StrokeDash {
                    array: *array,
                    offset,
                }),
                None => !dash_array_valid(array@),
            },
    {
        let a: &Vec<i64> = &**array;
        if a.len() < 2 || a.len() % 2 != 0 {
            return None;
        }
        let mut sum: i64 = 0;
        let mut i: usize = 0;
        while i < a.len()
            invariant
                i <= a@.len(),
                a@ == array@,
                a@.len() <= MAX_DASHES,
                forall|j: int| 0 <= j < a@.len() ==> -COORD_LIMIT <= #[trigger] a@[j] <= COORD_LIMIT,
                forall|j: int| 0 <= j < i ==> #[trigger] a@[j] >= 0,
                sum == dash_sum(a@.take(i as int)),
                0 <= sum <= i * COORD_LIMIT,
            decreases a@.len() - i,
        {
            let v = a[i];
            if v < 0 {
                return None;
            }
            proof {
                assert(a@.take(i as int + 1).drop_last() =~= a@.take(i as int));
                assert(a@.take(i as int + 1).last() == a@[i as int]);
            }
            sum = sum + v;
            i += 1;
        }
        proof {
            assert(a@.take(a@.len() as int) =~= a@);
        }
        if sum <= 0 {
            return None;
        }
        Some(StrokeDash { array: rc_clone(array), offset })
    }
}

/// Stroke properties as the rasterizer's stroke primitive takes them.
#[derive(Clone, PartialEq, Debug)]
pub struct Stroke {
    pub width: i64,
    pub miter_limit: i64,
    pub line_cap: LineCap,
    pub line_join: LineJoin,
    pub dash: Option<StrokeDash>,
}

/// What converting a stroke specification yields: the same width, miter
/// limit, cap and join, and the dash properties exactly when the dash
/// array validates.
pub open spec fn spec_to_raster(s: crate::style::Stroke) -> Stroke {
    (Stroke {
        width: s.width,
        miter_limit: s.miterlimit,
        line_cap: s.linecap,
        line_join: s.linejoin,
        dash: match s.dasharray {
            Some(a) => if dash_array_valid(a@) {
                Some(StrokeDash { array: a, offset: s.dashoffset })
            } else {
                None
            },
            None => None,
        },
    })
}

/// Converts a stroke specification into rasterizer stroke properties.
/// An unusable dash array is dropped; everything else carries over.
pub fn to_raster(s: &crate::style::Stroke) -> (r: Stroke)
    requires
        s.wf(),
    ensures
        r == spec_to_raster(*s),
{
    let dash = match &s.dasharray {
        Some(a) => StrokeDash::new(a, s.dashoffset),
        None => None,
    };
    Stroke {
        width: s.width,
        miter_limit: s.miterlimit,
        line_cap: s.linecap,
        line_join: s.linejoin,
        dash,
    }
}

} // verus!
