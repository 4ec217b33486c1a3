//! A model of the draw calls that widgets issue: each painter in this crate
//! appends [`Shape`] values to a list instead of drawing, and a thin layer
//! outside the crate replays the list through the host toolkit's painter.

use vstd::prelude::*;

use crate::style::{Color, Pos2, Rect, Rounding, Stroke};

verus! {

/// Coordinates handed to the painters stay within this many milli-pixels of
/// the origin, which keeps every scale and offset computation inside `i64`.
pub const COORD_LIMIT: i64 = 1099511627776;

/// Whether a coordinate is within the painter's working range.
pub open spec fn coord_ok(v: i64) -> bool {
    -COORD_LIMIT <= v <= COORD_LIMIT
}

/// Whether a point is within the painter's working range.
pub open spec fn pos_ok(p: Pos2) -> bool {
    coord_ok(p.x) && coord_ok(p.y)
}

/// One drawing primitive.
#[derive(Debug, Clone, Copy, PartialEq, Eq, Structural)]
pub enum Shape {
    /// A straight line between two points.
    LineSegment { a: Pos2, b: Pos2, stroke: Stroke },
    /// A filled circle.
    CircleFilled { center: Pos2, radius: i64, fill: Color },
    /// A filled circle with an outline.
    Circle { center: Pos2, radius: i64, fill: Color, stroke: Stroke },
    /// A filled rectangle.
    RectFilled { rect: Rect, rounding: Rounding, fill: Color },
    /// A rectangle outline.
    RectStroke { rect: Rect, rounding: Rounding, stroke: Stroke },
    /// A horizontal line from `x0` to `x1` at height `y`.
    HLine { x0: i64, x1: i64, y: i64, stroke: Stroke },
    /// A vertical line from `y0` to `y1` at `x`.
    VLine { x: i64, y0: i64, y1: i64, stroke: Stroke },
    /// A filled triangle.
    Triangle { a: Pos2, b: Pos2, c: Pos2, color: Color },
}

/// A nonnegative length scaled by `m` thousandths, with the remainder
/// truncated.
pub open spec fn scale_spec(v: i64, m: i64) -> int {
    (v * m) / 1000
}

/// Scales a nonnegative length by `m` thousandths.
pub fn scale(v: i64, m: i64) -> (r: i64)
    requires
        0 <= v <= COORD_LIMIT,
        0 <= m <= 2000,
    ensures
        r == scale_spec(v, m),
        0 <= r <= 2 * v,
        m <= 1000 ==> r <= v,
{
    proof {
        assert(0 <= v * m <= COORD_LIMIT * 2000) by (nonlinear_arith)
            requires
                0 <= v <= COORD_LIMIT && 0 <= m <= 2000,
        ;
        assert(v * m <= v * 2000) by (nonlinear_arith)
            requires
                0 <= v && 0 <= m <= 2000,
        ;
        assert((v * 2000) / 1000 == 2 * v) by (nonlinear_arith);
        vstd::arithmetic::div_mod::lemma_div_is_ordered(0, v * m, 1000);
        vstd::arithmetic::div_mod::lemma_div_is_ordered(v * m, v * 2000, 1000);
        if m <= 1000 {
            assert(v * m <= v * 1000) by (nonlinear_arith)
                requires
                    0 <= v && 0 <= m <= 1000,
            ;
            vstd::arithmetic::div_mod::lemma_div_is_ordered(v * m, v * 1000, 1000);
            assert((v * 1000) / 1000 == v);
        }
    }
    (v * m) / 1000
}

/// A length scaled by half, truncated towards zero, for lengths of either
/// sign.
pub open spec fn half_spec(v: i64) -> int {
    if v >= 0 {
        scale_spec(v, 500)
    } else {
        -scale_spec((-v) as i64, 500)
    }
}

/// Halves a length of either sign, truncating towards zero.
pub fn half(v: i64) -> (r: i64)
    requires
        -COORD_LIMIT <= v <= COORD_LIMIT,
    ensures
        r == half_spec(v),
        -COORD_LIMIT <= r <= COORD_LIMIT,
{
    if v >= 0 {
        scale(v, 500)
    } else {
        let s: i64 = scale(-v, 500);
        -s
    }
}

} // verus!
