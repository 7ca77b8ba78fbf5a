//! Rectangle arithmetic in camera coordinates.
//!
//! A rectangle is `[left, top, width, height]` in fixed-point micro-units.

use vstd::prelude::*;

use crate::units::{FIX_LIMIT, MICRO};

verus! {

/// Left edge.
pub open spec fn rect_left(r: [i64; 4]) -> int {
    r[0] as int
}

/// Top edge.
pub open spec fn rect_top(r: [i64; 4]) -> int {
    r[1] as int
}

/// Right edge.
pub open spec fn rect_right(r: [i64; 4]) -> int {
    r[0] + r[2]
}

/// Bottom edge.
pub open spec fn rect_bottom(r: [i64; 4]) -> int {
    r[1] + r[3]
}

/// Every coordinate within fixed-point range.
pub open spec fn rect_fits(r: [i64; 4]) -> bool {
    forall|i: int| 0 <= i < 4 ==> -FIX_LIMIT <= #[trigger] r[i] <= FIX_LIMIT
}

/// The rectangle's area in micro-units, saturated to the fixed-point range.
pub fn rect_area(r: &[i64; 4]) -> (a: i64)
    requires
        rect_fits(*r),
    ensures
        a == crate::winch::clamp_spec(
            crate::units::fix_mul_spec(r[2] as int, r[3] as int),
            -FIX_LIMIT as int,
            FIX_LIMIT as int,
        ),
{
    let raw = crate::units::fix_mul(r[2], r[3]);
    crate::units::clamp_i64(raw, -FIX_LIMIT, FIX_LIMIT)
}

/// The rectangle moved by a 2-D offset, its size kept.
pub fn rect_translate(r: &[i64; 4], tr: [i64; 2]) -> (o: [i64; 4])
    requires
        rect_fits(*r),
        -FIX_LIMIT <= tr[0] <= FIX_LIMIT,
        -FIX_LIMIT <= tr[1] <= FIX_LIMIT,
    ensures
        o[0] == r[0] + tr[0],
        o[1] == r[1] + tr[1],
        o[2] == r[2],
        o[3] == r[3],
{
    [r[0] + tr[0], r[1] + tr[1], r[2], r[3]]
}

/// The centre point of a rectangle, halves truncated toward zero.
pub fn rect_center(r: &[i64; 4]) -> (c: [i64; 2])
    requires
        rect_fits(*r),
    ensures
        c[0] == r[0] + crate::units::div_q(r[2] as int, 2),
        c[1] == r[1] + crate::units::div_q(r[3] as int, 2),
{
    let hx: i64 = if r[2] >= 0 {
        r[2] / 2
    } else {
        -((-r[2]) / 2)
    };
    let hy: i64 = if r[3] >= 0 {
        r[3] / 2
    } else {
        -((-r[3]) / 2)
    };
    [r[0] + hx, r[1] + hy]
}

/// A `width` by `height` rectangle centred on the origin.
pub fn rect_centered_on_origin(width: i64, height: i64) -> (o: [i64; 4])
    requires
        -FIX_LIMIT <= width <= FIX_LIMIT,
        -FIX_LIMIT <= height <= FIX_LIMIT,
    ensures
        o[0] == -crate::units::div_q(width as int, 2),
        o[1] == -crate::units::div_q(height as int, 2),
        o[2] == width,
        o[3] == height,
{
    let hx: i64 = if width >= 0 {
        width / 2
    } else {
        -((-width) / 2)
    };
    let hy: i64 = if height >= 0 {
        height / 2
    } else {
        -((-height) / 2)
    };
    [-hx, -hy, width, height]
}

/// The rectangle kept inside `container` without resizing, except that a
/// rectangle larger than the container is shrunk to fit.
pub fn rect_constrain(input: &[i64; 4], container: &[i64; 4]) -> (o: [i64; 4])
    requires
        rect_fits(*input),
        rect_fits(*container),
    ensures
        o[2] == if input[2] < container[2] {
            input[2] as int
        } else {
            container[2] as int
        },
        o[3] == if input[3] < container[3] {
            input[3] as int
        } else {
            container[3] as int
        },
        o[0] == crate::winch::clamp_spec(
            input[0] as int,
            rect_left(*container),
            rect_right(*container) - o[2],
        ),
        o[1] == crate::winch::clamp_spec(
            input[1] as int,
            rect_top(*container),
            rect_bottom(*container) - o[3],
        ),
        forall|i: int| 0 <= i < 4 ==> -2 * FIX_LIMIT <= #[trigger] o[i] <= 2 * FIX_LIMIT,
{
    let w: i64 = if input[2] < container[2] {
        input[2]
    } else {
        container[2]
    };
    let h: i64 = if input[3] < container[3] {
        input[3]
    } else {
        container[3]
    };
    let x = clamp_lo_hi(input[0], container[0], container[0] + container[2] - w);
    let y = clamp_lo_hi(input[1], container[1], container[1] + container[3] - h);
    [x, y, w, h]
}

/// Raise to `lo`, then cap at `hi`, as chained max-then-min does; the cap
/// wins when the bounds cross.
fn clamp_lo_hi(v: i64, lo: i64, hi: i64) -> (r: i64)
    ensures
        r == ({
            let m = if v > lo {
                v as int
            } else {
                lo as int
            };
            if m < hi {
                m
            } else {
                hi as int
            }
        }),
        lo <= hi ==> r == crate::winch::clamp_spec(v as int, lo as int, hi as int),
{
    let m = if v > lo {
        v
    } else {
        lo
    };
    if m < hi {
        m
    } else {
        hi
    }
}

} // verus!
