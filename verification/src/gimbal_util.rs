//! Modular arithmetic on the gimbal's 4096-count encoder circle.

use vstd::prelude::*;

verus! {

/// Number of encoder counts in one full revolution.
pub const ENCODER_RANGE: i16 = 4096;

/// The centered representative of `x` modulo 4096: the unique value in
/// `(-2048, 2048]` congruent to `x`.
pub open spec fn encoder_centered(x: int) -> int {
    let m = x % 4096;
    if m > 2048 {
        m - 4096
    } else {
        m
    }
}

/// Signed difference between two encoder angles on the 4096-count circle:
/// exactly the centered representative of `a - b`.
pub fn encoder_sub(a: i16, b: i16) -> (r: i16)
    ensures
        r == encoder_centered(a - b),
        -2048 < r <= 2048,
        (a - b - r) % 4096 == 0,
{
    let d: i32 = a as i32 - b as i32;
    let m: i32 = if d >= 0 {
        d % 4096
    } else {
        let neg = (-d) % 4096;
        if neg == 0 {
            0
        } else {
            4096 - neg
        }
    };
    proof {
        assert(m == (a - b) % 4096) by {
            if d < 0 {
                vstd::arithmetic::div_mod::lemma_mod_neg_neg(d as int, 4096);
            }
        }
    }
    let c: i32 = if m > 2048 {
        m - 4096
    } else {
        m
    };
    c as i16
}

/// Per-axis `encoder_sub` over a yaw/pitch pair.
pub fn vec2_encoder_sub(a: [i16; 2], b: [i16; 2]) -> (r: [i16; 2])
    ensures
        r[0] == encoder_centered(a[0] - b[0]),
        r[1] == encoder_centered(a[1] - b[1]),
        forall|i: int| 0 <= i < 2 ==> -2048 < #[trigger] r[i] <= 2048,
{
    let r = [encoder_sub(a[0], b[0]), encoder_sub(a[1], b[1])];
    proof {
        assert(r[0] == r@[0] && r[1] == r@[1]);
    }
    r
}

} // verus!
