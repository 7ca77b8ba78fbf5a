//! Rate-limited 3-D velocity: the manual-control target is approached with
//! the per-tick step clamped to the configured acceleration in Euclidean
//! norm.

use vstd::prelude::*;

use crate::config::Config;
use crate::units::{div_pos, sqrt_floor, FIX_LIMIT};

verus! {

/// The velocity a rate-limited follower holds after one tick: the previous
/// value stepped toward `target` by at most `limit` in Euclidean norm,
/// component `i`.
pub open spec fn vel_step(vec: Seq<i64>, target: Seq<i64>, limit: int, i: int) -> int {
    let dx = target[0] - vec[0];
    let dy = target[1] - vec[1];
    let dz = target[2] - vec[2];
    let len = sqrt_floor(dx * dx + dy * dy + dz * dz);
    let di = target[i] - vec[i];
    if len <= limit {
        target[i] as int
    } else {
        vec[i] + div_pos(di * limit, len)
    }
}

/// A 3-D velocity that chases its target under an acceleration cap.
#[derive(Debug, PartialEq, Clone, Copy)]
pub struct RateLimitedVelocity {
    /// The current velocity, micro-metres per second.
    pub vec: [i64; 3],
}

impl RateLimitedVelocity {
    /// Every component within fixed-point range.
    pub open spec fn well_formed(&self) -> bool {
        forall|i: int| 0 <= i < 3 ==> -FIX_LIMIT <= #[trigger] self.vec[i] <= FIX_LIMIT
    }

    /// At rest.
    pub fn new() -> (r: RateLimitedVelocity)
        ensures
            r.well_formed(),
            r.vec@ == seq![0i64, 0i64, 0i64],
    {
        RateLimitedVelocity { vec: [0, 0, 0] }
    }

    /// The current velocity.
    pub fn get(&self) -> (r: [i64; 3])
        ensures
            r == self.vec,
    {
        self.vec
    }

    /// Step toward `target`, moving at most the per-tick acceleration
    /// budget in Euclidean norm.  Reaching inside the budget lands exactly
    /// on the target.
    pub fn tick(&mut self, config: &Config, target: [i64; 3])
        requires
            old(self).well_formed(),
            config.well_formed(),
            forall|i: int| 0 <= i < 3 ==> -FIX_LIMIT <= #[trigger] target[i] <= FIX_LIMIT,
            config.params.accel_limit_m_per_sec2 >= 0,
        ensures
            final(self).well_formed(),
            ({
                let limit = div_pos(
                    config.params.accel_limit_m_per_sec2 as int,
                    crate::message::TICK_HZ as int,
                );
                forall|i: int|
                    0 <= i < 3 ==> final(self).vec[i] == vel_step(
                        old(self).vec@,
                        target@,
                        limit,
                        i,
                    )
            }),
    {
        let limit: i64 = config.params.accel_limit_m_per_sec2 / (crate::message::TICK_HZ as i64);
        let dx: i64 = target[0] - self.vec[0];
        let dy: i64 = target[1] - self.vec[1];
        let dz: i64 = target[2] - self.vec[2];
        proof {
            assert(dx * dx <= 4_000_000_000_000_000_000_000_000 && dx * dx >= 0) by (
            nonlinear_arith)
                requires
                    -2_000_000_000_000 <= dx <= 2_000_000_000_000,
            ;
            assert(dy * dy <= 4_000_000_000_000_000_000_000_000 && dy * dy >= 0) by (
            nonlinear_arith)
                requires
                    -2_000_000_000_000 <= dy <= 2_000_000_000_000,
            ;
            assert(dz * dz <= 4_000_000_000_000_000_000_000_000 && dz * dz >= 0) by (
            nonlinear_arith)
                requires
                    -2_000_000_000_000 <= dz <= 2_000_000_000_000,
            ;
        }
        let sq: u128 = (dx as i128 * dx as i128) as u128 + (dy as i128 * dy as i128) as u128 + (dz
            as i128 * dz as i128) as u128;
        let len: u128 = crate::units::isqrt_u128(sq);
        if len <= limit as u128 {
            self.vec = target;
        } else {
            proof {
                assert(sq <= 12_000_000_000_000_000_000_000_000);
                assert(len <= 4_000_000_000_000) by (nonlinear_arith)
                    requires
                        (len as int) * (len as int) <= sq,
                        sq <= 12_000_000_000_000_000_000_000_000,
                        len >= 0,
                ;
                assert(len > 0);
                assert(dx * dx <= sq && dy * dy <= sq && dz * dz <= sq);
                assert(dx <= len && -dx <= len) by (nonlinear_arith)
                    requires
                        dx * dx <= sq,
                        (len as int) * (len as int) <= sq,
                        sq < (len as int + 1) * (len as int + 1),
                        len >= 0,
                ;
                assert(dy <= len && -dy <= len) by (nonlinear_arith)
                    requires
                        dy * dy <= sq,
                        (len as int) * (len as int) <= sq,
                        sq < (len as int + 1) * (len as int + 1),
                        len >= 0,
                ;
                assert(dz <= len && -dz <= len) by (nonlinear_arith)
                    requires
                        dz * dz <= sq,
                        (len as int) * (len as int) <= sq,
                        sq < (len as int + 1) * (len as int + 1),
                        len >= 0,
                ;
            }
            let cx = scale_component(dx, limit, len as i64);
            let cy = scale_component(dy, limit, len as i64);
            let cz = scale_component(dz, limit, len as i64);
            let v0 = self.vec[0] + cx;
            let v1 = self.vec[1] + cy;
            let v2 = self.vec[2] + cz;
            proof {
                lemma_step_stays_bounded(self.vec@[0] as int, target@[0] as int, cx as int);
                lemma_step_stays_bounded(self.vec@[1] as int, target@[1] as int, cy as int);
                lemma_step_stays_bounded(self.vec@[2] as int, target@[2] as int, cz as int);
            }
            self.vec = [v0, v1, v2];
        }
    }
}

/// `d * limit / len`, truncated toward zero; its magnitude stays within
/// both `limit` and `|d|`.
fn scale_component(d: i64, limit: i64, len: i64) -> (r: i64)
    requires
        len > 0,
        limit >= 0,
        -len <= d <= len,
        limit < len,
        -2_000_000_000_000 <= d <= 2_000_000_000_000,
        limit <= FIX_LIMIT,
    ensures
        r == div_pos(d * limit, len as int),
        -limit <= r <= limit,
        d >= 0 ==> 0 <= r <= d,
        d <= 0 ==> d <= r <= 0,
{
    proof {
        assert(-2_000_000_000_000_000_000_000_000 <= d as int * limit
            <= 2_000_000_000_000_000_000_000_000) by (nonlinear_arith)
            requires
                -2_000_000_000_000 <= d <= 2_000_000_000_000,
                0 <= limit <= 1_000_000_000_000,
        ;
    }
    let p: i128 = (d as i128) * (limit as i128);
    let q = crate::units::i128_div_trunc(p, len as i128);
    proof {
        assert(-(limit as int * len) <= d * limit <= limit as int * len) by (nonlinear_arith)
            requires
                -len <= d <= len,
                0 <= limit,
        ;
        crate::units::lemma_div_pos_mag(p as int, len as int, limit as int);
        if d >= 0 {
            assert(-(d * len) <= d * limit <= d * len) by (nonlinear_arith)
                requires
                    d >= 0,
                    0 <= limit,
                    limit < len,
            ;
            crate::units::lemma_div_pos_mag(p as int, len as int, d as int);
            assert(d * limit >= 0) by (nonlinear_arith)
                requires
                    d >= 0,
                    limit >= 0,
            ;
            assert((d * limit) / (len as int) >= 0) by (nonlinear_arith)
                requires
                    d * limit >= 0,
                    len > 0,
            ;
        } else {
            assert(-((-d) * len) <= d * limit <= (-d) * len) by (nonlinear_arith)
                requires
                    d < 0,
                    0 <= limit,
                    limit < len,
            ;
            crate::units::lemma_div_pos_mag(p as int, len as int, -d as int);
            assert(d * limit <= 0) by (nonlinear_arith)
                requires
                    d < 0,
                    limit >= 0,
            ;
            assert((-(d * limit)) / (len as int) >= 0) by (nonlinear_arith)
                requires
                    -(d * limit) >= 0,
                    len > 0,
            ;
        }
    }
    q as i64
}

/// Stepping from `v` toward `t` by a move no larger than the gap keeps the
/// result between them, hence inside fixed-point range.
proof fn lemma_step_stays_bounded(v: int, t: int, c: int)
    requires
        -FIX_LIMIT <= v <= FIX_LIMIT,
        -FIX_LIMIT <= t <= FIX_LIMIT,
        t >= v ==> 0 <= c <= t - v,
        t < v ==> t - v <= c <= 0,
    ensures
        -FIX_LIMIT <= v + c <= FIX_LIMIT,
{
}

} // verus!
