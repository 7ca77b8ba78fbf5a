//! The gimbal tracking, hold and limiter pipeline.
//!
//! Each tick reads cached gimbal values (requesting refreshes through the
//! value scheduler), runs the tracking gains against the tracked region's
//! distance to the border, layers the hold controller on top, passes the
//! combined rate through the endstop limiter and the overall rate clamp,
//! and writes the two-axis control rate.  Stale cached inputs pause
//! tracking for the tick and zero rates go out instead.

use vstd::prelude::*;

use crate::config::{Config, ControllerMode, GimbalTrackingGain};
use crate::gimbal_poller::GimbalPort;
use crate::gimbal_protocol::{motor_status, target, values, NUM_AXES, NUM_VALUES};
use crate::gimbal_util::{encoder_centered, vec2_encoder_sub};
use crate::message::{CameraTrackedRegion, GimbalControlStatus, GimbalValueData};
use crate::units::{clamp_i64, fix_mul, fix_mul_spec, FIX_LIMIT, MICRO};
use crate::winch::{clamp_spec, round_to_unit_spec};

verus! {

/// How a cached value is kept fresh.
#[derive(Debug, PartialEq, Eq, Structural, Clone, Copy)]
pub enum RequestType {
    /// Polled continuously; stale after a quarter second.
    Continuous,
    /// Re-requested every few seconds; stale after five.
    Infrequent,
}

/// The age past which a cached value no longer supports control.
pub open spec fn rtype_max_age(rtype: RequestType) -> u64 {
    match rtype {
        RequestType::Continuous => 250,
        RequestType::Infrequent => 5000,
    }
}

/// One slot of the controller's value cache.
#[derive(Debug, PartialEq, Clone, Copy)]
pub struct GimbalValueState {
    /// When this slot was last requested, milliseconds.
    pub last_requested: Option<u64>,
    /// The freshest value and its arrival time.
    pub last_update: Option<(u64, GimbalValueData)>,
}

impl GimbalValueState {
    /// An empty slot.
    pub fn new() -> (r: GimbalValueState)
        ensures
            r.last_requested is None,
            r.last_update is None,
    {
        GimbalValueState { last_requested: None, last_update: None }
    }

    /// Whether the slot is due for another request, renewing the request
    /// time when it is.
    pub fn poll_for_request(&mut self, now_millis: u64, interval_millis: u64) -> (r: bool)
        ensures
            r == match old(self).last_requested {
                None => true,
                Some(t) => now_millis > t + interval_millis,
            },
            r ==> final(self).last_requested == Some(now_millis),
            !r ==> *final(self) == *old(self),
            final(self).last_update == old(self).last_update,
    {
        let needs_request = match self.last_requested {
            None => true,
            Some(t) => {
                if t <= u64::MAX - interval_millis {
                    now_millis > t + interval_millis
                } else {
                    false
                }
            },
        };
        if needs_request {
            self.last_requested = Some(now_millis);
            true
        } else {
            false
        }
    }

    /// The cached value, or zero with the stale flag raised when nothing
    /// fresh enough is cached.  The flag is never lowered.
    pub fn value_with_max_age(&self, now_millis: u64, max_age_millis: u64, stale_flag: &mut bool)
        -> (r: i16)
        ensures
            match self.last_update {
                None => r == 0 && *final(stale_flag),
                Some((t, data)) => r == data.value && *final(stale_flag) == (*old(stale_flag)
                    || now_millis > t + max_age_millis),
            },
            *old(stale_flag) ==> *final(stale_flag),
    {
        match self.last_update {
            None => {
                *stale_flag = true;
                0
            },
            Some((t, data)) => {
                let expired = if t <= u64::MAX - max_age_millis {
                    now_millis > t + max_age_millis
                } else {
                    false
                };
                if expired {
                    *stale_flag = true;
                }
                data.value
            },
        }
    }
}

/// Where a (value, target) pair lives in the value-major cache.
pub open spec fn slot_of(index: u8, target_id: u8) -> int {
    index * NUM_AXES + target_id
}

/// The cached value of a slot, zero while nothing is cached.
pub open spec fn cached_value(cache: Seq<GimbalValueState>, slot: int) -> i16 {
    match cache[slot].last_update {
        None => 0,
        Some((_, data)) => data.value,
    }
}

/// Whether a slot's cached value is missing or older than `max_age`.
pub open spec fn slot_stale(cache: Seq<GimbalValueState>, slot: int, now_millis: u64, max_age: u64) -> bool {
    match cache[slot].last_update {
        None => true,
        Some((t, _)) => now_millis > t + max_age,
    }
}

/// Whether any input the tick consults is too old to act on: the supply
/// voltage, centre calibration and motor status within five seconds, the
/// encoder angles and motor currents within a quarter second.
pub open spec fn tick_inputs_stale(cache: Seq<GimbalValueState>, now_millis: u64) -> bool {
    ||| slot_stale(cache, slot_of(values::SUPPLY_VOLTAGE, target::IMU_ADJACENT), now_millis, 5000)
    ||| slot_stale(cache, slot_of(values::CALIBRATION_ANGLE_0_CENTER, target::YAW), now_millis, 5000)
    ||| slot_stale(cache, slot_of(values::CALIBRATION_ANGLE_0_CENTER, target::PITCH), now_millis, 5000)
    ||| slot_stale(cache, slot_of(values::ENCODER_ANGLE, target::YAW), now_millis, 250)
    ||| slot_stale(cache, slot_of(values::ENCODER_ANGLE, target::PITCH), now_millis, 250)
    ||| slot_stale(cache, slot_of(values::MOTOR_FILTERED_CURRENT, target::YAW), now_millis, 250)
    ||| slot_stale(cache, slot_of(values::MOTOR_FILTERED_CURRENT, target::ROLL), now_millis, 250)
    ||| slot_stale(cache, slot_of(values::MOTOR_FILTERED_CURRENT, target::PITCH), now_millis, 250)
    ||| slot_stale(cache, slot_of(values::MOTOR_STATUS_FLAGS, target::YAW), now_millis, 5000)
    ||| slot_stale(cache, slot_of(values::MOTOR_STATUS_FLAGS, target::ROLL), now_millis, 5000)
    ||| slot_stale(cache, slot_of(values::MOTOR_STATUS_FLAGS, target::PITCH), now_millis, 5000)
}

/// The border-edge error of one tracking gain entry: how far the region
/// sits inside the entry's width of the lower edge, less the same for the
/// upper edge, saturated to fixed-point range.
pub open spec fn edge_err_spec(width: int, lower_dist: int, upper_dist: int) -> int {
    let lo = if width - lower_dist > 0 {
        width - lower_dist
    } else {
        0
    };
    let hi = if width - upper_dist > 0 {
        width - upper_dist
    } else {
        0
    };
    clamp_spec(lo - hi, -FIX_LIMIT as int, FIX_LIMIT as int)
}

/// One integrator step: a halt or reversal first decays the accumulator,
/// then the error is added, and the result saturates to fixed-point range.
pub open spec fn integrator_step_spec(i_state: int, err: int, decay: int) -> int {
    let decayed = if i_state * err <= 0 {
        i_state - fix_mul_spec(i_state, decay)
    } else {
        i_state
    };
    clamp_spec(decayed + err, -FIX_LIMIT as int, FIX_LIMIT as int)
}

/// The integrator of gain entry `k` after this tick.
pub open spec fn integrator_at(
    old_i: Seq<i64>,
    gains: Seq<GimbalTrackingGain>,
    decay: int,
    lower_dist: int,
    upper_dist: int,
    k: int,
) -> int {
    integrator_step_spec(
        if k < old_i.len() {
            old_i[k] as int
        } else {
            0int
        },
        edge_err_spec(gains[k].width as int, lower_dist, upper_dist),
        decay,
    )
}

/// The proportional rate the gain ladder sums from entry `j` on.
pub open spec fn tracking_p_sum(
    gains: Seq<GimbalTrackingGain>,
    lower_dist: int,
    upper_dist: int,
    j: int,
) -> int
    decreases gains.len() - j,
{
    if j < 0 || j >= gains.len() {
        0
    } else {
        fix_mul_spec(
            edge_err_spec(gains[j].width as int, lower_dist, upper_dist),
            gains[j].p_gain as int,
        ) + tracking_p_sum(gains, lower_dist, upper_dist, j + 1)
    }
}

/// The integral rate the gain ladder sums from entry `j` on, over the
/// stepped integrators.
pub open spec fn tracking_i_sum(
    gains: Seq<GimbalTrackingGain>,
    old_i: Seq<i64>,
    decay: int,
    lower_dist: int,
    upper_dist: int,
    j: int,
) -> int
    decreases gains.len() - j,
{
    if j < 0 || j >= gains.len() {
        0
    } else {
        fix_mul_spec(
            integrator_at(old_i, gains, decay, lower_dist, upper_dist, j),
            gains[j].i_gain as int,
        ) + tracking_i_sum(gains, old_i, decay, lower_dist, upper_dist, j + 1)
    }
}

/// The tracked region's distance to each border edge, saturated:
/// (left, top, right, bottom).
pub open spec fn border_dists(border: [i64; 4], rect: [i64; 4]) -> (int, int, int, int) {
    (
        clamp_spec(rect[0] - border[0], -FIX_LIMIT as int, FIX_LIMIT as int),
        clamp_spec(rect[1] - border[1], -FIX_LIMIT as int, FIX_LIMIT as int),
        clamp_spec(
            (border[0] + border[2]) - (rect[0] + rect[2]),
            -FIX_LIMIT as int,
            FIX_LIMIT as int,
        ),
        clamp_spec(
            (border[1] + border[3]) - (rect[1] + rect[3]),
            -FIX_LIMIT as int,
            FIX_LIMIT as int,
        ),
    )
}

/// The endstop limiter for one axis.  `angle`, `lower` and `upper` are
/// encoder counts; `rate`, `ext`, `gain` and `max_rate` are micro-units.
/// Past a limit the rate is clipped toward the limit and a spring
/// proportional to the overshoot is added; inside a limit's slowdown band
/// the rate toward that limit is capped in proportion to the remaining
/// distance.
pub open spec fn limiter_axis_spec(
    rate: int,
    angle: int,
    lower: int,
    upper: int,
    ext: int,
    gain: int,
    max_rate: int,
) -> int {
    if angle < lower {
        (if rate > 0 {
            rate
        } else {
            0
        }) + (lower - angle) * gain
    } else if angle > upper {
        (if rate < 0 {
            rate
        } else {
            0
        }) + (upper - angle) * gain
    } else if (angle - lower) * MICRO < ext {
        let speed_limit = crate::units::div_pos((angle - lower) * MICRO * max_rate, ext);
        if rate > -speed_limit {
            rate
        } else {
            -speed_limit
        }
    } else if (upper - angle) * MICRO < ext {
        let speed_limit = crate::units::div_pos((upper - angle) * MICRO * max_rate, ext);
        if rate < speed_limit {
            rate
        } else {
            speed_limit
        }
    } else {
        rate
    }
}

/// The endstop limiter for one axis, executably.
pub fn limiter_axis(rate: i64, angle: i16, lower: i16, upper: i16, ext: i64, gain: i64, max_rate: i64)
    -> (r: i64)
    requires
        -FIX_LIMIT <= rate <= FIX_LIMIT,
        0 <= ext <= FIX_LIMIT,
        0 <= gain <= FIX_LIMIT,
        0 <= max_rate <= FIX_LIMIT,
    ensures
        r == limiter_axis_spec(
            rate as int,
            angle as int,
            lower as int,
            upper as int,
            ext as int,
            gain as int,
            max_rate as int,
        ),
        -132_000_000_000_000_000 <= r <= 132_000_000_000_000_000,
{
    if angle < lower {
        proof {
            assert(0 <= (lower - angle) * gain <= 131_072_000_000_000_000) by (nonlinear_arith)
                requires
                    0 < lower - angle <= 131072,
                    0 <= gain <= FIX_LIMIT,
                    FIX_LIMIT == 1_000_000_000_000,
            ;
        }
        let spring = (lower as i64 - angle as i64) * gain;
        (if rate > 0 {
            rate
        } else {
            0
        }) + spring
    } else if angle > upper {
        proof {
            assert(-131_072_000_000_000_000 <= (upper - angle) * gain <= 0) by (nonlinear_arith)
                requires
                    -131072 <= upper - angle < 0,
                    0 <= gain <= FIX_LIMIT,
                    FIX_LIMIT == 1_000_000_000_000,
            ;
        }
        let spring = (upper as i64 - angle as i64) * gain;
        (if rate < 0 {
            rate
        } else {
            0
        }) + spring
    } else {
        let lo_gap: i64 = (angle as i64 - lower as i64) * MICRO;
        let hi_gap: i64 = (upper as i64 - angle as i64) * MICRO;
        if lo_gap < ext {
            let speed_limit = slowdown_limit(lo_gap, ext, max_rate);
            if rate > -speed_limit {
                rate
            } else {
                -speed_limit
            }
        } else if hi_gap < ext {
            let speed_limit = slowdown_limit(hi_gap, ext, max_rate);
            if rate < speed_limit {
                rate
            } else {
                speed_limit
            }
        } else {
            rate
        }
    }
}

/// `gap * max_rate / ext` for a gap inside the band: never above
/// `max_rate`.
fn slowdown_limit(gap: i64, ext: i64, max_rate: i64) -> (r: i64)
    requires
        0 <= gap < ext,
        ext <= FIX_LIMIT,
        0 <= max_rate <= FIX_LIMIT,
    ensures
        r == crate::units::div_pos(gap * max_rate, ext as int),
        0 <= r <= max_rate,
{
    proof {
        assert(0 <= gap * max_rate && gap * max_rate <= max_rate as int * ext && gap * max_rate
            <= 1_000_000_000_000_000_000_000_000) by (nonlinear_arith)
            requires
                0 <= gap < ext,
                0 <= max_rate,
                ext <= 1_000_000_000_000,
                max_rate <= 1_000_000_000_000,
        ;
    }
    let p: i128 = (gap as i128) * (max_rate as i128);
    let q = crate::units::i128_div_trunc(p, ext as i128);
    proof {
        crate::units::lemma_div_pos_mag(p as int, ext as int, max_rate as int);
        assert((gap * max_rate) >= 0 ==> crate::units::div_pos(gap * max_rate, ext as int) >= 0)
            by {
            assert((gap * max_rate) / (ext as int) >= 0) by (nonlinear_arith)
                requires
                    gap * max_rate >= 0,
                    ext > 0,
            ;
        }
    }
    q as i64
}

/// Law: the endstop limiter contains the angle.  For any commanded rate,
/// an angle inside its limits stays inside them over one tick of motion at
/// the limited rate — even after the rate is scaled down (sign kept) by
/// the overall rate clamp.  The slowdown band must be at least as wide as
/// one tick at full rate, and the band plus that tick must fit between the
/// limits; a zero-width band (`ext` = 0) with a nonzero `max_rate` breaks
/// the law, since nothing then slows the gimbal before the limit.
pub proof fn lemma_endstop_containment(
    rate: int,
    angle: int,
    lower: int,
    upper: int,
    ext: int,
    gain: int,
    max_rate: int,
    r: int,
)
    requires
        lower <= angle <= upper,
        0 <= gain,
        0 <= max_rate <= ext,
        (upper - lower) * MICRO >= ext + max_rate,
        ({
            let limited = limiter_axis_spec(rate, angle, lower, upper, ext, gain, max_rate);
            (0 <= r <= limited || limited <= r <= 0) && -max_rate <= r <= max_rate
        }),
    ensures
        lower * MICRO <= angle * MICRO + r <= upper * MICRO,
{
    let limited = limiter_axis_spec(rate, angle, lower, upper, ext, gain, max_rate);
    let lo_gap = (angle - lower) * MICRO;
    let hi_gap = (upper - angle) * MICRO;
    assert(lo_gap >= 0 && hi_gap >= 0) by (nonlinear_arith)
        requires
            lower <= angle <= upper,
            lo_gap == (angle - lower) * MICRO,
            hi_gap == (upper - angle) * MICRO,
            MICRO == 1_000_000,
    ;
    assert(lo_gap + hi_gap == (upper - lower) * MICRO) by (nonlinear_arith)
        requires
            lo_gap == (angle - lower) * MICRO,
            hi_gap == (upper - angle) * MICRO,
    ;

    // Lower side: the rate never undershoots the distance to the limit.
    if lo_gap < ext {
        let speed_limit = crate::units::div_pos(lo_gap * max_rate, ext);
        assert(0 <= lo_gap * max_rate <= lo_gap * ext) by (nonlinear_arith)
            requires
                0 <= lo_gap,
                0 <= max_rate <= ext,
        ;
        assert(speed_limit <= lo_gap) by {
            assert((lo_gap * max_rate) / ext <= lo_gap) by (nonlinear_arith)
                requires
                    0 <= lo_gap * max_rate <= lo_gap * ext,
                    ext > 0,
                    lo_gap >= 0,
            ;
        }
        assert(limited >= -speed_limit);
        assert(r >= -lo_gap);
    } else {
        assert(r >= -max_rate && max_rate <= ext <= lo_gap);
    }

    // Upper side.
    if lo_gap < ext {
        // The upper gap clears the band and a full-rate tick.
        assert(hi_gap >= max_rate);
        assert(r <= hi_gap);
    } else if hi_gap < ext {
        let speed_limit = crate::units::div_pos(hi_gap * max_rate, ext);
        assert(0 <= hi_gap * max_rate <= hi_gap * ext) by (nonlinear_arith)
            requires
                0 <= hi_gap,
                0 <= max_rate <= ext,
        ;
        assert(speed_limit <= hi_gap) by {
            assert((hi_gap * max_rate) / ext <= hi_gap) by (nonlinear_arith)
                requires
                    0 <= hi_gap * max_rate <= hi_gap * ext,
                    ext > 0,
                    hi_gap >= 0,
            ;
        }
        assert(limited <= speed_limit);
        assert(r <= hi_gap);
    } else {
        assert(r <= max_rate && max_rate <= ext <= hi_gap);
    }
}

/// The tracking rates the ladder produces for one axis.
pub open spec fn axis_rates_spec(
    gains: Seq<GimbalTrackingGain>,
    old_i: Seq<i64>,
    decay: int,
    lower_dist: int,
    upper_dist: int,
) -> (int, int) {
    (
        clamp_spec(
            tracking_p_sum(gains, lower_dist, upper_dist, 0),
            -FIX_LIMIT as int,
            FIX_LIMIT as int,
        ),
        clamp_spec(
            tracking_i_sum(gains, old_i, decay, lower_dist, upper_dist, 0),
            -FIX_LIMIT as int,
            FIX_LIMIT as int,
        ),
    )
}

/// The decided rates follow the pipeline: tracking plus hold (tracking
/// zeroed while halted), the endstop limiter per axis, the shared-factor
/// rate clamp, and rounding with some dither of up to half a unit.
pub open spec fn rates_pipeline(
    config: Config,
    angles: [i16; 2],
    tp: [i64; 2],
    ti: [i64; 2],
    hp: [i64; 2],
    hi_r: [i64; 2],
    rates: [i16; 2],
) -> bool {
    let halted = config.mode == ControllerMode::Halted;
    let tx = if halted {
        0int
    } else {
        clamp_spec(tp[0] + ti[0], -FIX_LIMIT as int, FIX_LIMIT as int)
    };
    let ty = if halted {
        0int
    } else {
        clamp_spec(tp[1] + ti[1], -FIX_LIMIT as int, FIX_LIMIT as int)
    };
    let hx = clamp_spec(hp[0] + hi_r[0], -FIX_LIMIT as int, FIX_LIMIT as int);
    let hy = clamp_spec(hp[1] + hi_r[1], -FIX_LIMIT as int, FIX_LIMIT as int);
    let l0 = limiter_axis_spec(
        clamp_spec(tx + hx, -FIX_LIMIT as int, FIX_LIMIT as int),
        angles[0] as int,
        config.gimbal.yaw_limits.lower as int,
        config.gimbal.yaw_limits.upper as int,
        config.gimbal.limiter_slowdown_extent[0] as int,
        config.gimbal.limiter_gain as int,
        config.gimbal.max_rate as int,
    );
    let l1 = limiter_axis_spec(
        clamp_spec(ty + hy, -FIX_LIMIT as int, FIX_LIMIT as int),
        angles[1] as int,
        config.gimbal.pitch_limits.lower as int,
        config.gimbal.pitch_limits.upper as int,
        config.gimbal.limiter_slowdown_extent[1] as int,
        config.gimbal.limiter_gain as int,
        config.gimbal.max_rate as int,
    );
    exists|c0: int, c1: int, d0: int, d1: int|
        #![trigger round_to_unit_spec(c0 + d0), round_to_unit_spec(c1 + d1)]
        {
            &&& clamped_toward_zero(l0, c0, config.gimbal.max_rate as int)
            &&& clamped_toward_zero(l1, c1, config.gimbal.max_rate as int)
            &&& (l0 * l0 + l1 * l1 < config.gimbal.max_rate * config.gimbal.max_rate ==> c0 == l0
                && c1 == l1)
            &&& -500_000 <= d0 <= 500_000
            &&& -500_000 <= d1 <= 500_000
            &&& rates[0] == clamp_spec(round_to_unit_spec(c0 + d0), -32768, 32767)
            &&& rates[1] == clamp_spec(round_to_unit_spec(c1 + d1), -32768, 32767)
        }
}

/// `c` is `l` shrunk toward zero, within the clamp limit.
pub open spec fn clamped_toward_zero(l: int, c: int, limit: int) -> bool {
    &&& -limit <= c <= limit
    &&& (0 <= c <= l || l <= c <= 0)
}

/// The gimbal controller's own state.
pub struct GimbalController {
    /// Cache of gimbal values, indexed value-major: slot `index * NUM_AXES
    /// + target`.
    pub values: Vec<GimbalValueState>,
    /// Per-gain tracking integrators, yaw.
    pub yaw_tracking_i: Vec<i64>,
    /// Per-gain tracking integrators, pitch.
    pub pitch_tracking_i: Vec<i64>,
    /// Angles latched at the start of the current hold, encoder counts.
    pub hold_angles: [i16; 2],
    /// Whether each axis is holding.
    pub hold_active: [bool; 2],
    /// Hold integrators, micro-counts.
    pub hold_i: [i64; 2],
}

/// What one gimbal tick does to the controller and reports in its status,
/// beside the control-rate write it queues: the angles come off the cache
/// through the centre calibration, stale inputs freeze the control state
/// and zero the rates, and fresh inputs run the tracking, hold and limiter
/// stages.
pub open spec fn tick_post(
    pre: GimbalController,
    post: GimbalController,
    config: Config,
    tracked_rect: [i64; 4],
    now_millis: u64,
    status: GimbalControlStatus,
) -> bool {
    let cache = pre.values@;
    let stale = tick_inputs_stale(cache, now_millis);
    let raw0 = cached_value(cache, slot_of(values::ENCODER_ANGLE, target::YAW));
    let raw1 = cached_value(cache, slot_of(values::ENCODER_ANGLE, target::PITCH));
    let c0 = cached_value(cache, slot_of(values::CALIBRATION_ANGLE_0_CENTER, target::YAW));
    let c1 = cached_value(cache, slot_of(values::CALIBRATION_ANGLE_0_CENTER, target::PITCH));
    let dists = border_dists(config.vision.border_rect, tracked_rect);

    &&& status.angles[0] == encoder_centered(raw0 - c0)
    &&& status.angles[1] == encoder_centered(raw1 - c1)
    &&& status.supply_voltage == cached_value(
        cache,
        slot_of(values::SUPPLY_VOLTAGE, target::IMU_ADJACENT),
    ) * 100_000
    &&& (forall|a: int|
        0 <= a < 3 ==> (#[trigger] status.current[a]) == cached_value(
            cache,
            slot_of(values::MOTOR_FILTERED_CURRENT, (a as u8)),
        ))
    &&& (forall|a: int|
        0 <= a < 3 ==> (#[trigger] status.motor_power[a]) == ((cached_value(
            cache,
            slot_of(values::MOTOR_STATUS_FLAGS, (a as u8)),
        ) & motor_status::POWER_ON) != 0))
    // Cached values survive a tick; only request bookkeeping may change.
    &&& post.values@.len() == pre.values@.len()
    &&& (forall|j: int|
        0 <= j < pre.values@.len() ==> (#[trigger] post.values@[j]).last_update
            == pre.values@[j].last_update)
    &&& if stale {
        // Stages two and three are skipped: zero rates, frozen state.
        &&& status.rates == [0i16, 0i16]
        &&& post.yaw_tracking_i == pre.yaw_tracking_i
        &&& post.pitch_tracking_i == pre.pitch_tracking_i
        &&& post.hold_angles == pre.hold_angles
        &&& post.hold_active == pre.hold_active
        &&& post.hold_i == pre.hold_i
    } else {
        let (left, top, right, bottom) = dists;
        let decay = config.gimbal.tracking_i_decay_rate as int;
        let yaw_rates = axis_rates_spec(
            config.gimbal.yaw_gains@,
            pre.yaw_tracking_i@,
            decay,
            left,
            right,
        );
        let pitch_rates = axis_rates_spec(
            config.gimbal.pitch_gains@,
            pre.pitch_tracking_i@,
            decay,
            top,
            bottom,
        );
        let halted = config.mode == ControllerMode::Halted;
        let next0 = halted || status.tracking_p_rates[0] == 0;
        let next1 = halted || status.tracking_p_rates[1] == 0;
        &&& status.tracking_p_rates[0] == yaw_rates.0
        &&& status.tracking_i_rates[0] == yaw_rates.1
        &&& status.tracking_p_rates[1] == pitch_rates.0
        &&& status.tracking_i_rates[1] == pitch_rates.1
        // New integrator banks, entry by entry.
        &&& post.yaw_tracking_i@.len() == config.gimbal.yaw_gains@.len()
        &&& (forall|k: int|
            0 <= k < config.gimbal.yaw_gains@.len() ==> (#[trigger] post.yaw_tracking_i@[k])
                == integrator_at(
                pre.yaw_tracking_i@,
                config.gimbal.yaw_gains@,
                decay,
                left,
                right,
                k,
            ))
        &&& post.pitch_tracking_i@.len() == config.gimbal.pitch_gains@.len()
        &&& (forall|k: int|
            0 <= k < config.gimbal.pitch_gains@.len() ==> (#[trigger] post.pitch_tracking_i@[k])
                == integrator_at(
                pre.pitch_tracking_i@,
                config.gimbal.pitch_gains@,
                decay,
                top,
                bottom,
                k,
            ))
        // Hold: an axis holds while halted or while tracking asks for no
        // proportional motion; entering a hold latches the angle.
        &&& post.hold_active == [next0, next1]
        &&& status.hold_active == [next0, next1]
        &&& post.hold_angles[0] == (if next0 && !pre.hold_active[0] {
            status.angles[0]
        } else {
            pre.hold_angles[0]
        })
        &&& post.hold_angles[1] == (if next1 && !pre.hold_active[1] {
            status.angles[1]
        } else {
            pre.hold_angles[1]
        })
        &&& status.hold_angles == post.hold_angles
        // Hold PI per axis over the latched error.
        &&& hold_axis_post(
            pre.hold_i[0] as int,
            post.hold_i[0] as int,
            post.hold_angles[0] as int,
            status.angles[0] as int,
            next0,
            config,
            status.hold_p_rates[0] as int,
            status.hold_i_rates[0] as int,
        )
        &&& hold_axis_post(
            pre.hold_i[1] as int,
            post.hold_i[1] as int,
            post.hold_angles[1] as int,
            status.angles[1] as int,
            next1,
            config,
            status.hold_p_rates[1] as int,
            status.hold_i_rates[1] as int,
        )
        // The decided rates come out of the limiter pipeline.
        &&& rates_pipeline(
            config,
            status.angles,
            status.tracking_p_rates,
            status.tracking_i_rates,
            status.hold_p_rates,
            status.hold_i_rates,
            status.rates,
        )
    }
}

/// One axis of the hold controller: while active the integrator absorbs
/// the latched error and the proportional rate is error times gain; while
/// inactive the integrator decays and the proportional rate is zero.
pub open spec fn hold_axis_post(
    old_i: int,
    new_i: int,
    held: int,
    angle: int,
    active: bool,
    config: Config,
    p_rate: int,
    i_rate: int,
) -> bool {
    let err = held - angle;
    &&& new_i == (if active {
        clamp_spec(
            old_i + clamp_spec(err * MICRO, -FIX_LIMIT as int, FIX_LIMIT as int),
            -FIX_LIMIT as int,
            FIX_LIMIT as int,
        )
    } else {
        clamp_spec(
            old_i - fix_mul_spec(
                old_i,
                clamp_spec(config.gimbal.hold_i_decay_rate as int, 0, MICRO as int),
            ),
            -FIX_LIMIT as int,
            FIX_LIMIT as int,
        )
    })
    &&& p_rate == (if active {
        err * config.gimbal.hold_p_gain
    } else {
        0int
    })
    &&& i_rate == clamp_spec(
        fix_mul_spec(new_i, config.gimbal.hold_i_gain as int),
        -FIX_LIMIT as int,
        FIX_LIMIT as int,
    )
}

impl GimbalController {
    /// Bounds every operation preserves.
    pub open spec fn well_formed(&self) -> bool {
        &&& self.values@.len() == NUM_VALUES * NUM_AXES
        &&& forall|k: int|
            0 <= k < self.yaw_tracking_i@.len() ==> -FIX_LIMIT <= #[trigger] self.yaw_tracking_i@[k]
                <= FIX_LIMIT
        &&& forall|k: int|
            0 <= k < self.pitch_tracking_i@.len() ==> -FIX_LIMIT
                <= #[trigger] self.pitch_tracking_i@[k] <= FIX_LIMIT
        &&& -FIX_LIMIT <= self.hold_i[0] <= FIX_LIMIT
        &&& -FIX_LIMIT <= self.hold_i[1] <= FIX_LIMIT
    }

    /// A fresh controller: empty cache, idle integrators, nothing held.
    pub fn new() -> (r: GimbalController)
        ensures
            r.well_formed(),
            r.hold_active == [false, false],
            forall|j: int|
                0 <= j < r.values@.len() ==> ((#[trigger] r.values@[j]).last_update) is None,
    {
        let mut cache: Vec<GimbalValueState> = Vec::new();
        let total = NUM_VALUES * NUM_AXES;
        for i in 0..total
            invariant
                cache@.len() == i,
                forall|j: int|
                    0 <= j < i ==> ((#[trigger] cache@[j]).last_update) is None,
            decreases total - i,
        {
            cache.push(GimbalValueState::new());
        }
        GimbalController {
            values: cache,
            yaw_tracking_i: Vec::new(),
            pitch_tracking_i: Vec::new(),
            hold_angles: [0, 0],
            hold_active: [false, false],
            hold_i: [0, 0],
        }
    }

    /// Store a value the gimbal reported.
    pub fn value_received(&mut self, data: GimbalValueData, now_millis: u64)
        requires
            old(self).well_formed(),
        ensures
            final(self).well_formed(),
            match crate::gimbal_poller::addr_index_spec(data.addr) {
                Some(i) => final(self).values@ == old(self).values@.update(
                    i,
                    GimbalValueState {
                        last_update: Some((now_millis, data)),
                        ..old(self).values@[i]
                    },
                ),
                None => final(self).values == old(self).values,
            },
            final(self).yaw_tracking_i == old(self).yaw_tracking_i,
            final(self).pitch_tracking_i == old(self).pitch_tracking_i,
            final(self).hold_angles == old(self).hold_angles,
            final(self).hold_active == old(self).hold_active,
            final(self).hold_i == old(self).hold_i,
    {
        let index = data.addr.index as usize;
        let target_id = data.addr.target as usize;
        if index < NUM_VALUES && target_id < NUM_AXES {
            let slot = index * NUM_AXES + target_id;
            let mut item = self.values[slot];
            item.last_update = Some((now_millis, data));
            self.values.set(slot, item);
        }
    }

    /// Queue motor power packets for every axis and ask for fresh status.
    pub fn set_motor_enable(&mut self, gimbal: &mut GimbalPort, en: bool)
        requires
            old(self).well_formed(),
        ensures
            final(self).well_formed(),
            *final(self) == *old(self),
            final(gimbal).packets@.len() == old(gimbal).packets@.len() + 3,
            final(gimbal).writes == old(gimbal).writes,
    {
        gimbal.set_motor_enable(en);
        gimbal.request_once(values::MOTOR_STATUS_FLAGS, target::YAW);
        gimbal.request_once(values::MOTOR_STATUS_FLAGS, target::ROLL);
        gimbal.request_once(values::MOTOR_STATUS_FLAGS, target::PITCH);
    }

    /// Read one cached value, queueing whatever request keeps it fresh:
    /// continuous slots renew their standing request, infrequent slots are
    /// re-requested when due.  The cached data itself never changes here.
    fn request(
        &mut self,
        gimbal: &mut GimbalPort,
        stale_flag: &mut bool,
        rtype: RequestType,
        index: u8,
        target_id: u8,
        now_millis: u64,
    ) -> (r: i16)
        requires
            old(self).well_formed(),
            index < NUM_VALUES,
            target_id < NUM_AXES,
        ensures
            final(self).well_formed(),
            r == cached_value(old(self).values@, slot_of(index, target_id)),
            *final(stale_flag) == (*old(stale_flag) || slot_stale(
                old(self).values@,
                slot_of(index, target_id),
                now_millis,
                rtype_max_age(rtype),
            )),
            final(self).values@.len() == old(self).values@.len(),
            forall|j: int|
                0 <= j < old(self).values@.len() ==> (#[trigger] final(self).values@[j]).last_update
                    == old(self).values@[j].last_update,
            final(self).yaw_tracking_i == old(self).yaw_tracking_i,
            final(self).pitch_tracking_i == old(self).pitch_tracking_i,
            final(self).hold_angles == old(self).hold_angles,
            final(self).hold_active == old(self).hold_active,
            final(self).hold_i == old(self).hold_i,
            final(gimbal).writes == old(gimbal).writes,
            final(gimbal).packets == old(gimbal).packets,
    {
        let slot = index as usize * NUM_AXES + target_id as usize;
        let mut item = self.values[slot];
        let r = match rtype {
            RequestType::Continuous => {
                gimbal.request_continuous(index, target_id);
                item.value_with_max_age(now_millis, 250, stale_flag)
            },
            RequestType::Infrequent => {
                if item.poll_for_request(now_millis, 3000) {
                    gimbal.request_once(index, target_id);
                }
                item.value_with_max_age(now_millis, 5000, stale_flag)
            },
        };
        self.values.set(slot, item);
        r
    }

    /// Read a yaw/pitch pair from the cache.
    fn request_vec2(
        &mut self,
        gimbal: &mut GimbalPort,
        stale_flag: &mut bool,
        rtype: RequestType,
        index: u8,
        now_millis: u64,
    ) -> (r: [i16; 2])
        requires
            old(self).well_formed(),
            index < NUM_VALUES,
        ensures
            final(self).well_formed(),
            r[0] == cached_value(old(self).values@, slot_of(index, target::YAW)),
            r[1] == cached_value(old(self).values@, slot_of(index, target::PITCH)),
            *final(stale_flag) == (*old(stale_flag) || slot_stale(
                old(self).values@,
                slot_of(index, target::YAW),
                now_millis,
                rtype_max_age(rtype),
            ) || slot_stale(
                old(self).values@,
                slot_of(index, target::PITCH),
                now_millis,
                rtype_max_age(rtype),
            )),
            final(self).values@.len() == old(self).values@.len(),
            forall|j: int|
                0 <= j < old(self).values@.len() ==> (#[trigger] final(self).values@[j]).last_update
                    == old(self).values@[j].last_update,
            final(self).yaw_tracking_i == old(self).yaw_tracking_i,
            final(self).pitch_tracking_i == old(self).pitch_tracking_i,
            final(self).hold_angles == old(self).hold_angles,
            final(self).hold_active == old(self).hold_active,
            final(self).hold_i == old(self).hold_i,
            final(gimbal).writes == old(gimbal).writes,
            final(gimbal).packets == old(gimbal).packets,
    {
        let a = self.request(gimbal, stale_flag, rtype, index, target::YAW, now_millis);
        let b = self.request(gimbal, stale_flag, rtype, index, target::PITCH, now_millis);
        [a, b]
    }

    /// Read a yaw/roll/pitch triple from the cache.
    fn request_vec3(
        &mut self,
        gimbal: &mut GimbalPort,
        stale_flag: &mut bool,
        rtype: RequestType,
        index: u8,
        now_millis: u64,
    ) -> (r: [i16; 3])
        requires
            old(self).well_formed(),
            index < NUM_VALUES,
        ensures
            final(self).well_formed(),
            r[0] == cached_value(old(self).values@, slot_of(index, target::YAW)),
            r[1] == cached_value(old(self).values@, slot_of(index, target::ROLL)),
            r[2] == cached_value(old(self).values@, slot_of(index, target::PITCH)),
            *final(stale_flag) == (*old(stale_flag) || slot_stale(
                old(self).values@,
                slot_of(index, target::YAW),
                now_millis,
                rtype_max_age(rtype),
            ) || slot_stale(
                old(self).values@,
                slot_of(index, target::ROLL),
                now_millis,
                rtype_max_age(rtype),
            ) || slot_stale(
                old(self).values@,
                slot_of(index, target::PITCH),
                now_millis,
                rtype_max_age(rtype),
            )),
            final(self).values@.len() == old(self).values@.len(),
            forall|j: int|
                0 <= j < old(self).values@.len() ==> (#[trigger] final(self).values@[j]).last_update
                    == old(self).values@[j].last_update,
            final(self).yaw_tracking_i == old(self).yaw_tracking_i,
            final(self).pitch_tracking_i == old(self).pitch_tracking_i,
            final(self).hold_angles == old(self).hold_angles,
            final(self).hold_active == old(self).hold_active,
            final(self).hold_i == old(self).hold_i,
            final(gimbal).writes == old(gimbal).writes,
            final(gimbal).packets == old(gimbal).packets,
    {
        let a = self.request(gimbal, stale_flag, rtype, index, target::YAW, now_millis);
        let b = self.request(gimbal, stale_flag, rtype, index, target::ROLL, now_millis);
        let c = self.request(gimbal, stale_flag, rtype, index, target::PITCH, now_millis);
        [a, b, c]
    }

    /// One controller tick: read the cached inputs (requesting refreshes),
    /// and unless something is stale, run tracking, hold and the limiter;
    /// the decided rates — zero on stale inputs — leave as the one two-axis
    /// rate write.
    pub fn tick(
        &mut self,
        config: &Config,
        gimbal: &mut GimbalPort,
        tracked_region: &CameraTrackedRegion,
        now_millis: u64,
    ) -> (status: GimbalControlStatus)
        requires
            old(self).well_formed(),
            config.well_formed(),
            crate::rect::rect_fits(tracked_region.rect),
        ensures
            final(self).well_formed(),
            status.yaw_gain_activations@.len() == config.gimbal.yaw_gains@.len(),
            status.pitch_gain_activations@.len() == config.gimbal.pitch_gains@.len(),
            -32768 <= status.rates[0] <= 32767 && -32768 <= status.rates[1] <= 32767,
            tick_post(
                *old(self),
                *final(self),
                *config,
                tracked_region.rect,
                now_millis,
                status,
            ),
            // Exactly one two-axis control-rate write leaves per tick,
            // carrying the decided rates.
            final(gimbal).writes@ == old(gimbal).writes@.push(
                GimbalValueData {
                    addr: crate::message::GimbalValueAddress {
                        target: target::YAW,
                        index: values::CONTROL_RATE,
                    },
                    value: status.rates[0],
                },
            ).push(
                GimbalValueData {
                    addr: crate::message::GimbalValueAddress {
                        target: target::PITCH,
                        index: values::CONTROL_RATE,
                    },
                    value: status.rates[1],
                },
            ),
            final(gimbal).packets == old(gimbal).packets,
    {
        let mut stale_flag = false;
        let supply_raw = self.request(
            gimbal,
            &mut stale_flag,
            RequestType::Infrequent,
            values::SUPPLY_VOLTAGE,
            target::IMU_ADJACENT,
            now_millis,
        );
        let center_cal = self.request_vec2(
            gimbal,
            &mut stale_flag,
            RequestType::Infrequent,
            values::CALIBRATION_ANGLE_0_CENTER,
            now_millis,
        );
        let raw_angles = self.request_vec2(
            gimbal,
            &mut stale_flag,
            RequestType::Continuous,
            values::ENCODER_ANGLE,
            now_millis,
        );
        let current = self.request_vec3(
            gimbal,
            &mut stale_flag,
            RequestType::Continuous,
            values::MOTOR_FILTERED_CURRENT,
            now_millis,
        );
        let motor_flags = self.request_vec3(
            gimbal,
            &mut stale_flag,
            RequestType::Infrequent,
            values::MOTOR_STATUS_FLAGS,
            now_millis,
        );
        let angles = vec2_encoder_sub(raw_angles, center_cal);
        let motor_power: [bool; 3] = [
            (motor_flags[0] & motor_status::POWER_ON) != 0,
            (motor_flags[1] & motor_status::POWER_ON) != 0,
            (motor_flags[2] & motor_status::POWER_ON) != 0,
        ];

        let yaw_acts: Vec<i64> = zero_acts(config.gimbal.yaw_gains.len());
        let pitch_acts: Vec<i64> = zero_acts(config.gimbal.pitch_gains.len());

        let mut status = GimbalControlStatus {
            angles,
            rates: [0, 0],
            tracking_p_rates: [0, 0],
            tracking_i_rates: [0, 0],
            hold_p_rates: [0, 0],
            hold_i_rates: [0, 0],
            hold_angles: self.hold_angles,
            hold_active: self.hold_active,
            yaw_gain_activations: yaw_acts,
            pitch_gain_activations: pitch_acts,
            motor_power,
            current,
            supply_voltage: supply_raw as i64 * 100_000,
        };

        if !stale_flag {
            self.tracking_tick(config, &mut status, tracked_region);
            self.hold_tick(config, &mut status);
            self.gimbal_rate_tick(config, &mut status);
        }

        gimbal.write_control_rates(status.rates);
        status
    }

    /// Stage two: run the tracking gain ladder on each axis against the
    /// region's distances to the border.
    fn tracking_tick(
        &mut self,
        config: &Config,
        status: &mut GimbalControlStatus,
        tracked_region: &CameraTrackedRegion,
    )
        requires
            old(self).well_formed(),
            config.well_formed(),
            crate::rect::rect_fits(tracked_region.rect),
            old(status).yaw_gain_activations@.len() == config.gimbal.yaw_gains@.len(),
            old(status).pitch_gain_activations@.len() == config.gimbal.pitch_gains@.len(),
        ensures
            final(self).well_formed(),
            final(status).yaw_gain_activations@.len() == config.gimbal.yaw_gains@.len(),
            final(status).pitch_gain_activations@.len() == config.gimbal.pitch_gains@.len(),
            ({
                let (left, top, right, bottom) = border_dists(
                    config.vision.border_rect,
                    tracked_region.rect,
                );
                let decay = config.gimbal.tracking_i_decay_rate as int;
                let yaw_rates = axis_rates_spec(
                    config.gimbal.yaw_gains@,
                    old(self).yaw_tracking_i@,
                    decay,
                    left,
                    right,
                );
                let pitch_rates = axis_rates_spec(
                    config.gimbal.pitch_gains@,
                    old(self).pitch_tracking_i@,
                    decay,
                    top,
                    bottom,
                );
                &&& final(status).tracking_p_rates[0] == yaw_rates.0
                &&& final(status).tracking_i_rates[0] == yaw_rates.1
                &&& final(status).tracking_p_rates[1] == pitch_rates.0
                &&& final(status).tracking_i_rates[1] == pitch_rates.1
                &&& final(self).yaw_tracking_i@.len() == config.gimbal.yaw_gains@.len()
                &&& (forall|k: int|
                    0 <= k < config.gimbal.yaw_gains@.len() ==> (
                    #[trigger] final(self).yaw_tracking_i@[k]) == integrator_at(
                        old(self).yaw_tracking_i@,
                        config.gimbal.yaw_gains@,
                        decay,
                        left,
                        right,
                        k,
                    ))
                &&& final(self).pitch_tracking_i@.len() == config.gimbal.pitch_gains@.len()
                &&& (forall|k: int|
                    0 <= k < config.gimbal.pitch_gains@.len() ==> (
                    #[trigger] final(self).pitch_tracking_i@[k]) == integrator_at(
                        old(self).pitch_tracking_i@,
                        config.gimbal.pitch_gains@,
                        decay,
                        top,
                        bottom,
                        k,
                    ))
                &&& (forall|k: int|
                    0 <= k < config.gimbal.yaw_gains@.len() ==> (
                    #[trigger] final(status).yaw_gain_activations@[k]) == edge_err_spec(
                        config.gimbal.yaw_gains@[k].width as int,
                        left,
                        right,
                    ))
                &&& (forall|k: int|
                    0 <= k < config.gimbal.pitch_gains@.len() ==> (
                    #[trigger] final(status).pitch_gain_activations@[k]) == edge_err_spec(
                        config.gimbal.pitch_gains@[k].width as int,
                        top,
                        bottom,
                    ))
            }),
            -FIX_LIMIT <= final(status).tracking_p_rates[0] <= FIX_LIMIT,
            -FIX_LIMIT <= final(status).tracking_p_rates[1] <= FIX_LIMIT,
            -FIX_LIMIT <= final(status).tracking_i_rates[0] <= FIX_LIMIT,
            -FIX_LIMIT <= final(status).tracking_i_rates[1] <= FIX_LIMIT,
            final(status).angles == old(status).angles,
            final(status).rates == old(status).rates,
            final(status).hold_angles == old(status).hold_angles,
            final(status).hold_active == old(status).hold_active,
            final(status).hold_p_rates == old(status).hold_p_rates,
            final(status).hold_i_rates == old(status).hold_i_rates,
            final(status).motor_power == old(status).motor_power,
            final(status).current == old(status).current,
            final(status).supply_voltage == old(status).supply_voltage,
            final(self).values == old(self).values,
            final(self).hold_angles == old(self).hold_angles,
            final(self).hold_active == old(self).hold_active,
            final(self).hold_i == old(self).hold_i,
    {
        let border = &config.vision.border_rect;
        let rect = &tracked_region.rect;
        let left_dist = clamp_i64(rect[0] - border[0], -FIX_LIMIT, FIX_LIMIT);
        let top_dist = clamp_i64(rect[1] - border[1], -FIX_LIMIT, FIX_LIMIT);
        let right_dist = clamp_i64(
            (border[0] + border[2]) - (rect[0] + rect[2]),
            -FIX_LIMIT,
            FIX_LIMIT,
        );
        let bottom_dist = clamp_i64(
            (border[1] + border[3]) - (rect[1] + rect[3]),
            -FIX_LIMIT,
            FIX_LIMIT,
        );

        let (xp, xi) = tracking_axis(
            &mut self.yaw_tracking_i,
            &mut status.yaw_gain_activations,
            &config.gimbal.yaw_gains,
            config.gimbal.tracking_i_decay_rate,
            left_dist,
            right_dist,
        );
        let (yp, yi) = tracking_axis(
            &mut self.pitch_tracking_i,
            &mut status.pitch_gain_activations,
            &config.gimbal.pitch_gains,
            config.gimbal.tracking_i_decay_rate,
            top_dist,
            bottom_dist,
        );
        status.tracking_p_rates = [xp, yp];
        status.tracking_i_rates = [xi, yi];
    }

    /// Stage three: hold.  An axis holds whenever the controller is halted
    /// or tracking asks for no proportional motion; entering a hold latches
    /// the current angle, and the hold's own PI controller drives back to
    /// it, its integrator decaying while inactive.
    fn hold_tick(&mut self, config: &Config, status: &mut GimbalControlStatus)
        requires
            old(self).well_formed(),
            config.well_formed(),
        ensures
            final(self).well_formed(),
            ({
                let halted = config.mode == ControllerMode::Halted;
                let next0 = halted || old(status).tracking_p_rates[0] == 0;
                let next1 = halted || old(status).tracking_p_rates[1] == 0;
                &&& final(self).hold_active == [next0, next1]
                &&& final(status).hold_active == [next0, next1]
                &&& final(self).hold_angles[0] == (if next0 && !old(self).hold_active[0] {
                    old(status).angles[0]
                } else {
                    old(self).hold_angles[0]
                })
                &&& final(self).hold_angles[1] == (if next1 && !old(self).hold_active[1] {
                    old(status).angles[1]
                } else {
                    old(self).hold_angles[1]
                })
                &&& final(status).hold_angles == final(self).hold_angles
                &&& hold_axis_post(
                    old(self).hold_i[0] as int,
                    final(self).hold_i[0] as int,
                    final(self).hold_angles[0] as int,
                    old(status).angles[0] as int,
                    next0,
                    *config,
                    final(status).hold_p_rates[0] as int,
                    final(status).hold_i_rates[0] as int,
                )
                &&& hold_axis_post(
                    old(self).hold_i[1] as int,
                    final(self).hold_i[1] as int,
                    final(self).hold_angles[1] as int,
                    old(status).angles[1] as int,
                    next1,
                    *config,
                    final(status).hold_p_rates[1] as int,
                    final(status).hold_i_rates[1] as int,
                )
            }),
            final(status).tracking_p_rates == old(status).tracking_p_rates,
            final(status).tracking_i_rates == old(status).tracking_i_rates,
            final(status).angles == old(status).angles,
            final(status).rates == old(status).rates,
            final(status).yaw_gain_activations == old(status).yaw_gain_activations,
            final(status).pitch_gain_activations == old(status).pitch_gain_activations,
            final(status).motor_power == old(status).motor_power,
            final(status).current == old(status).current,
            final(status).supply_voltage == old(status).supply_voltage,
            final(self).values == old(self).values,
            final(self).yaw_tracking_i == old(self).yaw_tracking_i,
            final(self).pitch_tracking_i == old(self).pitch_tracking_i,
            -132_000_000_000_000_000 <= final(status).hold_p_rates[0] <= 132_000_000_000_000_000,
            -132_000_000_000_000_000 <= final(status).hold_p_rates[1] <= 132_000_000_000_000_000,
            -FIX_LIMIT <= final(status).hold_i_rates[0] <= FIX_LIMIT,
            -FIX_LIMIT <= final(status).hold_i_rates[1] <= FIX_LIMIT,
    {
        let halted = matches!(config.mode, ControllerMode::Halted);
        let next_active: [bool; 2] = [
            halted || status.tracking_p_rates[0] == 0,
            halted || status.tracking_p_rates[1] == 0,
        ];

        let mut hold_angles = self.hold_angles;
        if next_active[0] && !self.hold_active[0] {
            hold_angles = [status.angles[0], hold_angles[1]];
        }
        if next_active[1] && !self.hold_active[1] {
            hold_angles = [hold_angles[0], status.angles[1]];
        }
        self.hold_angles = hold_angles;
        self.hold_active = next_active;
        status.hold_angles = hold_angles;
        status.hold_active = next_active;

        let e0 = hold_axis_step(
            &mut self.hold_i,
            0,
            hold_angles[0],
            status.angles[0],
            next_active[0],
            config,
        );
        let e1 = hold_axis_step(
            &mut self.hold_i,
            1,
            hold_angles[1],
            status.angles[1],
            next_active[1],
            config,
        );
        status.hold_p_rates = [e0.0, e1.0];
        status.hold_i_rates = [e0.1, e1.1];
    }

    /// Combine the stages, apply the endstop limiter and the overall rate
    /// clamp, and round with dither to the integer rates.
    fn gimbal_rate_tick(&mut self, config: &Config, status: &mut GimbalControlStatus)
        requires
            old(self).well_formed(),
            config.well_formed(),
            -FIX_LIMIT <= old(status).tracking_p_rates[0] <= FIX_LIMIT,
            -FIX_LIMIT <= old(status).tracking_p_rates[1] <= FIX_LIMIT,
            -FIX_LIMIT <= old(status).tracking_i_rates[0] <= FIX_LIMIT,
            -FIX_LIMIT <= old(status).tracking_i_rates[1] <= FIX_LIMIT,
            -132_000_000_000_000_000 <= old(status).hold_p_rates[0] <= 132_000_000_000_000_000,
            -132_000_000_000_000_000 <= old(status).hold_p_rates[1] <= 132_000_000_000_000_000,
            -FIX_LIMIT <= old(status).hold_i_rates[0] <= FIX_LIMIT,
            -FIX_LIMIT <= old(status).hold_i_rates[1] <= FIX_LIMIT,
        ensures
            final(self).well_formed(),
            *final(self) == *old(self),
            -32768 <= final(status).rates[0] <= 32767,
            -32768 <= final(status).rates[1] <= 32767,
            rates_pipeline(
                *config,
                old(status).angles,
                old(status).tracking_p_rates,
                old(status).tracking_i_rates,
                old(status).hold_p_rates,
                old(status).hold_i_rates,
                final(status).rates,
            ),
            *final(status) == (GimbalControlStatus { rates: final(status).rates, ..*old(status) }),
    {
        let halted = matches!(config.mode, ControllerMode::Halted);
        let tx: i64 = if halted {
            0
        } else {
            clamp_i64(
                status.tracking_p_rates[0] + status.tracking_i_rates[0],
                -FIX_LIMIT,
                FIX_LIMIT,
            )
        };
        let ty: i64 = if halted {
            0
        } else {
            clamp_i64(
                status.tracking_p_rates[1] + status.tracking_i_rates[1],
                -FIX_LIMIT,
                FIX_LIMIT,
            )
        };
        let hx = clamp_i64(status.hold_p_rates[0] + status.hold_i_rates[0], -FIX_LIMIT, FIX_LIMIT);
        let hy = clamp_i64(status.hold_p_rates[1] + status.hold_i_rates[1], -FIX_LIMIT, FIX_LIMIT);
        let rx = clamp_i64(tx + hx, -FIX_LIMIT, FIX_LIMIT);
        let ry = clamp_i64(ty + hy, -FIX_LIMIT, FIX_LIMIT);

        let lx = limiter_axis(
            rx,
            status.angles[0],
            config.gimbal.yaw_limits.lower,
            config.gimbal.yaw_limits.upper,
            config.gimbal.limiter_slowdown_extent[0],
            config.gimbal.limiter_gain,
            config.gimbal.max_rate,
        );
        let ly = limiter_axis(
            ry,
            status.angles[1],
            config.gimbal.pitch_limits.lower,
            config.gimbal.pitch_limits.upper,
            config.gimbal.limiter_slowdown_extent[1],
            config.gimbal.limiter_gain,
            config.gimbal.max_rate,
        );

        let clamped = vec2_clamp_len([lx, ly], config.gimbal.max_rate);
        let dx = rand_dither();
        let dy = rand_dither();
        let r0 = round_rate(clamped[0], dx);
        let r1 = round_rate(clamped[1], dy);
        proof {
            let maxr = config.gimbal.max_rate as int;
            let halted_s = config.mode == ControllerMode::Halted;
            let tp = old(status).tracking_p_rates;
            let ti = old(status).tracking_i_rates;
            let hp = old(status).hold_p_rates;
            let hi_r = old(status).hold_i_rates;
            let tx_s = if halted_s {
                0int
            } else {
                clamp_spec(tp[0] + ti[0], -FIX_LIMIT as int, FIX_LIMIT as int)
            };
            let ty_s = if halted_s {
                0int
            } else {
                clamp_spec(tp[1] + ti[1], -FIX_LIMIT as int, FIX_LIMIT as int)
            };
            let hx_s = clamp_spec(hp[0] + hi_r[0], -FIX_LIMIT as int, FIX_LIMIT as int);
            let hy_s = clamp_spec(hp[1] + hi_r[1], -FIX_LIMIT as int, FIX_LIMIT as int);
            assert(tx as int == tx_s && ty as int == ty_s && hx as int == hx_s && hy as int
                == hy_s);
            assert(rx as int == clamp_spec(tx_s + hx_s, -FIX_LIMIT as int, FIX_LIMIT as int));
            assert(ry as int == clamp_spec(ty_s + hy_s, -FIX_LIMIT as int, FIX_LIMIT as int));
            let l0 = limiter_axis_spec(
                clamp_spec(tx_s + hx_s, -FIX_LIMIT as int, FIX_LIMIT as int),
                old(status).angles[0] as int,
                config.gimbal.yaw_limits.lower as int,
                config.gimbal.yaw_limits.upper as int,
                config.gimbal.limiter_slowdown_extent[0] as int,
                config.gimbal.limiter_gain as int,
                maxr,
            );
            let l1 = limiter_axis_spec(
                clamp_spec(ty_s + hy_s, -FIX_LIMIT as int, FIX_LIMIT as int),
                old(status).angles[1] as int,
                config.gimbal.pitch_limits.lower as int,
                config.gimbal.pitch_limits.upper as int,
                config.gimbal.limiter_slowdown_extent[1] as int,
                config.gimbal.limiter_gain as int,
                maxr,
            );
            assert(lx as int == l0 && ly as int == l1);
            let c0 = clamped@[0] as int;
            let c1 = clamped@[1] as int;
            let d0 = dx as int;
            let d1 = dy as int;
            assert(clamped[0] == clamped@[0] && clamped[1] == clamped@[1]);
            assert(clamped_toward_zero(l0, c0, maxr));
            assert(clamped_toward_zero(l1, c1, maxr));
            assert(l0 * l0 + l1 * l1 < maxr * maxr ==> c0 == l0 && c1 == l1);
            assert(r0 == clamp_spec(round_to_unit_spec(c0 + d0), -32768, 32767));
            assert(r1 == clamp_spec(round_to_unit_spec(c1 + d1), -32768, 32767));
            assert(round_to_unit_spec(c0 + d0) == round_to_unit_spec(c0 + d0));
            assert(rates_pipeline(*config, old(status).angles, tp, ti, hp, hi_r, [r0, r1]));
        }
        status.rates = [r0, r1];
    }
}

/// A vector of zeroed gain activations.
fn zero_acts(n: usize) -> (r: Vec<i64>)
    ensures
        r@.len() == n,
        forall|k: int| 0 <= k < n ==> #[trigger] r@[k] == 0,
{
    let mut v: Vec<i64> = Vec::new();
    for i in 0..n
        invariant
            v@.len() == i,
            forall|k: int| 0 <= k < i ==> #[trigger] v@[k] == 0,
        decreases n - i,
    {
        v.push(0);
    }
    v
}

/// One axis of the tracking ladder: size the integrator bank to the gain
/// list, then fold each entry's border error through its integrator and
/// sum the proportional and integral rates.
fn tracking_axis(
    i_state: &mut Vec<i64>,
    errs: &mut Vec<i64>,
    gains: &Vec<GimbalTrackingGain>,
    i_decay_rate: i64,
    lower_dist: i64,
    upper_dist: i64,
) -> (pi: (i64, i64))
    requires
        forall|k: int|
            0 <= k < old(i_state)@.len() ==> -FIX_LIMIT <= #[trigger] old(i_state)@[k] <= FIX_LIMIT,
        old(errs)@.len() == gains@.len(),
        forall|k: int|
            0 <= k < gains@.len() ==> {
                &&& 0 <= (#[trigger] gains@[k]).width <= FIX_LIMIT
                &&& -FIX_LIMIT <= gains@[k].p_gain <= FIX_LIMIT
                &&& -FIX_LIMIT <= gains@[k].i_gain <= FIX_LIMIT
            },
        0 <= i_decay_rate <= MICRO,
        -FIX_LIMIT <= lower_dist <= FIX_LIMIT,
        -FIX_LIMIT <= upper_dist <= FIX_LIMIT,
    ensures
        final(i_state)@.len() == gains@.len(),
        forall|k: int|
            0 <= k < gains@.len() ==> -FIX_LIMIT <= #[trigger] final(i_state)@[k] <= FIX_LIMIT,
        final(errs)@.len() == gains@.len(),
        forall|k: int|
            0 <= k < gains@.len() ==> #[trigger] final(errs)@[k] == edge_err_spec(
                gains@[k].width as int,
                lower_dist as int,
                upper_dist as int,
            ),
        forall|k: int|
            0 <= k < gains@.len() ==> #[trigger] final(i_state)@[k] == integrator_at(
                old(i_state)@,
                gains@,
                i_decay_rate as int,
                lower_dist as int,
                upper_dist as int,
                k,
            ),
        (pi.0 as int, pi.1 as int) == axis_rates_spec(
            gains@,
            old(i_state)@,
            i_decay_rate as int,
            lower_dist as int,
            upper_dist as int,
        ),
        -FIX_LIMIT <= pi.0 <= FIX_LIMIT,
        -FIX_LIMIT <= pi.1 <= FIX_LIMIT,
{
    // Size the integrator bank to the gain list.
    let ghost orig_i = i_state@;
    let nb = gains.len();
    let mut bank: Vec<i64> = Vec::new();
    let mut b: usize = 0;
    while b < nb
        invariant
            nb == gains@.len(),
            0 <= b <= nb,
            bank@.len() == b,
            orig_i == i_state@,
            forall|k: int|
                0 <= k < b ==> #[trigger] bank@[k] == (if k < orig_i.len() {
                    orig_i[k]
                } else {
                    0i64
                }),
        decreases nb - b,
    {
        if b < i_state.len() {
            let v = i_state[b];
            bank.push(v);
        } else {
            bank.push(0);
        }
        b = b + 1;
    }
    *i_state = bank;

    let n = gains.len();
    let mut p: i128 = 0;
    let mut i_sum: i128 = 0;
    let mut k: usize = 0;
    while k < n
        invariant
            n == gains@.len(),
            0 <= k <= n,
            i_state@.len() == n,
            errs@.len() == n,
            forall|m: int|
                0 <= m < n ==> {
                    &&& 0 <= (#[trigger] gains@[m]).width <= FIX_LIMIT
                    &&& -FIX_LIMIT <= gains@[m].p_gain <= FIX_LIMIT
                    &&& -FIX_LIMIT <= gains@[m].i_gain <= FIX_LIMIT
                },
            -FIX_LIMIT <= lower_dist <= FIX_LIMIT,
            -FIX_LIMIT <= upper_dist <= FIX_LIMIT,
            0 <= i_decay_rate <= MICRO,
            forall|m: int|
                k <= m < n ==> #[trigger] i_state@[m] == (if m < orig_i.len() {
                    orig_i[m]
                } else {
                    0i64
                }),
            forall|m: int|
                0 <= m < orig_i.len() ==> -FIX_LIMIT <= #[trigger] orig_i[m] <= FIX_LIMIT,
            forall|m: int|
                0 <= m < k ==> #[trigger] errs@[m] == edge_err_spec(
                    gains@[m].width as int,
                    lower_dist as int,
                    upper_dist as int,
                ),
            forall|m: int|
                0 <= m < k ==> #[trigger] i_state@[m] == integrator_at(
                    orig_i,
                    gains@,
                    i_decay_rate as int,
                    lower_dist as int,
                    upper_dist as int,
                    m,
                ),
            forall|m: int|
                0 <= m < k ==> -FIX_LIMIT <= #[trigger] i_state@[m] <= FIX_LIMIT,
            forall|m: int| k <= m < n ==> #[trigger] errs@[m] == old(errs)@[m],
            p == tracking_p_sum(gains@, lower_dist as int, upper_dist as int, 0)
                - tracking_p_sum(gains@, lower_dist as int, upper_dist as int, k as int),
            i_sum == tracking_i_sum(
                gains@,
                orig_i,
                i_decay_rate as int,
                lower_dist as int,
                upper_dist as int,
                0,
            ) - tracking_i_sum(
                gains@,
                orig_i,
                i_decay_rate as int,
                lower_dist as int,
                upper_dist as int,
                k as int,
            ),
            -(k as int) * 1_000_000_000_000_000_000 <= p <= (k as int) * 1_000_000_000_000_000_000,
            -(k as int) * 1_000_000_000_000_000_000 <= i_sum <= (k as int)
                * 1_000_000_000_000_000_000,
        decreases n - k,
    {
        let g = gains[k];
        let lo_raw = g.width - lower_dist;
        let lo: i64 = if lo_raw > 0 {
            lo_raw
        } else {
            0
        };
        let hi_raw = g.width - upper_dist;
        let hi: i64 = if hi_raw > 0 {
            hi_raw
        } else {
            0
        };
        let err = clamp_i64(lo - hi, -FIX_LIMIT, FIX_LIMIT);
        errs.set(k, err);

        let cur = i_state[k];
        let opposed = (cur <= 0 && err >= 0) || (cur >= 0 && err <= 0);
        proof {
            assert((((cur as int) <= 0 && (err as int) >= 0) || ((cur as int) >= 0 && (err as int)
                <= 0)) == (cur as int * err <= 0)) by (nonlinear_arith);
            assert(-(FIX_LIMIT as int * MICRO) <= cur as int * i_decay_rate <= FIX_LIMIT as int
                * MICRO) by (nonlinear_arith)
                requires
                    -FIX_LIMIT <= cur <= FIX_LIMIT,
                    0 <= i_decay_rate <= MICRO,
                    MICRO == 1_000_000,
                    FIX_LIMIT == 1_000_000_000_000,
            ;
            crate::units::lemma_div_pos_mag(
                cur as int * i_decay_rate,
                MICRO as int,
                FIX_LIMIT as int,
            );
        }
        let decayed: i64 = if opposed {
            cur - fix_mul(cur, i_decay_rate)
        } else {
            cur
        };
        let stepped = clamp_i64(decayed + err, -FIX_LIMIT, FIX_LIMIT);
        i_state.set(k, stepped);

        let pk = fix_mul(err, g.p_gain);
        let ik = fix_mul(stepped, g.i_gain);
        proof {
            assert(((k as int) + 1) * 1_000_000_000_000_000_000 == (k as int)
                * 1_000_000_000_000_000_000 + 1_000_000_000_000_000_000) by (nonlinear_arith);
        }
        p = p + pk as i128;
        i_sum = i_sum + ik as i128;
        k = k + 1;
    }
    proof {
        assert(tracking_p_sum(gains@, lower_dist as int, upper_dist as int, n as int) == 0);
        assert(tracking_i_sum(
            gains@,
            orig_i,
            i_decay_rate as int,
            lower_dist as int,
            upper_dist as int,
            n as int,
        ) == 0);
    }
    let pr = clamp_i128(p);
    let ir = clamp_i128(i_sum);
    (pr, ir)
}

/// Saturate a wide accumulator into fixed-point range.
fn clamp_i128(v: i128) -> (r: i64)
    ensures
        r as int == clamp_spec(v as int, -FIX_LIMIT as int, FIX_LIMIT as int),
        -FIX_LIMIT <= r <= FIX_LIMIT,
{
    if v > FIX_LIMIT as i128 {
        FIX_LIMIT
    } else if v < -(FIX_LIMIT as i128) {
        -FIX_LIMIT
    } else {
        v as i64
    }
}

/// One axis of the hold controller: integrate toward the held angle while
/// active, decay while inactive; returns the proportional and integral
/// rates.
fn hold_axis_step(
    hold_i: &mut [i64; 2],
    axis: usize,
    held: i16,
    angle: i16,
    active: bool,
    config: &Config,
) -> (pi: (i64, i64))
    requires
        axis < 2,
        config.well_formed(),
        -FIX_LIMIT <= old(hold_i)[0] <= FIX_LIMIT,
        -FIX_LIMIT <= old(hold_i)[1] <= FIX_LIMIT,
    ensures
        -FIX_LIMIT <= final(hold_i)[0] <= FIX_LIMIT,
        -FIX_LIMIT <= final(hold_i)[1] <= FIX_LIMIT,
        final(hold_i)[1 - axis] == old(hold_i)[1 - axis],
        hold_axis_post(
            old(hold_i)[axis as int] as int,
            final(hold_i)[axis as int] as int,
            held as int,
            angle as int,
            active,
            *config,
            pi.0 as int,
            pi.1 as int,
        ),
        -132_000_000_000_000_000 <= pi.0 <= 132_000_000_000_000_000,
        -FIX_LIMIT <= pi.1 <= FIX_LIMIT,
{
    let err_counts: i64 = held as i64 - angle as i64;
    let cur = if axis == 0 {
        hold_i[0]
    } else {
        hold_i[1]
    };
    let next: i64;
    let p_rate: i64;
    if active {
        next = clamp_i64(cur + clamp_i64(err_counts * MICRO, -FIX_LIMIT, FIX_LIMIT), -FIX_LIMIT, FIX_LIMIT);
        proof {
            assert(-131_072_000_000_000_000 <= err_counts * config.gimbal.hold_p_gain
                <= 131_072_000_000_000_000) by (nonlinear_arith)
                requires
                    -131072 <= err_counts <= 131072,
                    -FIX_LIMIT <= config.gimbal.hold_p_gain <= FIX_LIMIT,
                    FIX_LIMIT == 1_000_000_000_000,
            ;
        }
        let p = err_counts * config.gimbal.hold_p_gain;
        p_rate = p;
    } else {
        let decay = clamp_i64(config.gimbal.hold_i_decay_rate, 0, MICRO);
        proof {
            assert(-(FIX_LIMIT as int * MICRO) <= cur as int * decay <= FIX_LIMIT as int * MICRO)
                by (nonlinear_arith)
                requires
                    -FIX_LIMIT <= cur <= FIX_LIMIT,
                    0 <= decay <= MICRO,
                    MICRO == 1_000_000,
                    FIX_LIMIT == 1_000_000_000_000,
            ;
            crate::units::lemma_div_pos_mag(cur as int * decay, MICRO as int, FIX_LIMIT as int);
        }
        let shrink = fix_mul(cur, decay);
        next = clamp_i64(cur - shrink, -FIX_LIMIT, FIX_LIMIT);
        p_rate = 0;
    }
    if axis == 0 {
        *hold_i = [next, hold_i[1]];
    } else {
        *hold_i = [hold_i[0], next];
    }
    let i_rate = clamp_i64(fix_mul(next, config.gimbal.hold_i_gain), -FIX_LIMIT, FIX_LIMIT);
    (p_rate, i_rate)
}

/// Clamp a 2-vector to a Euclidean length, scaling both components by the
/// same factor and keeping signs; a vector already inside the limit passes
/// through untouched.
fn vec2_clamp_len(v: [i64; 2], limit: i64) -> (r: [i64; 2])
    requires
        -132_000_000_000_000_000 <= v[0] <= 132_000_000_000_000_000,
        -132_000_000_000_000_000 <= v[1] <= 132_000_000_000_000_000,
        0 <= limit <= FIX_LIMIT,
    ensures
        -limit <= r[0] <= limit,
        -limit <= r[1] <= limit,
        forall|i: int| 0 <= i < 2 ==> (#[trigger] r[i] == v[i] || (0 <= r[i] <= v[i] || v[i] <= r[i] <= 0)),
        v[0] * v[0] + v[1] * v[1] < limit * limit ==> r == v,
{
    proof {
        assert(v[0] * v[0] >= 0 && v[0] * v[0] <= 132_000_000_000_000_000 as int
            * 132_000_000_000_000_000) by (nonlinear_arith)
            requires
                -132_000_000_000_000_000 <= v[0] <= 132_000_000_000_000_000,
        ;
        assert(v[1] * v[1] >= 0 && v[1] * v[1] <= 132_000_000_000_000_000 as int
            * 132_000_000_000_000_000) by (nonlinear_arith)
            requires
                -132_000_000_000_000_000 <= v[1] <= 132_000_000_000_000_000,
        ;
    }
    let sq: u128 = (v[0] as i128 * v[0] as i128) as u128 + (v[1] as i128 * v[1] as i128) as u128;
    let len = crate::units::isqrt_u128(sq);
    proof {
        assert(v[0] * v[0] <= sq && v[1] * v[1] <= sq);
        assert(v[0] <= len && -v[0] <= len && v[1] <= len && -v[1] <= len) by (nonlinear_arith)
            requires
                v[0] * v[0] <= sq,
                v[1] * v[1] <= sq,
                (len as int) * (len as int) <= sq,
                sq < (len as int + 1) * (len as int + 1),
                len >= 0,
        ;
        assert(sq <= 34_848_000_000_000_000_000_000_000_000_000_000);
        assert(len <= 190_000_000_000_000_000) by (nonlinear_arith)
            requires
                (len as int) * (len as int) <= sq,
                sq <= 34_848_000_000_000_000_000_000_000_000_000_000,
                len >= 0,
        ;
        // Staying inside the limit is equivalent to the squared test.
        assert(sq < (limit as int) * (limit as int) ==> len < limit) by (nonlinear_arith)
            requires
                (len as int) * (len as int) <= sq,
                len >= 0,
                limit >= 0,
        ;
        assert(len < limit ==> sq < (limit as int) * (limit as int)) by (nonlinear_arith)
            requires
                sq < (len as int + 1) * (len as int + 1),
                len >= 0,
                limit >= 0,
        ;
    }
    if len < limit as u128 {
        v
    } else if len == 0 {
        [0, 0]
    } else {
        // limit <= len here, so each component shrinks toward zero.
        let r0 = scale_to_len(v[0], limit, len as i64);
        let r1 = scale_to_len(v[1], limit, len as i64);
        [r0, r1]
    }
}

/// `v * limit / len` for `|v| <= len` and `limit <= len`: magnitude at most
/// `limit`, sign kept, never growing.
fn scale_to_len(v: i64, limit: i64, len: i64) -> (r: i64)
    requires
        0 < len,
        0 <= limit <= len,
        -len <= v <= len,
        -190_000_000_000_000_000 <= v <= 190_000_000_000_000_000,
        limit <= FIX_LIMIT,
    ensures
        -limit <= r <= limit,
        v >= 0 ==> 0 <= r <= v,
        v <= 0 ==> v <= r <= 0,
{
    proof {
        assert(-(limit as int * len) <= v as int * limit <= limit as int * len
            && -190_000_000_000_000_000_000_000_000_000 <= v as int * limit
            && v as int * limit <= 190_000_000_000_000_000_000_000_000_000) by (nonlinear_arith)
            requires
                -len <= v <= len,
                0 <= limit,
                -190_000_000_000_000_000 <= v <= 190_000_000_000_000_000,
                limit <= 1_000_000_000_000,
        ;
    }
    let p: i128 = (v as i128) * (limit as i128);
    let q = crate::units::i128_div_trunc(p, len as i128);
    proof {
        crate::units::lemma_div_pos_mag(p as int, len as int, limit as int);
        if v >= 0 {
            assert(-(v as int * len) <= v as int * limit <= v as int * len) by (nonlinear_arith)
                requires
                    v >= 0,
                    0 <= limit <= len,
            ;
            crate::units::lemma_div_pos_mag(p as int, len as int, v as int);
            assert(v as int * limit >= 0) by (nonlinear_arith)
                requires
                    v >= 0,
                    limit >= 0,
            ;
            assert((v as int * limit) / (len as int) >= 0) by (nonlinear_arith)
                requires
                    v as int * limit >= 0,
                    len > 0,
            ;
        } else {
            assert(-((-v) as int * len) <= v as int * limit <= (-v) as int * len) by (
            nonlinear_arith)
                requires
                    v < 0,
                    0 <= limit <= len,
            ;
            crate::units::lemma_div_pos_mag(p as int, len as int, -v as int);
            assert(v as int * limit <= 0) by (nonlinear_arith)
                requires
                    v < 0,
                    limit >= 0,
            ;
            assert((-(v as int * limit)) / (len as int) >= 0) by (nonlinear_arith)
                requires
                    -(v as int * limit) >= 0,
                    len > 0,
            ;
        }
    }
    q as i64
}

/// Relies on rand's `random_range`: a dither draw from half a unit either
/// side of zero, micro-units; nothing is assumed about which value comes.
#[verifier::external_body]
fn rand_dither() -> (r: i64)
    ensures
        -500_000 <= r <= 500_000,
{
    rand::random_range(-500_000i64..=500_000i64)
}

/// Round a micro-unit rate plus dither to a whole-unit 16-bit rate.
fn round_rate(rate: i64, dither: i64) -> (r: i16)
    requires
        -FIX_LIMIT <= rate <= FIX_LIMIT,
        -500_000 <= dither <= 500_000,
    ensures
        r == clamp_spec(
            round_to_unit_spec(rate + dither),
            -32768,
            32767,
        ),
{
    let sum = rate + dither;
    let rounded = crate::winch::round_to_unit(sum);
    clamp_i64(rounded, -32768, 32767) as i16
}

} // verus!
