//! Controller configuration: the mode, the per-winch calibrations, and the
//! parameters of the motion, gimbal, vision and lighting pipelines.
//!
//! Continuous parameters are fixed-point micro-units (see `units`).  A
//! well-formedness predicate bounds every parameter and keeps the
//! calibrations nonzero where they divide; constructors and the merge path
//! re-check it before a configuration reaches the control loops.

use vstd::prelude::*;

use crate::units::{fix_div, fix_mul, fix_div_spec, fix_mul_spec, FIX_LIMIT};

verus! {

/// Who commands the winches.
#[derive(Debug, PartialEq, Eq, Structural, Clone, Copy)]
pub enum ControllerMode {
    Halted,
    Normal,
    ManualFlyer,
    ManualWinch(usize),
}

/// Per-winch sensor calibration, in micro-units.
#[derive(Debug, PartialEq, Eq, Structural, Clone, Copy)]
pub struct WinchCalibration {
    /// Force-sensor reading at zero load, micro-counts.
    pub force_zero_count: i64,
    /// Kilograms per force count, micro-kg.
    pub kg_force_per_count: i64,
    /// Metres per position count, micro-metres.
    pub m_dist_per_count: i64,
}

/// One winch: its place in space and its calibration.
#[derive(Debug, PartialEq, Clone, Copy)]
pub struct WinchConfig {
    /// Location relative to the flyer's origin, micro-metres.
    pub loc: [i64; 3],
    pub calibration: WinchCalibration,
}

/// Motion-planner and firmware-command parameters, micro-units throughout
/// except where noted.
#[derive(Debug, PartialEq, Eq, Structural, Clone, Copy)]
pub struct BotParams {
    pub manual_control_velocity_m_per_sec: i64,
    pub accel_limit_m_per_sec2: i64,
    pub force_neg_motion_min_kg: i64,
    pub force_pos_motion_max_kg: i64,
    pub force_lockout_below_kg: i64,
    pub force_lockout_above_kg: i64,
    pub force_filter_param: i64,
    pub force_return_velocity_max_m_per_sec: i64,
    pub deadband_position_err_m: i64,
    pub deadband_velocity_limit_m_per_sec: i64,
    pub pos_err_filter_param: i64,
    pub vel_err_filter_param: i64,
    pub integral_err_decay_param: i64,
    pub pwm_gain_p: i64,
    pub pwm_gain_i: i64,
    pub pwm_gain_d: i64,
    pub pwm_bias: i64,
    pub pwm_minimum: i64,
    pub pwm_hz_low_motion: i64,
    pub pwm_hz_high_motion: i64,
    pub pwm_hz_filter_param: i64,
    pub pwm_velocity_threshold: i64,
    /// Watchdog deadline for winch status, milliseconds.
    pub winch_watchdog_millis: u64,
}

/// A pair of soft angle limits on one gimbal axis, encoder counts.
#[derive(Debug, PartialEq, Eq, Structural, Clone, Copy)]
pub struct AngleLimits {
    pub lower: i16,
    pub upper: i16,
}

/// One entry of the gimbal tracking controller's gain ladder.
#[derive(Debug, PartialEq, Eq, Structural, Clone, Copy)]
pub struct GimbalTrackingGain {
    pub width: i64,
    pub p_gain: i64,
    pub i_gain: i64,
}

/// Gimbal tracking, hold and limiter parameters.
#[derive(Debug, PartialEq, Clone)]
pub struct GimbalConfig {
    pub max_rate: i64,
    pub yaw_gains: Vec<GimbalTrackingGain>,
    pub pitch_gains: Vec<GimbalTrackingGain>,
    pub yaw_limits: AngleLimits,
    pub pitch_limits: AngleLimits,
    pub limiter_gain: i64,
    pub limiter_slowdown_extent: [i64; 2],
    pub hold_p_gain: i64,
    pub hold_i_gain: i64,
    pub tracking_i_decay_rate: i64,
    pub hold_i_decay_rate: i64,
}

/// Computer-vision interface parameters.
#[derive(Debug, PartialEq, Clone)]
pub struct VisionConfig {
    /// Tracking border in camera coordinates, micro-units.
    pub border_rect: [i64; 4],
    pub manual_control_deadzone: i64,
    pub manual_control_speed: i64,
    pub manual_control_restoring_force: i64,
    pub manual_control_restoring_force_width: i64,
    pub manual_control_timeout_sec: i64,
    pub tracking_default_area: i64,
    pub tracking_min_area: i64,
    pub tracking_max_area: i64,
    /// Labels to snap the tracked region to, each with a probability floor.
    pub snap_tracked_region_to: Vec<(String, i64)>,
}

/// Colours and wave parameters for the winch LEDs, micro-units.
#[derive(Debug, PartialEq, Clone, Copy)]
pub struct WinchLightingScheme {
    pub normal_color: [i64; 3],
    pub manual_selected_color: [i64; 3],
    pub manual_deselected_color: [i64; 3],
    pub halt_color: [i64; 3],
    pub error_color: [i64; 3],
    pub stuck_color: [i64; 3],
    pub command_color: [i64; 3],
    pub motion_color: [i64; 3],
    pub wavelength_m: i64,
    pub wave_window_length_m: i64,
    pub wave_amplitude: i64,
    pub wave_exponent: i64,
    pub speed_for_full_wave_amplitude_m_per_sec: i64,
    pub velocity_filter_param: i64,
}

/// One lighting scheme.
#[derive(Debug, PartialEq, Clone, Copy)]
pub struct LightingScheme {
    pub brightness: i64,
    pub flash_rate_hz: i64,
    pub flash_exponent: i64,
    pub winch: WinchLightingScheme,
}

/// LED animator timing.
#[derive(Debug, PartialEq, Eq, Structural, Clone, Copy)]
pub struct LightAnimatorConfig {
    pub frame_rate: i64,
    pub filter_param: i64,
}

/// Lighting configuration: the active scheme, saved schemes by name, and a
/// daily schedule of scheme changes by seconds past midnight.
#[derive(Debug, PartialEq, Clone)]
pub struct LightingConfig {
    pub animation: LightAnimatorConfig,
    pub current: LightingScheme,
    pub saved: Vec<(String, LightingScheme)>,
    pub schedule: Vec<(u32, String)>,
}

/// The complete controller configuration.
#[derive(Debug, PartialEq, Clone)]
pub struct Config {
    pub mode: ControllerMode,
    pub params: BotParams,
    pub gimbal: GimbalConfig,
    pub vision: VisionConfig,
    pub winches: Vec<WinchConfig>,
    pub lighting: LightingConfig,
}

/// A fixed-point parameter within the range the arithmetic accepts.
pub open spec fn fix_ok(x: i64) -> bool {
    -FIX_LIMIT <= x <= FIX_LIMIT
}

impl WinchCalibration {
    /// The calibration divides by both rates, which must be nonzero, and all
    /// three values stay within the fixed-point range.
    pub open spec fn well_formed(&self) -> bool {
        &&& fix_ok(self.force_zero_count)
        &&& fix_ok(self.kg_force_per_count)
        &&& fix_ok(self.m_dist_per_count)
        &&& self.kg_force_per_count != 0
        &&& self.m_dist_per_count != 0
    }

    /// Kilograms of force read from raw filtered counts.
    pub fn force_to_kg(&self, counts: i64) -> (r: i64)
        requires
            self.well_formed(),
            fix_ok(counts),
            -FIX_LIMIT <= counts - self.force_zero_count <= FIX_LIMIT,
        ensures
            r as int == fix_mul_spec(
                self.kg_force_per_count as int,
                counts - self.force_zero_count,
            ),
    {
        let delta = counts - self.force_zero_count;
        fix_mul(self.kg_force_per_count, delta)
    }

    /// Raw force counts that correspond to a force in kilograms.
    pub fn force_from_kg(&self, kg: i64) -> (r: i64)
        requires
            self.well_formed(),
            fix_ok(kg),
        ensures
            r as int == fix_div_spec(kg as int, self.kg_force_per_count as int)
                + self.force_zero_count,
    {
        fix_div(kg, self.kg_force_per_count) + self.force_zero_count
    }

    /// Metres of travel for a count distance.
    pub fn dist_to_m(&self, counts: i64) -> (r: i64)
        requires
            self.well_formed(),
            fix_ok(counts),
        ensures
            r as int == fix_mul_spec(self.m_dist_per_count as int, counts as int),
    {
        fix_mul(self.m_dist_per_count, counts)
    }

    /// Counts of travel for a distance in metres.
    pub fn dist_from_m(&self, m: i64) -> (r: i64)
        requires
            self.well_formed(),
            fix_ok(m),
        ensures
            r as int == fix_div_spec(m as int, self.m_dist_per_count as int),
    {
        fix_div(m, self.m_dist_per_count)
    }

    /// A PWM gain per metre converted to a gain per count.  Gains carry
    /// metres in the denominator, so this is the inverse of `dist_from_m`.
    pub fn pwm_gain_from_m(&self, gain: i64) -> (r: i64)
        requires
            self.well_formed(),
            fix_ok(gain),
        ensures
            r as int == fix_mul_spec(gain as int, self.m_dist_per_count as int),
    {
        fix_mul(gain, self.m_dist_per_count)
    }
}

impl BotParams {
    /// Every parameter within fixed-point range.
    pub open spec fn well_formed(&self) -> bool {
        &&& fix_ok(self.manual_control_velocity_m_per_sec)
        &&& fix_ok(self.accel_limit_m_per_sec2)
        &&& fix_ok(self.force_neg_motion_min_kg)
        &&& fix_ok(self.force_pos_motion_max_kg)
        &&& fix_ok(self.force_lockout_below_kg)
        &&& fix_ok(self.force_lockout_above_kg)
        &&& fix_ok(self.force_filter_param)
        &&& fix_ok(self.force_return_velocity_max_m_per_sec)
        &&& fix_ok(self.deadband_position_err_m)
        &&& fix_ok(self.deadband_velocity_limit_m_per_sec)
        &&& fix_ok(self.pos_err_filter_param)
        &&& fix_ok(self.vel_err_filter_param)
        &&& fix_ok(self.integral_err_decay_param)
        &&& fix_ok(self.pwm_gain_p)
        &&& fix_ok(self.pwm_gain_i)
        &&& fix_ok(self.pwm_gain_d)
        &&& fix_ok(self.pwm_bias)
        &&& fix_ok(self.pwm_minimum)
        &&& fix_ok(self.pwm_hz_low_motion)
        &&& fix_ok(self.pwm_hz_high_motion)
        &&& fix_ok(self.pwm_hz_filter_param)
        &&& fix_ok(self.pwm_velocity_threshold)
    }
}

impl GimbalConfig {
    /// Rates and gains bounded; angle limits ordered; widths non-negative.
    pub open spec fn well_formed(&self) -> bool {
        &&& 0 <= self.max_rate <= FIX_LIMIT
        &&& 0 <= self.limiter_gain <= FIX_LIMIT
        &&& fix_ok(self.limiter_slowdown_extent[0])
        &&& fix_ok(self.limiter_slowdown_extent[1])
        &&& 0 <= self.limiter_slowdown_extent[0]
        &&& 0 <= self.limiter_slowdown_extent[1]
        &&& fix_ok(self.hold_p_gain)
        &&& fix_ok(self.hold_i_gain)
        &&& 0 <= self.tracking_i_decay_rate <= crate::units::MICRO
        &&& 0 <= self.hold_i_decay_rate <= crate::units::MICRO
        &&& self.yaw_limits.lower <= self.yaw_limits.upper
        &&& self.pitch_limits.lower <= self.pitch_limits.upper
        &&& forall|i: int|
            0 <= i < self.yaw_gains@.len() ==> {
                &&& 0 <= (#[trigger] self.yaw_gains@[i]).width <= FIX_LIMIT
                &&& fix_ok(self.yaw_gains@[i].p_gain)
                &&& fix_ok(self.yaw_gains@[i].i_gain)
            }
        &&& forall|i: int|
            0 <= i < self.pitch_gains@.len() ==> {
                &&& 0 <= (#[trigger] self.pitch_gains@[i]).width <= FIX_LIMIT
                &&& fix_ok(self.pitch_gains@[i].p_gain)
                &&& fix_ok(self.pitch_gains@[i].i_gain)
            }
    }
}

impl VisionConfig {
    /// Every parameter within fixed-point range; the border small enough
    /// that rectangles constrained into it stay within range too.
    pub open spec fn well_formed(&self) -> bool {
        &&& forall|i: int| 0 <= i < 4 ==> -500_000_000_000 <= #[trigger] self.border_rect[i]
            <= 500_000_000_000
        &&& fix_ok(self.manual_control_deadzone)
        &&& fix_ok(self.manual_control_speed)
        &&& fix_ok(self.manual_control_restoring_force)
        &&& fix_ok(self.manual_control_restoring_force_width)
        &&& 0 <= self.manual_control_timeout_sec <= FIX_LIMIT
        &&& fix_ok(self.tracking_default_area)
        &&& fix_ok(self.tracking_min_area)
        &&& fix_ok(self.tracking_max_area)
    }
}

impl WinchLightingScheme {
    /// Every parameter within fixed-point range.
    pub open spec fn well_formed(&self) -> bool {
        &&& fix_ok(self.wavelength_m)
        &&& fix_ok(self.wave_window_length_m)
        &&& fix_ok(self.wave_amplitude)
        &&& fix_ok(self.wave_exponent)
        &&& fix_ok(self.speed_for_full_wave_amplitude_m_per_sec)
        &&& fix_ok(self.velocity_filter_param)
        &&& forall|i: int| 0 <= i < 3 ==> fix_ok(#[trigger] self.normal_color[i])
            && fix_ok(self.manual_selected_color[i]) && fix_ok(self.manual_deselected_color[i])
            && fix_ok(self.halt_color[i]) && fix_ok(self.error_color[i])
            && fix_ok(self.stuck_color[i]) && fix_ok(self.command_color[i])
            && fix_ok(self.motion_color[i])
    }
}

impl LightingScheme {
    /// Every parameter within fixed-point range.
    pub open spec fn well_formed(&self) -> bool {
        &&& fix_ok(self.brightness)
        &&& fix_ok(self.flash_rate_hz)
        &&& fix_ok(self.flash_exponent)
        &&& self.winch.well_formed()
    }
}

impl Config {
    /// The whole configuration is usable by the control loops.
    pub open spec fn well_formed(&self) -> bool {
        &&& self.params.well_formed()
        &&& self.gimbal.well_formed()
        &&& self.vision.well_formed()
        &&& forall|i: int|
            0 <= i < self.winches@.len() ==> {
                &&& (#[trigger] self.winches@[i]).calibration.well_formed()
                &&& fix_ok(self.winches@[i].loc[0])
                &&& fix_ok(self.winches@[i].loc[1])
                &&& fix_ok(self.winches@[i].loc[2])
            }
        &&& self.lighting.current.well_formed()
    }
}

} // verus!
