//! Per-winch motion planner and safety model.
//!
//! One controller instance per configured winch.  Each incoming status
//! re-synchronizes the assumed position on halts, motor shut-offs and tick
//! discontinuities, classifies the winch's mechanical state from its force
//! sensor, and builds the next firmware command.  Commanded velocity is
//! integrated into an integer position target through a sub-count
//! accumulator, so commanded motion never drifts.

use vstd::prelude::*;

use crate::config::{Config, ControllerMode, WinchCalibration};
use crate::led::WinchLighting;
use crate::message::{
    ForceCommand, PIDGains, WinchCommand, WinchDeadband, WinchPWMCommand, WinchStatus,
};
use crate::units::{clamp_i64, div_pos, div_q, fix_div, fix_div_spec, fix_mul, fix_mul_spec, FIX_LIMIT, MICRO};

verus! {

/// Two pi in micro-radians.
pub const TAU_MICRO: i64 = 6_283_185;

/// Largest per-tick position change the accumulator accepts, micro-counts.
pub const MAX_TICK_COUNTS: i64 = 1_000_000_000_000_000;

/// The winch's mechanical state, judged from its sensors.
#[derive(Debug, PartialEq, Eq, Structural, Clone, Copy)]
pub enum MechStatus {
    Normal,
    /// How far into the force limit, micro-units in `[-MICRO, MICRO]`.
    ForceLimited(i64),
    Stuck,
}

/// All sensor and echo values in a status report stay within fixed-point
/// range.
pub open spec fn status_fits(status: WinchStatus) -> bool {
    &&& -FIX_LIMIT <= status.sensors.force.filtered <= FIX_LIMIT
    &&& -FIX_LIMIT <= status.sensors.velocity <= FIX_LIMIT
    &&& -FIX_LIMIT <= status.command.force.neg_motion_min <= FIX_LIMIT
    &&& -FIX_LIMIT <= status.command.force.pos_motion_max <= FIX_LIMIT
    &&& -FIX_LIMIT <= status.command.force.lockout_below <= FIX_LIMIT
    &&& -FIX_LIMIT <= status.command.force.lockout_above <= FIX_LIMIT
}

/// The mechanical classification of a status report: lockout forces mean
/// stuck; forces past the motion limits mean force-limited, by the fraction
/// of the way from the limit to lockout, rounded away from zero so the
/// guard always keeps a definite direction; a disabled motor asked to move
/// means stuck; anything else is normal.
pub open spec fn mech_status_of(status: WinchStatus) -> MechStatus {
    let f = status.sensors.force.filtered as int;
    let force = status.command.force;
    if f > force.lockout_above {
        MechStatus::Stuck
    } else if f < force.lockout_below {
        MechStatus::Stuck
    } else if f > force.pos_motion_max {
        let unit = force.lockout_above - force.pos_motion_max;
        let q = div_q((f - force.pos_motion_max) * MICRO, if unit > MICRO {
            unit
        } else {
            MICRO as int
        });
        MechStatus::ForceLimited((if q > 0 {
            q
        } else {
            1
        }) as i64)
    } else if f < force.neg_motion_min {
        let unit = force.neg_motion_min - force.lockout_below;
        let q = div_q((f - force.neg_motion_min) * MICRO, if unit > MICRO {
            unit
        } else {
            MICRO as int
        });
        MechStatus::ForceLimited((if q < 0 {
            q
        } else {
            -1
        }) as i64)
    } else if status.motor.pwm.enabled == 0 {
        let position_err = status.command.position - status.sensors.position;
        let wrapped = wrap_i32(position_err);
        if (if wrapped >= 0 {
            wrapped
        } else {
            -wrapped
        }) > status.command.deadband.position {
            MechStatus::Stuck
        } else {
            MechStatus::Normal
        }
    } else {
        MechStatus::Normal
    }
}

/// `x` reduced into the signed 32-bit range, for `|x| < 2^32`.
pub open spec fn wrap_i32(x: int) -> int {
    if x > 0x7fff_ffff {
        x - 0x1_0000_0000
    } else if x < -0x8000_0000 {
        x + 0x1_0000_0000
    } else {
        x
    }
}

/// One accumulator step: add `delta` micro-counts (saturated to the
/// per-tick bound), move whole counts into the integer target with 32-bit
/// wrap, and keep the sub-count remainder.
pub open spec fn tick_step(quant: int, fract: int, delta: int) -> (int, int) {
    let d = if delta > MAX_TICK_COUNTS {
        MAX_TICK_COUNTS as int
    } else if delta < -MAX_TICK_COUNTS {
        -MAX_TICK_COUNTS as int
    } else {
        delta
    };
    let pos = fract + d;
    let whole = div_pos(pos, MICRO as int);
    (wrap_i32(quant + whole), pos - whole * MICRO)
}

/// The PWM period after one status: low-passed toward the carrier the
/// sensed speed selects, then clamped between the two carriers' periods;
/// unusable carrier frequencies leave it alone.
pub open spec fn pwm_period_next(period: int, params: crate::config::BotParams, velocity_m: int) -> int {
    if params.pwm_hz_high_motion <= 0 || params.pwm_hz_low_motion <= 0 {
        period
    } else {
        let period_high = fix_div_spec(MICRO as int, params.pwm_hz_high_motion as int);
        let period_low = fix_div_spec(MICRO as int, params.pwm_hz_low_motion as int);
        let period_min = if period_high < period_low {
            period_high
        } else {
            period_low
        };
        let period_max = if period_high > period_low {
            period_high
        } else {
            period_low
        };
        let speed = if velocity_m >= 0 {
            velocity_m
        } else {
            -velocity_m
        };
        let target = if speed >= params.pwm_velocity_threshold {
            period_high
        } else {
            period_low
        };
        let fparam = clamp_spec(params.pwm_hz_filter_param as int, 0, MICRO as int);
        let diff = clamp_spec(target - period, -FIX_LIMIT as int, FIX_LIMIT as int);
        let stepped = period + fix_mul_spec(diff, fparam);
        clamp_spec(
            clamp_spec(stepped, -1_000_000_000_000_000_000, 1_000_000_000_000_000_000),
            period_min,
            period_max,
        )
    }
}

/// The lighting velocity filter after one status: low-passed toward the
/// sensed velocity by the configured parameter.
pub open spec fn filtered_velocity_next(filtered: int, velocity_m: int, vparam: int) -> int {
    let diff = clamp_spec(velocity_m - filtered, -FIX_LIMIT as int, FIX_LIMIT as int);
    clamp_spec(
        filtered + fix_mul_spec(diff, clamp_spec(vparam, 0, MICRO as int)),
        -1_000_000_000_000_000_000,
        1_000_000_000_000_000_000,
    )
}

/// The sensed velocity of a status in micro-metres per second, through the
/// calibration and saturated to fixed-point range.
pub open spec fn sensed_velocity_m(status: WinchStatus, cal: WinchCalibration) -> int {
    clamp_spec(
        fix_mul_spec(cal.m_dist_per_count as int, status.sensors.velocity as int),
        -FIX_LIMIT as int,
        FIX_LIMIT as int,
    )
}

/// The distance a winch travelled between two statuses, micro-metres,
/// through the calibration and saturated to fixed-point range.
pub open spec fn sensed_distance_m(prev: WinchStatus, status: WinchStatus, cal: WinchCalibration) -> int {
    let counts = wrap_i32(status.sensors.position - prev.sensors.position);
    clamp_spec(
        fix_mul_spec(
            cal.m_dist_per_count as int,
            clamp_spec(counts * MICRO, -FIX_LIMIT as int, FIX_LIMIT as int),
        ),
        -FIX_LIMIT as int,
        FIX_LIMIT as int,
    )
}

/// A status arriving while halted, after a motor shut-off, or after a tick
/// discontinuity forces a position re-sync.
pub open spec fn reset_condition(
    mode: ControllerMode,
    last: Option<(WinchStatus, u64)>,
    status: WinchStatus,
) -> bool {
    ||| mode == ControllerMode::Halted
    ||| match last {
        None => true,  // no history: both the shut-off and discontinuity checks fire
        Some((prev, _)) => {
            ||| (prev.motor.pwm.enabled != 0 && status.motor.pwm.enabled == 0)
            ||| (status.tick_counter - prev.tick_counter) % 0x1_0000_0000 > 2
        },
    }
}

/// Per-winch controller state.
#[derive(Debug, PartialEq, Clone, Copy)]
pub struct WinchController {
    /// Mechanical classification of the latest status.
    pub mech_status: MechStatus,
    /// Which winch this is.
    pub id: usize,
    /// Freshest status and its arrival time in milliseconds.
    pub last_winch_status: Option<(WinchStatus, u64)>,
    /// Commanded position, encoder counts.
    pub quantized_position_target: i32,
    /// Sub-count accumulator, micro-counts in `(-MICRO, MICRO)`.
    pub fract_position_target: i64,
    /// Low-pass-filtered PWM period, micro-seconds.
    pub pwm_period: i64,
    /// Wave phase driven by commanded motion, micro-radians in `[0, TAU)`.
    pub lighting_command_phase: i64,
    /// Wave phase driven by observed motion, micro-radians in `[0, TAU)`.
    pub lighting_motion_phase: i64,
    /// Low-passed observed velocity, micro-metres per second.
    pub lighting_filtered_velocity: i64,
    /// Whether the last commanded velocity was nonzero.
    pub has_nonzero_velocity_command: bool,
}

impl WinchController {
    /// State bounds that every operation preserves.
    pub open spec fn well_formed(&self) -> bool {
        &&& match self.mech_status {
            MechStatus::ForceLimited(f) => -MICRO <= f <= MICRO,
            _ => true,
        }
        &&& -MICRO < self.fract_position_target < MICRO
        &&& 0 <= self.pwm_period <= 1_000_000_000_000_000_000
        &&& 0 <= self.lighting_command_phase < TAU_MICRO
        &&& 0 <= self.lighting_motion_phase < TAU_MICRO
        &&& -1_000_000_000_000_000_000 <= self.lighting_filtered_velocity
            <= 1_000_000_000_000_000_000
    }

    /// A fresh controller for winch `id`, at rest with no history.
    pub fn new(id: usize) -> (r: WinchController)
        ensures
            r.well_formed(),
            r.id == id,
            r.last_winch_status is None,
            r.quantized_position_target == 0,
            r.fract_position_target == 0,
            r.mech_status == MechStatus::Normal,
            !r.has_nonzero_velocity_command,
    {
        WinchController {
            id,
            last_winch_status: None,
            quantized_position_target: 0,
            fract_position_target: 0,
            pwm_period: 0,
            lighting_command_phase: 0,
            lighting_motion_phase: 0,
            lighting_filtered_velocity: 0,
            mech_status: MechStatus::Normal,
            has_nonzero_velocity_command: false,
        }
    }

    /// Apply one tick's worth of commanded motion at `m_per_s`
    /// micro-metres per second, advancing the position target and the
    /// command-wave phase.
    pub fn motion_tick_with_velocity(
        &mut self,
        config: &Config,
        cal: &WinchCalibration,
        m_per_s: i64,
    )
        requires
            old(self).well_formed(),
            config.well_formed(),
            cal.well_formed(),
            -FIX_LIMIT <= m_per_s <= FIX_LIMIT,
        ensures
            final(self).well_formed(),
            ({
                let distance_m = div_q(m_per_s as int, crate::message::TICK_HZ as int);
                let delta = fix_div_spec(distance_m, cal.m_dist_per_count as int);
                let (q, f) = tick_step(
                    old(self).quantized_position_target as int,
                    old(self).fract_position_target as int,
                    delta,
                );
                &&& final(self).quantized_position_target == q
                &&& final(self).fract_position_target == f
            }),
            final(self).has_nonzero_velocity_command == (m_per_s != 0),
            final(self).mech_status == old(self).mech_status,
            final(self).last_winch_status == old(self).last_winch_status,
            final(self).pwm_period == old(self).pwm_period,
            final(self).lighting_motion_phase == old(self).lighting_motion_phase,
    {
        let distance_m = if m_per_s >= 0 {
            m_per_s / (crate::message::TICK_HZ as i64)
        } else {
            -((-m_per_s) / (crate::message::TICK_HZ as i64))
        };
        self.move_position_target(cal, distance_m);
        self.advance_command_phase(config, distance_m);
        self.has_nonzero_velocity_command = m_per_s != 0;
    }

    /// Fold a distance in micro-metres into the integer position target.
    fn move_position_target(&mut self, cal: &WinchCalibration, distance_m: i64)
        requires
            old(self).well_formed(),
            cal.well_formed(),
            -FIX_LIMIT <= distance_m <= FIX_LIMIT,
        ensures
            final(self).well_formed(),
            ({
                let delta = fix_div_spec(distance_m as int, cal.m_dist_per_count as int);
                let (q, f) = tick_step(
                    old(self).quantized_position_target as int,
                    old(self).fract_position_target as int,
                    delta,
                );
                &&& final(self).quantized_position_target == q
                &&& final(self).fract_position_target == f
            }),
            *final(self) == (WinchController {
                quantized_position_target: final(self).quantized_position_target,
                fract_position_target: final(self).fract_position_target,
                ..*old(self)
            }),
    {
        let distance_counts = fix_div(distance_m, cal.m_dist_per_count);
        let d = clamp_i64(distance_counts, -MAX_TICK_COUNTS, MAX_TICK_COUNTS);
        let pos = self.fract_position_target + d;
        let whole: i64 = if pos >= 0 {
            pos / MICRO
        } else {
            -((-pos) / MICRO)
        };
        let fract = pos - whole * MICRO;
        let s: i64 = self.quantized_position_target as i64 + whole;
        let wrapped: i64 = if s > 0x7fff_ffff {
            s - 0x1_0000_0000
        } else if s < -0x8000_0000 {
            s + 0x1_0000_0000
        } else {
            s
        };
        proof {
            assert(-MICRO < fract < MICRO);
            assert(whole <= 0x7fff_ffff && whole >= -0x8000_0000);
        }
        self.quantized_position_target = wrapped as i32;
        self.fract_position_target = fract;
    }

    /// Advance the command-wave phase by the commanded distance.
    fn advance_command_phase(&mut self, config: &Config, distance_m: i64)
        requires
            old(self).well_formed(),
            config.well_formed(),
            -FIX_LIMIT <= distance_m <= FIX_LIMIT,
        ensures
            final(self).well_formed(),
            final(self).lighting_command_phase == phase_advance(
                old(self).lighting_command_phase as int,
                distance_m as int,
                config.lighting.current.winch.wavelength_m as int,
            ),
            *final(self) == (WinchController { lighting_command_phase: final(self).lighting_command_phase, ..*old(self) }),
    {
        let step = phase_step(distance_m, config.lighting.current.winch.wavelength_m);
        let sum = self.lighting_command_phase + step;
        self.lighting_command_phase = rem_tau(sum);
    }

    /// Whether the motor's H-bridge turned off since the last status.
    pub fn was_motor_shutoff(&self, status: &WinchStatus) -> (r: bool)
        ensures
            r == match self.last_winch_status {
                None => status.motor.pwm.enabled == 0,
                Some((prev, _)) => prev.motor.pwm.enabled != 0 && status.motor.pwm.enabled == 0,
            },
    {
        match &self.last_winch_status {
            None => status.motor.pwm.enabled == 0,
            Some((prev, _)) => prev.motor.pwm.enabled != 0 && status.motor.pwm.enabled == 0,
        }
    }

    /// Whether more than two firmware ticks elapsed between statuses.
    pub fn was_tick_discontinuity(&self, status: &WinchStatus) -> (r: bool)
        ensures
            r == match self.last_winch_status {
                None => true,
                Some((prev, _)) => (status.tick_counter - prev.tick_counter) % 0x1_0000_0000 > 2,
            },
    {
        match &self.last_winch_status {
            None => true,
            Some((prev, _)) => {
                let d: i64 = status.tick_counter as i64 - prev.tick_counter as i64;
                let w: i64 = if d < 0 {
                    d + 0x1_0000_0000
                } else {
                    d
                };
                w > 2
            },
        }
    }

    /// Whether the latest status is fresh enough for the watchdog.
    pub open spec fn status_recent_spec(&self, config: Config, now_millis: u64) -> bool {
        match self.last_winch_status {
            None => false,
            Some((_, t)) => t + config.params.winch_watchdog_millis > now_millis,
        }
    }

    /// Whether the latest status is fresh enough for the watchdog.
    pub fn is_status_recent(&self, config: &Config, now_millis: u64) -> (r: bool)
        ensures
            r == self.status_recent_spec(*config, now_millis),
    {
        match &self.last_winch_status {
            None => false,
            Some((_, t)) => {
                let deadline = config.params.winch_watchdog_millis;
                if *t <= u64::MAX - deadline {
                    *t + deadline > now_millis
                } else {
                    true
                }
            },
        }
    }

    /// Re-initialize the assumed winch state from this status.
    fn reset(&mut self, status: &WinchStatus, now_millis: u64)
        requires
            old(self).well_formed(),
        ensures
            final(self).well_formed(),
            final(self).last_winch_status == Some((*status, now_millis)),
            final(self).quantized_position_target == status.sensors.position,
            final(self).fract_position_target == 0,
            *final(self) == (WinchController {
                last_winch_status: final(self).last_winch_status,
                quantized_position_target: final(self).quantized_position_target,
                fract_position_target: final(self).fract_position_target,
                ..*old(self)
            }),
    {
        self.last_winch_status = Some((*status, now_millis));
        self.quantized_position_target = status.sensors.position;
        self.fract_position_target = 0;
    }

    /// Fold one status report into the controller: re-sync the position on
    /// a reset condition, advance the motion-wave phase and filters, and
    /// re-classify the mechanical state.
    pub fn update(
        &mut self,
        config: &Config,
        cal: &WinchCalibration,
        status: &WinchStatus,
        now_millis: u64,
    )
        requires
            old(self).well_formed(),
            config.well_formed(),
            cal.well_formed(),
            status_fits(*status),
        ensures
            final(self).well_formed(),
            final(self).mech_status == mech_status_of(*status),
            final(self).last_winch_status == Some((*status, now_millis)),
            reset_condition(config.mode, old(self).last_winch_status, *status) ==> {
                &&& final(self).quantized_position_target == status.sensors.position
                &&& final(self).fract_position_target == 0
            },
            !reset_condition(config.mode, old(self).last_winch_status, *status) ==> {
                &&& final(self).quantized_position_target == old(self).quantized_position_target
                &&& final(self).fract_position_target == old(self).fract_position_target
            },
            final(self).has_nonzero_velocity_command == old(self).has_nonzero_velocity_command,
            // The PWM period chases the speed-selected carrier inside the
            // two carriers' periods; the lighting filter chases the sensed
            // velocity; the motion-wave phase advances by the distance the
            // winch actually travelled since the effective last status.
            final(self).pwm_period == pwm_period_next(
                old(self).pwm_period as int,
                config.params,
                sensed_velocity_m(*status, *cal),
            ),
            final(self).lighting_filtered_velocity == filtered_velocity_next(
                old(self).lighting_filtered_velocity as int,
                sensed_velocity_m(*status, *cal),
                config.lighting.current.winch.velocity_filter_param as int,
            ),
            ({
                let prev = if reset_condition(config.mode, old(self).last_winch_status, *status) {
                    *status
                } else {
                    match old(self).last_winch_status {
                        Some((p, _)) => p,
                        None => *status,
                    }
                };
                final(self).lighting_motion_phase == phase_advance(
                    old(self).lighting_motion_phase as int,
                    sensed_distance_m(prev, *status, *cal),
                    config.lighting.current.winch.wavelength_m as int,
                )
            }),
            final(self).lighting_command_phase == old(self).lighting_command_phase,
    {
        let is_halted = matches!(config.mode, ControllerMode::Halted);
        if is_halted || self.was_motor_shutoff(status) || self.was_tick_discontinuity(status) {
            self.reset(status, now_millis);
        }

        let distance_traveled_m: i64 = match &self.last_winch_status {
            None => 0,
            Some((prev, _)) => {
                let raw: i64 = status.sensors.position as i64 - prev.sensors.position as i64;
                let w: i64 = if raw > 0x7fff_ffff {
                    raw - 0x1_0000_0000
                } else if raw < -0x8000_0000 {
                    raw + 0x1_0000_0000
                } else {
                    raw
                };
                cal.dist_to_m(clamp_i64(w * MICRO, -FIX_LIMIT, FIX_LIMIT))
            },
        };
        self.apply_sensed_motion(config, clamp_i64(distance_traveled_m, -FIX_LIMIT, FIX_LIMIT));

        let velocity_m = cal.dist_to_m(status.sensors.velocity);
        let velocity_clamped = clamp_i64(velocity_m, -FIX_LIMIT, FIX_LIMIT);
        let vparam = clamp_i64(config.lighting.current.winch.velocity_filter_param, 0, MICRO);
        let diff = clamp_i64(
            velocity_clamped - self.lighting_filtered_velocity,
            -FIX_LIMIT,
            FIX_LIMIT,
        );
        self.lighting_filtered_velocity = clamp_i64(
            self.lighting_filtered_velocity + fix_mul(diff, vparam),
            -1_000_000_000_000_000_000,
            1_000_000_000_000_000_000,
        );

        self.step_pwm_period(config, velocity_clamped);

        self.mech_status = mech_status_exec(status);
        self.last_winch_status = Some((*status, now_millis));
    }

    /// Advance the motion-wave phase by the observed distance.
    fn apply_sensed_motion(&mut self, config: &Config, distance_m: i64)
        requires
            old(self).well_formed(),
            config.well_formed(),
            -FIX_LIMIT <= distance_m <= FIX_LIMIT,
        ensures
            final(self).well_formed(),
            final(self).lighting_motion_phase == phase_advance(
                old(self).lighting_motion_phase as int,
                distance_m as int,
                config.lighting.current.winch.wavelength_m as int,
            ),
            *final(self) == (WinchController { lighting_motion_phase: final(self).lighting_motion_phase, ..*old(self) }),
    {
        let step = phase_step(distance_m, config.lighting.current.winch.wavelength_m);
        let sum = self.lighting_motion_phase + step;
        self.lighting_motion_phase = rem_tau(sum);
    }

    /// Low-pass the PWM period toward the carrier matching the speed, and
    /// clamp it between the two configured carriers' periods.
    fn step_pwm_period(&mut self, config: &Config, velocity_m: i64)
        requires
            old(self).well_formed(),
            config.well_formed(),
            -FIX_LIMIT <= velocity_m <= FIX_LIMIT,
        ensures
            final(self).well_formed(),
            final(self).pwm_period == pwm_period_next(
                old(self).pwm_period as int,
                config.params,
                velocity_m as int,
            ),
            *final(self) == (WinchController { pwm_period: final(self).pwm_period, ..*old(self) }),
    {
        let hz_high = config.params.pwm_hz_high_motion;
        let hz_low = config.params.pwm_hz_low_motion;
        if hz_high <= 0 || hz_low <= 0 {
            return ;
        }
        let period_high = fix_div(MICRO, hz_high);
        let period_low = fix_div(MICRO, hz_low);
        let period_min = if period_high < period_low {
            period_high
        } else {
            period_low
        };
        let period_max = if period_high > period_low {
            period_high
        } else {
            period_low
        };
        let speed = if velocity_m >= 0 {
            velocity_m
        } else {
            -velocity_m
        };
        let target = if speed >= config.params.pwm_velocity_threshold {
            period_high
        } else {
            period_low
        };
        let fparam = clamp_i64(config.params.pwm_hz_filter_param, 0, MICRO);
        let diff = clamp_i64(target - self.pwm_period, -FIX_LIMIT, FIX_LIMIT);
        let stepped = self.pwm_period + fix_mul(diff, fparam);
        proof {
            assert(0 <= period_min);
            assert(period_min <= period_max);
        }
        self.pwm_period = clamp_i64(
            clamp_i64(stepped, -1_000_000_000_000_000_000, 1_000_000_000_000_000_000),
            period_min,
            period_max,
        );
    }

    /// The base colour for this winch's LEDs: error colour under any
    /// mechanical trouble, otherwise by mode.
    pub fn lighting_base_color(&self, config: &Config) -> (r: [i64; 3])
        ensures
            r == lighting_base_color_spec(*self, *config),
    {
        if !matches!(self.mech_status, MechStatus::Normal) {
            config.lighting.current.winch.error_color
        } else {
            match config.mode {
                ControllerMode::ManualWinch(id) => {
                    if id == self.id {
                        config.lighting.current.winch.manual_selected_color
                    } else {
                        config.lighting.current.winch.manual_deselected_color
                    }
                },
                ControllerMode::Halted => config.lighting.current.winch.halt_color,
                _ => config.lighting.current.winch.normal_color,
            }
        }
    }

    /// The colour the flash envelope blends in: the stuck colour when
    /// stuck, else the base colour.
    pub fn lighting_flash_color(&self, config: &Config) -> (r: [i64; 3])
        ensures
            r == if self.mech_status == MechStatus::Stuck {
                config.lighting.current.winch.stuck_color
            } else {
                lighting_base_color_spec(*self, *config)
            },
    {
        if matches!(self.mech_status, MechStatus::Stuck) {
            config.lighting.current.winch.stuck_color
        } else {
            self.lighting_base_color(config)
        }
    }

    /// The wave amplitude: zero while halted or in mechanical trouble,
    /// otherwise the filtered speed's share of full scale times the
    /// configured amplitude.
    pub fn lighting_wave_amplitude(&self, config: &Config) -> (r: i64)
        requires
            self.well_formed(),
            config.well_formed(),
        ensures
            config.mode == ControllerMode::Halted ==> r == 0,
            self.mech_status != MechStatus::Normal && config.mode != ControllerMode::Halted ==> r
                == 0,
            -FIX_LIMIT <= r <= FIX_LIMIT,
    {
        match config.mode {
            ControllerMode::Halted => 0,
            _ => {
                if !matches!(self.mech_status, MechStatus::Normal) {
                    0
                } else {
                    let full_scale =
                        config.lighting.current.winch.speed_for_full_wave_amplitude_m_per_sec;
                    if full_scale == 0 {
                        return 0;
                    }
                    let speed = if self.lighting_filtered_velocity >= 0 {
                        self.lighting_filtered_velocity
                    } else {
                        -self.lighting_filtered_velocity
                    };
                    let share = clamp_i64(
                        fix_div(clamp_i64(speed, 0, FIX_LIMIT), full_scale),
                        0,
                        MICRO,
                    );
                    clamp_i64(
                        fix_mul(share, config.lighting.current.winch.wave_amplitude),
                        -FIX_LIMIT,
                        FIX_LIMIT,
                    )
                }
            },
        }
    }

    /// Everything this winch's LEDs need for the next frames.
    pub fn light_environment(&self, config: &Config) -> (r: WinchLighting)
        requires
            self.well_formed(),
            config.well_formed(),
        ensures
            r.command_phase == self.lighting_command_phase,
            r.motion_phase == self.lighting_motion_phase,
            r.base_color == lighting_base_color_spec(*self, *config),
            r.flash_color == if self.mech_status == MechStatus::Stuck {
                config.lighting.current.winch.stuck_color
            } else {
                lighting_base_color_spec(*self, *config)
            },
    {
        WinchLighting {
            command_phase: self.lighting_command_phase,
            motion_phase: self.lighting_motion_phase,
            wave_amplitude: self.lighting_wave_amplitude(config),
            base_color: self.lighting_base_color(config),
            flash_color: self.lighting_flash_color(config),
        }
    }

    /// The command this winch should receive for `status`: halted mode
    /// holds the sensed position with the PID disabled; otherwise the
    /// integrated target is commanded with the configured gains, all
    /// unit-converted through the calibration.
    pub fn make_command(&self, config: &Config, cal: &WinchCalibration, status: &WinchStatus) -> (r:
        WinchCommand)
        requires
            self.well_formed(),
            config.well_formed(),
            cal.well_formed(),
        ensures
            r == command_spec(*self, *config, *cal, *status),
    {
        let force = self.make_force_command(config, cal);
        let deadband = self.make_deadband(config, cal);
        let pwm = self.make_pwm_command(config);
        if matches!(config.mode, ControllerMode::Halted) {
            WinchCommand {
                position: status.sensors.position,
                force,
                pid: WinchController::make_halted_pid_gains(),
                deadband,
                pwm,
            }
        } else {
            WinchCommand {
                position: self.quantized_position_target,
                force,
                pid: self.make_pid_gains(config, cal),
                deadband,
                pwm,
            }
        }
    }

    /// The configured force limits converted to raw sensor counts.
    fn make_force_command(&self, config: &Config, cal: &WinchCalibration) -> (r: ForceCommand)
        requires
            config.well_formed(),
            cal.well_formed(),
        ensures
            r == force_command_of(*config, *cal),
    {
        ForceCommand {
            filter_param: config.params.force_filter_param,
            neg_motion_min: cal.force_from_kg(config.params.force_neg_motion_min_kg),
            pos_motion_max: cal.force_from_kg(config.params.force_pos_motion_max_kg),
            lockout_below: cal.force_from_kg(config.params.force_lockout_below_kg),
            lockout_above: cal.force_from_kg(config.params.force_lockout_above_kg),
        }
    }

    /// The current PWM carrier command: the inverse of the filtered period.
    fn make_pwm_command(&self, config: &Config) -> (r: WinchPWMCommand)
        requires
            self.well_formed(),
            config.well_formed(),
        ensures
            r.bias == config.params.pwm_bias,
            r.minimum == config.params.pwm_minimum,
            r.hz == if self.pwm_period > 0 {
                div_pos(MICRO as int * MICRO, self.pwm_period as int)
            } else {
                0int
            },
    {
        let hz: i64 = if self.pwm_period > 0 {
            (MICRO * MICRO) / self.pwm_period
        } else {
            0
        };
        WinchPWMCommand { hz, bias: config.params.pwm_bias, minimum: config.params.pwm_minimum }
    }

    /// The configured PID gains converted to per-count units.
    fn make_pid_gains(&self, config: &Config, cal: &WinchCalibration) -> (r: PIDGains)
        requires
            config.well_formed(),
            cal.well_formed(),
        ensures
            r == pid_gains_of(*config, *cal),
    {
        PIDGains {
            gain_p: cal.pwm_gain_from_m(config.params.pwm_gain_p),
            gain_i: cal.pwm_gain_from_m(config.params.pwm_gain_i),
            gain_d: cal.pwm_gain_from_m(config.params.pwm_gain_d),
            p_filter_param: config.params.pos_err_filter_param,
            i_decay_param: config.params.integral_err_decay_param,
            d_filter_param: config.params.vel_err_filter_param,
        }
    }

    /// Gains that disable the PID entirely while halted.
    fn make_halted_pid_gains() -> (r: PIDGains)
        ensures
            r == halted_pid_gains(),
    {
        PIDGains {
            gain_p: 0,
            gain_i: 0,
            gain_d: 0,
            p_filter_param: MICRO,
            i_decay_param: MICRO,
            d_filter_param: MICRO,
        }
    }

    /// The stop tolerance: zero while motion is commanded, so the firmware
    /// deadband cannot bias a move, and the configured tolerance otherwise.
    fn make_deadband(&self, config: &Config, cal: &WinchCalibration) -> (r: WinchDeadband)
        requires
            config.well_formed(),
            cal.well_formed(),
        ensures
            r == deadband_of(*config, *cal, self.has_nonzero_velocity_command),
    {
        let velocity = fix_div(config.params.deadband_velocity_limit_m_per_sec, cal.m_dist_per_count);
        let position: i32 = if self.has_nonzero_velocity_command {
            0
        } else {
            let micro_counts = fix_div(config.params.deadband_position_err_m, cal.m_dist_per_count);
            let rounded = round_to_unit(micro_counts);
            clamp_i64(rounded, -0x8000_0000, 0x7fff_ffff) as i32
        };
        WinchDeadband { position, velocity }
    }
}

/// The base LED colour of a winch: the error colour under any mechanical
/// trouble, else selected by mode.
pub open spec fn lighting_base_color_spec(ctrl: WinchController, config: Config) -> [i64; 3] {
    if ctrl.mech_status != MechStatus::Normal {
        config.lighting.current.winch.error_color
    } else {
        match config.mode {
            ControllerMode::ManualWinch(id) => if id == ctrl.id {
                config.lighting.current.winch.manual_selected_color
            } else {
                config.lighting.current.winch.manual_deselected_color
            },
            ControllerMode::Halted => config.lighting.current.winch.halt_color,
            _ => config.lighting.current.winch.normal_color,
        }
    }
}

/// The PID gains a halted winch receives: all zero, filters wide open.
pub open spec fn halted_pid_gains() -> PIDGains {
    PIDGains {
        gain_p: 0,
        gain_i: 0,
        gain_d: 0,
        p_filter_param: MICRO,
        i_decay_param: MICRO,
        d_filter_param: MICRO,
    }
}

/// The configured PID gains in per-count units.
pub open spec fn pid_gains_of(config: Config, cal: WinchCalibration) -> PIDGains {
    PIDGains {
        gain_p: fix_mul_spec(config.params.pwm_gain_p as int, cal.m_dist_per_count as int) as i64,
        gain_i: fix_mul_spec(config.params.pwm_gain_i as int, cal.m_dist_per_count as int) as i64,
        gain_d: fix_mul_spec(config.params.pwm_gain_d as int, cal.m_dist_per_count as int) as i64,
        p_filter_param: config.params.pos_err_filter_param,
        i_decay_param: config.params.integral_err_decay_param,
        d_filter_param: config.params.vel_err_filter_param,
    }
}

/// The configured force limits in raw sensor counts.
pub open spec fn force_command_of(config: Config, cal: WinchCalibration) -> ForceCommand {
    ForceCommand {
        filter_param: config.params.force_filter_param,
        neg_motion_min: (fix_div_spec(
            config.params.force_neg_motion_min_kg as int,
            cal.kg_force_per_count as int,
        ) + cal.force_zero_count) as i64,
        pos_motion_max: (fix_div_spec(
            config.params.force_pos_motion_max_kg as int,
            cal.kg_force_per_count as int,
        ) + cal.force_zero_count) as i64,
        lockout_below: (fix_div_spec(
            config.params.force_lockout_below_kg as int,
            cal.kg_force_per_count as int,
        ) + cal.force_zero_count) as i64,
        lockout_above: (fix_div_spec(
            config.params.force_lockout_above_kg as int,
            cal.kg_force_per_count as int,
        ) + cal.force_zero_count) as i64,
    }
}

/// The stop tolerance for a winch, by whether motion is being commanded.
pub open spec fn deadband_of(config: Config, cal: WinchCalibration, moving: bool) -> WinchDeadband {
    WinchDeadband {
        position: if moving {
            0
        } else {
            clamp_spec(
                round_to_unit_spec(
                    fix_div_spec(
                        config.params.deadband_position_err_m as int,
                        cal.m_dist_per_count as int,
                    ),
                ),
                -0x8000_0000,
                0x7fff_ffff,
            ) as i32
        },
        velocity: fix_div_spec(
            config.params.deadband_velocity_limit_m_per_sec as int,
            cal.m_dist_per_count as int,
        ) as i64,
    }
}

/// Clamp into `[lo, hi]`, in specifications.
pub open spec fn clamp_spec(v: int, lo: int, hi: int) -> int {
    if v < lo {
        lo
    } else if v > hi {
        hi
    } else {
        v
    }
}

/// Micro-units rounded to the nearest whole unit, halves away from zero.
pub open spec fn round_to_unit_spec(x: int) -> int {
    if x >= 0 {
        (x + MICRO / 2) / (MICRO as int)
    } else {
        -((-x + MICRO / 2) / (MICRO as int))
    }
}

/// Micro-units rounded to the nearest whole unit, halves away from zero.
pub fn round_to_unit(x: i64) -> (r: i64)
    requires
        -1_000_000_000_000_000_000 <= x <= 1_000_000_000_000_000_000,
    ensures
        r == round_to_unit_spec(x as int),
{
    if x >= 0 {
        (x + MICRO / 2) / MICRO
    } else {
        -((-x + MICRO / 2) / MICRO)
    }
}

/// The phase increment for a travelled distance: `distance * TAU /
/// wavelength`, micro-radians, saturated to one full turn either way.
pub open spec fn phase_step_spec(distance_m: int, wavelength: int) -> int {
    if wavelength == 0 {
        0
    } else {
        clamp_spec(div_q(distance_m * TAU_MICRO, wavelength * MICRO), -TAU_MICRO as int, TAU_MICRO as int)
    }
}

/// A phase advanced by a travelled distance, wrapped into `[0, TAU)`.
pub open spec fn phase_advance(phase: int, distance_m: int, wavelength: int) -> int {
    let s = phase + phase_step_spec(distance_m, wavelength);
    if s < 0 {
        s + TAU_MICRO
    } else if s >= TAU_MICRO {
        s - TAU_MICRO
    } else {
        s
    }
}

/// The phase increment for a travelled distance.
fn phase_step(distance_m: i64, wavelength: i64) -> (r: i64)
    requires
        -FIX_LIMIT <= distance_m <= FIX_LIMIT,
        -FIX_LIMIT <= wavelength <= FIX_LIMIT,
    ensures
        r == phase_step_spec(distance_m as int, wavelength as int),
        -TAU_MICRO <= r <= TAU_MICRO,
{
    if wavelength == 0 {
        return 0;
    }
    proof {
        assert(-6_283_185_000_000_000_000 <= distance_m as int * TAU_MICRO
            <= 6_283_185_000_000_000_000) by (nonlinear_arith)
            requires
                -FIX_LIMIT <= distance_m <= FIX_LIMIT,
                FIX_LIMIT == 1_000_000_000_000,
                TAU_MICRO == 6_283_185,
        ;
    }
    let p: i128 = (distance_m as i128) * (TAU_MICRO as i128);
    proof {
        assert(-1_000_000_000_000_000_000 <= wavelength as int * (MICRO as int)
            <= 1_000_000_000_000_000_000) by (nonlinear_arith)
            requires
                -FIX_LIMIT <= wavelength <= FIX_LIMIT,
                MICRO == 1_000_000,
                FIX_LIMIT == 1_000_000_000_000,
        ;
    }
    let w: i128 = (wavelength as i128) * (MICRO as i128);
    let wabs: i128 = if w > 0 {
        w
    } else {
        -w
    };
    let q = crate::units::i128_div_trunc(p, wabs);
    let signed: i128 = if w > 0 {
        q
    } else {
        -q
    };
    proof {
        crate::units::lemma_div_pos_mag(p as int, wabs as int, 6_283_185_000_000_000_000int);
    }
    let clamped: i128 = if signed > TAU_MICRO as i128 {
        TAU_MICRO as i128
    } else if signed < -(TAU_MICRO as i128) {
        -(TAU_MICRO as i128)
    } else {
        signed
    };
    clamped as i64
}

/// Wrap a phase sum into `[0, TAU)`; the sum stays within one turn of it.
fn rem_tau(s: i64) -> (r: i64)
    requires
        -TAU_MICRO <= s < 2 * TAU_MICRO,
    ensures
        r == if s < 0 {
            s + TAU_MICRO
        } else if s >= TAU_MICRO {
            s - TAU_MICRO
        } else {
            s as int
        },
        0 <= r < TAU_MICRO,
{
    if s < 0 {
        s + TAU_MICRO
    } else if s >= TAU_MICRO {
        s - TAU_MICRO
    } else {
        s
    }
}

/// The mechanical classification, executably.
fn mech_status_exec(status: &WinchStatus) -> (r: MechStatus)
    requires
        status_fits(*status),
    ensures
        r == mech_status_of(*status),
        match r {
            MechStatus::ForceLimited(f) => -MICRO <= f <= MICRO && f != 0,
            _ => true,
        },
{
    let f = status.sensors.force.filtered;
    let force = &status.command.force;
    if f > force.lockout_above {
        MechStatus::Stuck
    } else if f < force.lockout_below {
        MechStatus::Stuck
    } else if f > force.pos_motion_max {
        let unit = force.lockout_above - force.pos_motion_max;
        let denom = if unit > MICRO {
            unit
        } else {
            MICRO
        };
        let p: i128 = ((f - force.pos_motion_max) as i128) * (MICRO as i128);
        let q = crate::units::i128_div_trunc(p, denom as i128);
        proof {
            crate::units::lemma_div_pos_mag(p as int, denom as int, MICRO as int);
            assert((f - force.pos_motion_max) * MICRO <= denom * MICRO) by (nonlinear_arith)
                requires
                    f - force.pos_motion_max <= denom,
                    MICRO > 0,
            ;
        }
        let fraction = if q > 0 {
            q as i64
        } else {
            1
        };
        MechStatus::ForceLimited(fraction)
    } else if f < force.neg_motion_min {
        let unit = force.neg_motion_min - force.lockout_below;
        let denom = if unit > MICRO {
            unit
        } else {
            MICRO
        };
        let p: i128 = ((f - force.neg_motion_min) as i128) * (MICRO as i128);
        let q = crate::units::i128_div_trunc(p, denom as i128);
        proof {
            crate::units::lemma_div_pos_mag(p as int, denom as int, MICRO as int);
            assert(-(denom * MICRO) <= (f - force.neg_motion_min) * MICRO) by (nonlinear_arith)
                requires
                    -denom <= f - force.neg_motion_min,
                    MICRO > 0,
            ;
        }
        let fraction = if q < 0 {
            q as i64
        } else {
            -1
        };
        MechStatus::ForceLimited(fraction)
    } else if status.motor.pwm.enabled == 0 {
        let raw: i64 = status.command.position as i64 - status.sensors.position as i64;
        let wrapped: i64 = if raw > 0x7fff_ffff {
            raw - 0x1_0000_0000
        } else if raw < -0x8000_0000 {
            raw + 0x1_0000_0000
        } else {
            raw
        };
        let mag: i64 = if wrapped >= 0 {
            wrapped
        } else {
            -wrapped
        };
        if mag > status.command.deadband.position as i64 {
            MechStatus::Stuck
        } else {
            MechStatus::Normal
        }
    } else {
        MechStatus::Normal
    }
}

/// Law: position integration is drift-free.  One accumulator step
/// conserves the total commanded motion exactly: the integer target and
/// the sub-count remainder together change by exactly the saturated
/// per-tick delta, up to one 32-bit wrap of the integer target.
pub proof fn lemma_tick_step_conserves(quant: int, fract: int, delta: int)
    requires
        -0x8000_0000 <= quant <= 0x7fff_ffff,
        -MICRO < fract < MICRO,
        -MAX_TICK_COUNTS <= delta <= MAX_TICK_COUNTS,
    ensures
        ({
            let (q, f) = tick_step(quant, fract, delta);
            &&& -MICRO < f < MICRO
            &&& -0x8000_0000 <= q <= 0x7fff_ffff
            &&& (q * MICRO + f) % (0x1_0000_0000 * MICRO) == (quant * MICRO + fract + delta) % (
            0x1_0000_0000 * MICRO)
        }),
{
    let pos0 = fract + (if delta > MAX_TICK_COUNTS {
        MAX_TICK_COUNTS as int
    } else if delta < -MAX_TICK_COUNTS {
        -MAX_TICK_COUNTS as int
    } else {
        delta
    });
    crate::units::lemma_div_pos_mag(pos0, MICRO as int, 1_000_000_001int);
    let pos = fract + delta;
    let whole = div_pos(pos, MICRO as int);
    let f = pos - whole * MICRO;
    let q = wrap_i32(quant + whole);
    assert(-MICRO < f < MICRO);
    let m: int = 0x1_0000_0000 * MICRO;
    let unwrapped = (quant + whole) * MICRO + f;
    assert(unwrapped == quant * MICRO + fract + delta) by (nonlinear_arith)
        requires
            unwrapped == (quant + whole) * MICRO + f,
            f == fract + delta - whole * MICRO,
    ;
    if quant + whole > 0x7fff_ffff {
        assert(q == quant + whole - 0x1_0000_0000);
        assert(q * MICRO + f == unwrapped - m) by (nonlinear_arith)
            requires
                q == quant + whole - 0x1_0000_0000,
                unwrapped == (quant + whole) * MICRO + f,
                m == 0x1_0000_0000 * MICRO,
        ;
        assert((unwrapped - m) % m == unwrapped % m) by {
            vstd::arithmetic::div_mod::lemma_mod_sub_multiples_vanish(unwrapped, m);
        }
    } else if quant + whole < -0x8000_0000 {
        assert(q == quant + whole + 0x1_0000_0000);
        assert(q * MICRO + f == unwrapped + m) by (nonlinear_arith)
            requires
                q == quant + whole + 0x1_0000_0000,
                unwrapped == (quant + whole) * MICRO + f,
                m == 0x1_0000_0000 * MICRO,
        ;
        assert((unwrapped + m) % m == unwrapped % m) by {
            vstd::arithmetic::div_mod::lemma_mod_add_multiples_vanish(unwrapped, m);
        }
    } else {
        assert(q * MICRO + f == unwrapped) by (nonlinear_arith)
            requires
                q == quant + whole,
                unwrapped == (quant + whole) * MICRO + f,
        ;
    }
}

/// The accumulator after folding in the per-tick deltas from index `i` on.
pub open spec fn tick_fold(quant: int, fract: int, deltas: Seq<int>, i: int) -> (int, int)
    decreases deltas.len() - i,
{
    if i < 0 || i >= deltas.len() {
        (quant, fract)
    } else {
        let (q, f) = tick_step(quant, fract, deltas[i]);
        tick_fold(q, f, deltas, i + 1)
    }
}

/// The sum of the deltas from index `i` on.
pub open spec fn delta_sum(deltas: Seq<int>, i: int) -> int
    decreases deltas.len() - i,
{
    if i < 0 || i >= deltas.len() {
        0
    } else {
        deltas[i] + delta_sum(deltas, i + 1)
    }
}

/// Law: position integration is drift-free over any run.  Folding any
/// sequence of per-tick deltas through the accumulator changes the integer
/// target and sub-count remainder together by exactly the sum of the
/// deltas, modulo the 32-bit wrap of the target.
pub proof fn lemma_position_integration_drift_free(
    quant: int,
    fract: int,
    deltas: Seq<int>,
    i: int,
)
    requires
        -0x8000_0000 <= quant <= 0x7fff_ffff,
        -MICRO < fract < MICRO,
        0 <= i,
        forall|k: int|
            i <= k < deltas.len() ==> -MAX_TICK_COUNTS <= #[trigger] deltas[k] <= MAX_TICK_COUNTS,
    ensures
        ({
            let (q, f) = tick_fold(quant, fract, deltas, i);
            &&& -MICRO < f < MICRO
            &&& -0x8000_0000 <= q <= 0x7fff_ffff
            &&& (q * MICRO + f) % (0x1_0000_0000 * MICRO) == (quant * MICRO + fract + delta_sum(
                deltas,
                i,
            )) % (0x1_0000_0000 * MICRO)
        }),
    decreases deltas.len() - i,
{
    let m: int = 0x1_0000_0000 * MICRO;
    if i >= deltas.len() {
    } else {
        lemma_tick_step_conserves(quant, fract, deltas[i]);
        let (q1, f1) = tick_step(quant, fract, deltas[i]);
        lemma_position_integration_drift_free(q1, f1, deltas, i + 1);
        let (q, f) = tick_fold(q1, f1, deltas, i + 1);
        let rest = delta_sum(deltas, i + 1);
        // Congruence carries the one-step conservation through the rest of
        // the run.
        vstd::arithmetic::div_mod::lemma_add_mod_noop(q1 * MICRO + f1, rest, m);
        vstd::arithmetic::div_mod::lemma_add_mod_noop(quant * MICRO + fract + deltas[i], rest, m);
    }
}

/// Law: reset re-synchronization.  After any reset condition, the next
/// command built in halted mode holds the winch exactly where its sensors
/// say it is, with the PID disabled.
pub proof fn lemma_reset_idempotent(
    ctrl: WinchController,
    config: Config,
    cal: WinchCalibration,
    status: WinchStatus,
)
    requires
        ctrl.well_formed(),
        config.well_formed(),
        cal.well_formed(),
        config.mode == ControllerMode::Halted,
    ensures
        ({
            let r = command_spec(ctrl, config, cal, status);
            &&& r.position == status.sensors.position
            &&& r.pid == halted_pid_gains()
        }),
{
}

/// What `make_command` returns, as a value.
pub open spec fn command_spec(
    ctrl: WinchController,
    config: Config,
    cal: WinchCalibration,
    status: WinchStatus,
) -> WinchCommand {
    WinchCommand {
        position: if config.mode == ControllerMode::Halted {
            status.sensors.position
        } else {
            ctrl.quantized_position_target
        },
        force: force_command_of(config, cal),
        pid: if config.mode == ControllerMode::Halted {
            halted_pid_gains()
        } else {
            pid_gains_of(config, cal)
        },
        deadband: deadband_of(config, cal, ctrl.has_nonzero_velocity_command),
        pwm: WinchPWMCommand {
            hz: if ctrl.pwm_period > 0 {
                div_pos(MICRO as int * MICRO, ctrl.pwm_period as int) as i64
            } else {
                0
            },
            bias: config.params.pwm_bias,
            minimum: config.params.pwm_minimum,
        },
    }
}

} // verus!
