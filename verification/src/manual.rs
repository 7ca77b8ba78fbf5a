//! Manual control fusion: gamepad and client axis inputs become a
//! rate-limited velocity vector and a camera nudge.
//!
//! Axis values are stored raw and clamped to `[-MICRO, MICRO]` when read.
//! Moving the camera stick outside its deadzone takes over the tracked
//! region for a configured timeout.

use vstd::prelude::*;

use crate::config::{Config, ControllerMode, GimbalTrackingGain};
use crate::message::ManualControlAxis;
use crate::rect::{rect_center, rect_centered_on_origin, rect_constrain, rect_translate};
use crate::units::{clamp_i64, fix_mul, fix_mul_spec, isqrt_u128, sqrt_floor, FIX_LIMIT, MICRO};
use crate::velocity::RateLimitedVelocity;
use crate::winch::clamp_spec;

verus! {

/// The five manual axes, stored raw.
#[derive(Debug, PartialEq, Eq, Structural, Clone, Copy)]
pub struct AxisValues {
    pub camera_yaw: i64,
    pub camera_pitch: i64,
    pub relative_x: i64,
    pub relative_y: i64,
    pub relative_z: i64,
}

/// Every axis at zero.
pub open spec fn axes_zero() -> AxisValues {
    AxisValues { camera_yaw: 0, camera_pitch: 0, relative_x: 0, relative_y: 0, relative_z: 0 }
}

/// The stored value of one axis.
pub open spec fn axis_value(axes: AxisValues, axis: ManualControlAxis) -> i64 {
    match axis {
        ManualControlAxis::CameraYaw => axes.camera_yaw,
        ManualControlAxis::CameraPitch => axes.camera_pitch,
        ManualControlAxis::RelativeX => axes.relative_x,
        ManualControlAxis::RelativeY => axes.relative_y,
        ManualControlAxis::RelativeZ => axes.relative_z,
    }
}

/// An axis as the controller reads it: clamped to one full deflection.
pub open spec fn axis_clamped(axes: AxisValues, axis: ManualControlAxis) -> int {
    clamp_spec(axis_value(axes, axis) as int, -MICRO as int, MICRO as int)
}

/// Manual-control state.
#[derive(Debug, PartialEq, Clone, Copy)]
pub struct ManualControls {
    pub axes: AxisValues,
    pub velocity: RateLimitedVelocity,
    /// While set and in the future, manual camera control overrides the
    /// vision pipeline; milliseconds.
    pub camera_control_active_until_timestamp: Option<u64>,
}

/// The restoring force contributed by the gain entries from `i` on: each
/// entry pushes back when the tracked region is within its (scaled) width
/// of either border edge.
pub open spec fn restoring_force_from(
    gains: Seq<GimbalTrackingGain>,
    rf_width: int,
    lower_dist: int,
    upper_dist: int,
    i: int,
) -> int
    decreases gains.len() - i,
{
    if i < 0 || i >= gains.len() {
        0
    } else {
        let w = fix_mul_spec(gains[i].width as int, rf_width);
        let lo = if w - lower_dist > 0 {
            w - lower_dist
        } else {
            0
        };
        let hi = if w - upper_dist > 0 {
            w - upper_dist
        } else {
            0
        };
        lo - hi + restoring_force_from(gains, rf_width, lower_dist, upper_dist, i + 1)
    }
}

/// The camera-override deadline after one tick: a stick outside the
/// deadzone claims control until the configured timeout from now
/// (saturating), and inside it the existing claim stands.
pub open spec fn camera_claim_next(
    pre: ManualControls,
    config: Config,
    now_millis: u64,
) -> Option<u64> {
    let cam0 = axis_clamped(pre.axes, ManualControlAxis::CameraYaw);
    let cam1 = axis_clamped(pre.axes, ManualControlAxis::CameraPitch);
    let z = config.vision.manual_control_deadzone as int;
    if cam0 * cam0 + cam1 * cam1 <= z * z {
        pre.camera_control_active_until_timestamp
    } else {
        let timeout = (config.vision.manual_control_timeout_sec / 1000) as u64;
        if now_millis <= u64::MAX - timeout {
            Some((now_millis + timeout) as u64)
        } else {
            Some(u64::MAX)
        }
    }
}

/// What one manual tick does: halting drops all manual state; otherwise
/// the axes stay, the velocity takes one rate-limited step toward the
/// scaled axis targets, and the camera claim renews exactly when the
/// stick is outside its deadzone.
pub open spec fn manual_tick_post(
    pre: ManualControls,
    post: ManualControls,
    config: Config,
    now_millis: u64,
) -> bool {
    if config.mode == ControllerMode::Halted {
        &&& post.axes == axes_zero()
        &&& post.velocity.vec@ == seq![0i64, 0i64, 0i64]
        &&& post.camera_control_active_until_timestamp is None
    } else {
        let scale = config.params.manual_control_velocity_m_per_sec as int;
        let target = seq![
            fix_mul_spec(axis_clamped(pre.axes, ManualControlAxis::RelativeX), scale) as i64,
            fix_mul_spec(axis_clamped(pre.axes, ManualControlAxis::RelativeY), scale) as i64,
            fix_mul_spec(axis_clamped(pre.axes, ManualControlAxis::RelativeZ), scale) as i64,
        ];
        let limit = crate::units::div_pos(
            config.params.accel_limit_m_per_sec2 as int,
            crate::message::TICK_HZ as int,
        );
        &&& post.axes == pre.axes
        &&& (forall|i: int|
            0 <= i < 3 ==> #[trigger] post.velocity.vec[i] == crate::velocity::vel_step(
                pre.velocity.vec@,
                target,
                limit,
                i,
            ))
        &&& post.camera_control_active_until_timestamp == camera_claim_next(
            pre,
            config,
            now_millis,
        )
    }
}

impl ManualControls {
    /// Bounds every operation preserves.
    pub open spec fn well_formed(&self) -> bool {
        self.velocity.well_formed()
    }

    /// Everything at rest.
    pub fn new() -> (r: ManualControls)
        ensures
            r.well_formed(),
            r.axes == (AxisValues {
                camera_yaw: 0,
                camera_pitch: 0,
                relative_x: 0,
                relative_y: 0,
                relative_z: 0,
            }),
            r.velocity.vec@ == seq![0i64, 0i64, 0i64],
            r.camera_control_active_until_timestamp is None,
    {
        ManualControls {
            axes: AxisValues {
                camera_yaw: 0,
                camera_pitch: 0,
                relative_x: 0,
                relative_y: 0,
                relative_z: 0,
            },
            velocity: RateLimitedVelocity::new(),
            camera_control_active_until_timestamp: None,
        }
    }

    /// Drop all manual state, as a halt does.
    pub fn full_reset(&mut self)
        ensures
            final(self).well_formed(),
            final(self).axes == axes_zero(),
            final(self).velocity.vec@ == seq![0i64, 0i64, 0i64],
            final(self).camera_control_active_until_timestamp is None,
    {
        *self = ManualControls::new();
    }

    /// Store one axis value, raw.
    pub fn control_value(&mut self, axis: ManualControlAxis, value: i64)
        requires
            old(self).well_formed(),
        ensures
            final(self).well_formed(),
            axis_value(final(self).axes, axis) == value,
            forall|other: ManualControlAxis|
                other != axis ==> axis_value(final(self).axes, other) == axis_value(
                    old(self).axes,
                    other,
                ),
            final(self).velocity == old(self).velocity,
            final(self).camera_control_active_until_timestamp == old(
                self,
            ).camera_control_active_until_timestamp,
    {
        match axis {
            ManualControlAxis::CameraYaw => self.axes.camera_yaw = value,
            ManualControlAxis::CameraPitch => self.axes.camera_pitch = value,
            ManualControlAxis::RelativeX => self.axes.relative_x = value,
            ManualControlAxis::RelativeY => self.axes.relative_y = value,
            ManualControlAxis::RelativeZ => self.axes.relative_z = value,
        }
    }

    /// Zero every axis; the velocity keeps decaying on its own.
    pub fn control_reset(&mut self)
        requires
            old(self).well_formed(),
        ensures
            final(self).well_formed(),
            final(self).axes == axes_zero(),
            final(self).velocity == old(self).velocity,
            final(self).camera_control_active_until_timestamp == old(
                self,
            ).camera_control_active_until_timestamp,
    {
        self.axes = AxisValues {
            camera_yaw: 0,
            camera_pitch: 0,
            relative_x: 0,
            relative_y: 0,
            relative_z: 0,
        };
    }

    /// One axis, clamped to full deflection.
    pub fn lookup_axis(&self, axis: ManualControlAxis) -> (r: i64)
        ensures
            r == axis_clamped(self.axes, axis),
            -MICRO <= r <= MICRO,
    {
        let raw = match axis {
            ManualControlAxis::CameraYaw => self.axes.camera_yaw,
            ManualControlAxis::CameraPitch => self.axes.camera_pitch,
            ManualControlAxis::RelativeX => self.axes.relative_x,
            ManualControlAxis::RelativeY => self.axes.relative_y,
            ManualControlAxis::RelativeZ => self.axes.relative_z,
        };
        clamp_i64(raw, -MICRO, MICRO)
    }

    /// The camera nudge the sticks ask for.
    pub fn camera_vector(&self) -> (r: [i64; 2])
        ensures
            r[0] == axis_clamped(self.axes, ManualControlAxis::CameraYaw),
            r[1] == axis_clamped(self.axes, ManualControlAxis::CameraPitch),
            -MICRO <= r[0] <= MICRO,
            -MICRO <= r[1] <= MICRO,
    {
        [
            self.lookup_axis(ManualControlAxis::CameraYaw),
            self.lookup_axis(ManualControlAxis::CameraPitch),
        ]
    }

    /// Whether a camera vector sits inside the configured deadzone.
    pub fn camera_vector_in_deadzone(cam_vec: [i64; 2], config: &Config) -> (r: bool)
        requires
            config.well_formed(),
            -MICRO <= cam_vec[0] <= MICRO,
            -MICRO <= cam_vec[1] <= MICRO,
        ensures
            r == (cam_vec[0] * cam_vec[0] + cam_vec[1] * cam_vec[1]
                <= config.vision.manual_control_deadzone * config.vision.manual_control_deadzone),
    {
        let z = config.vision.manual_control_deadzone;
        proof {
            assert(0 <= cam_vec[0] as int * cam_vec[0] <= 1_000_000_000_000) by (nonlinear_arith)
                requires
                    -MICRO <= cam_vec[0] <= MICRO,
                    MICRO == 1_000_000,
            ;
            assert(0 <= cam_vec[1] as int * cam_vec[1] <= 1_000_000_000_000) by (nonlinear_arith)
                requires
                    -MICRO <= cam_vec[1] <= MICRO,
                    MICRO == 1_000_000,
            ;
            assert(0 <= z as int * z <= 1_000_000_000_000_000_000_000_000) by (nonlinear_arith)
                requires
                    -FIX_LIMIT <= z <= FIX_LIMIT,
                    FIX_LIMIT == 1_000_000_000_000,
            ;
        }
        let sq: i128 = (cam_vec[0] as i128) * (cam_vec[0] as i128) + (cam_vec[1] as i128) * (
        cam_vec[1] as i128);
        sq <= (z as i128) * (z as i128)
    }

    /// The velocity the relative axes ask for, micro-metres per second.
    pub fn velocity_target(&self, config: &Config) -> (r: [i64; 3])
        requires
            config.well_formed(),
        ensures
            ({
                let scale = config.params.manual_control_velocity_m_per_sec as int;
                &&& r[0] == fix_mul_spec(
                    axis_clamped(self.axes, ManualControlAxis::RelativeX),
                    scale,
                )
                &&& r[1] == fix_mul_spec(
                    axis_clamped(self.axes, ManualControlAxis::RelativeY),
                    scale,
                )
                &&& r[2] == fix_mul_spec(
                    axis_clamped(self.axes, ManualControlAxis::RelativeZ),
                    scale,
                )
            }),
            forall|i: int| 0 <= i < 3 ==> -FIX_LIMIT <= #[trigger] r[i] <= FIX_LIMIT,
    {
        let scale = config.params.manual_control_velocity_m_per_sec;
        let x = fix_mul(self.lookup_axis(ManualControlAxis::RelativeX), scale);
        let y = fix_mul(self.lookup_axis(ManualControlAxis::RelativeY), scale);
        let z = fix_mul(self.lookup_axis(ManualControlAxis::RelativeZ), scale);
        proof {
            let ax = axis_clamped(self.axes, ManualControlAxis::RelativeX);
            let ay = axis_clamped(self.axes, ManualControlAxis::RelativeY);
            let az = axis_clamped(self.axes, ManualControlAxis::RelativeZ);
            assert(-(FIX_LIMIT as int * MICRO) <= ax * scale <= FIX_LIMIT as int * MICRO) by (
            nonlinear_arith)
                requires
                    -MICRO <= ax <= MICRO,
                    -FIX_LIMIT <= scale <= FIX_LIMIT,
            ;
            assert(-(FIX_LIMIT as int * MICRO) <= ay * scale <= FIX_LIMIT as int * MICRO) by (
            nonlinear_arith)
                requires
                    -MICRO <= ay <= MICRO,
                    -FIX_LIMIT <= scale <= FIX_LIMIT,
            ;
            assert(-(FIX_LIMIT as int * MICRO) <= az * scale <= FIX_LIMIT as int * MICRO) by (
            nonlinear_arith)
                requires
                    -MICRO <= az <= MICRO,
                    -FIX_LIMIT <= scale <= FIX_LIMIT,
            ;
            crate::units::lemma_div_pos_mag(ax * scale, MICRO as int, FIX_LIMIT as int);
            crate::units::lemma_div_pos_mag(ay * scale, MICRO as int, FIX_LIMIT as int);
            crate::units::lemma_div_pos_mag(az * scale, MICRO as int, FIX_LIMIT as int);
        }
        [x, y, z]
    }

    /// The rate-limited velocity currently in force.
    pub fn limited_velocity(&self) -> (r: [i64; 3])
        ensures
            r == self.velocity.vec,
    {
        self.velocity.get()
    }

    /// Whether manual camera control is overriding the vision pipeline.
    pub open spec fn camera_control_active_spec(&self, now_millis: u64) -> bool {
        match self.camera_control_active_until_timestamp {
            None => false,
            Some(t) => now_millis < t,
        }
    }

    /// Whether manual camera control is overriding the vision pipeline.
    pub fn camera_control_active(&self, now_millis: u64) -> (r: bool)
        ensures
            r == self.camera_control_active_spec(now_millis),
    {
        match self.camera_control_active_until_timestamp {
            None => false,
            Some(t) => now_millis < t,
        }
    }

    /// One controller tick: halting drops all manual state; otherwise the
    /// velocity chases its target and camera control renews its claim.
    pub fn control_tick(&mut self, config: &Config, now_millis: u64)
        requires
            old(self).well_formed(),
            config.well_formed(),
            config.params.accel_limit_m_per_sec2 >= 0,
        ensures
            final(self).well_formed(),
            manual_tick_post(*old(self), *final(self), *config, now_millis),
    {
        if matches!(config.mode, ControllerMode::Halted) {
            self.full_reset();
        } else {
            let target = self.velocity_target(config);
            let mut vel = self.velocity;
            vel.tick(config, target);
            self.velocity = vel;
            self.camera_control_tick(config, now_millis);
        }
    }

    /// Extend the manual-camera claim whenever the stick is out of the
    /// deadzone.
    pub fn camera_control_tick(&mut self, config: &Config, now_millis: u64)
        requires
            old(self).well_formed(),
            config.well_formed(),
        ensures
            final(self).well_formed(),
            final(self).axes == old(self).axes,
            final(self).velocity == old(self).velocity,
            final(self).camera_control_active_until_timestamp == camera_claim_next(
                *old(self),
                *config,
                now_millis,
            ),
    {
        let cam = self.camera_vector();
        if !ManualControls::camera_vector_in_deadzone(cam, config) {
            let timeout_millis: u64 = (config.vision.manual_control_timeout_sec / 1000) as u64;
            let until = if now_millis <= u64::MAX - timeout_millis {
                now_millis + timeout_millis
            } else {
                u64::MAX
            };
            self.camera_control_active_until_timestamp = Some(until);
        }
    }

    /// Move the tracked region under manual control: the stick pans it,
    /// the tracking gains push it back from the border, and the result is
    /// the default-size square centred on the moved point, constrained to
    /// the border without resizing.
    pub fn tracking_update(&mut self, config: &Config, rect: &[i64; 4], time_step: i64) -> (o:
        [i64; 4])
        requires
            old(self).well_formed(),
            config.well_formed(),
            crate::rect::rect_fits(*rect),
            0 <= time_step <= MICRO,
        ensures
            *final(self) == *old(self),
            forall|i: int| 0 <= i < 4 ==> -2 * FIX_LIMIT <= #[trigger] o[i] <= 2 * FIX_LIMIT,
            ({
                let border = config.vision.border_rect;
                // The stick pans (deadzone-gated, Y inverted); each axis's
                // gains push back from the border; both scaled by the step.
                let cam0 = axis_clamped(old(self).axes, ManualControlAxis::CameraYaw);
                let cam1 = axis_clamped(old(self).axes, ManualControlAxis::CameraPitch);
                let z = config.vision.manual_control_deadzone as int;
                let in_dead = cam0 * cam0 + cam1 * cam1 <= z * z;
                let vx = if in_dead {
                    0int
                } else {
                    fix_mul_spec(cam0, config.vision.manual_control_speed as int)
                };
                let vy = if in_dead {
                    0int
                } else {
                    -fix_mul_spec(cam1, config.vision.manual_control_speed as int)
                };
                let left_dist = clamp_spec(rect[0] - border[0], -FIX_LIMIT as int, FIX_LIMIT as int);
                let top_dist = clamp_spec(rect[1] - border[1], -FIX_LIMIT as int, FIX_LIMIT as int);
                let right_dist = clamp_spec(
                    (border[0] + border[2]) - (rect[0] + rect[2]),
                    -FIX_LIMIT as int,
                    FIX_LIMIT as int,
                );
                let bottom_dist = clamp_spec(
                    (border[1] + border[3]) - (rect[1] + rect[3]),
                    -FIX_LIMIT as int,
                    FIX_LIMIT as int,
                );
                let fx = fix_mul_spec(
                    clamp_spec(
                        restoring_force_from(
                            config.gimbal.yaw_gains@,
                            config.vision.manual_control_restoring_force_width as int,
                            left_dist,
                            right_dist,
                            0,
                        ),
                        -MICRO as int,
                        MICRO as int,
                    ),
                    config.vision.manual_control_restoring_force as int,
                );
                let fy = fix_mul_spec(
                    clamp_spec(
                        restoring_force_from(
                            config.gimbal.pitch_gains@,
                            config.vision.manual_control_restoring_force_width as int,
                            top_dist,
                            bottom_dist,
                            0,
                        ),
                        -MICRO as int,
                        MICRO as int,
                    ),
                    config.vision.manual_control_restoring_force as int,
                );
                let shift0 = fix_mul_spec(
                    clamp_spec(vx + fx, -FIX_LIMIT as int, FIX_LIMIT as int),
                    time_step as int,
                );
                let shift1 = fix_mul_spec(
                    clamp_spec(vy + fy, -FIX_LIMIT as int, FIX_LIMIT as int),
                    time_step as int,
                );
                let center0 = rect[0] + crate::units::div_q(rect[2] as int, 2);
                let center1 = rect[1] + crate::units::div_q(rect[3] as int, 2);
                let moved0 = clamp_spec(
                    center0 + shift0,
                    -(FIX_LIMIT - 2_000_000_000) as int,
                    (FIX_LIMIT - 2_000_000_000) as int,
                );
                let moved1 = clamp_spec(
                    center1 + shift1,
                    -(FIX_LIMIT - 2_000_000_000) as int,
                    (FIX_LIMIT - 2_000_000_000) as int,
                );
                let side = if config.vision.tracking_default_area >= 0 {
                    sqrt_floor(config.vision.tracking_default_area * MICRO)
                } else {
                    0int
                };
                // The default-size square, clipped to the border without
                // further resizing and kept inside it.
                &&& o[2] == (if side < border[2] {
                    side
                } else {
                    border[2] as int
                })
                &&& o[3] == (if side < border[3] {
                    side
                } else {
                    border[3] as int
                })
                &&& o[0] == clamp_spec(
                    moved0 - crate::units::div_q(side, 2),
                    border[0] as int,
                    border[0] + border[2] - o[2],
                )
                &&& o[1] == clamp_spec(
                    moved1 - crate::units::div_q(side, 2),
                    border[1] as int,
                    border[1] + border[3] - o[3],
                )
            }),
    {
        let cam = self.camera_vector();
        let in_dead = ManualControls::camera_vector_in_deadzone(cam, config);
        let vec: [i64; 2] = if in_dead {
            [0, 0]
        } else {
            cam
        };
        let speed = config.vision.manual_control_speed;
        let velocity: [i64; 2] = [fix_mul(vec[0], speed), -fix_mul(vec[1], speed)];

        let border = &config.vision.border_rect;
        let left_dist = clamp_i64(rect[0] - border[0], -FIX_LIMIT, FIX_LIMIT);
        let top_dist = clamp_i64(rect[1] - border[1], -FIX_LIMIT, FIX_LIMIT);
        let right_dist = clamp_i64(
            (border[0] + border[2]) - (rect[0] + rect[2]),
            -FIX_LIMIT,
            FIX_LIMIT,
        );
        let bottom_dist = clamp_i64(
            (border[1] + border[3]) - (rect[1] + rect[3]),
            -FIX_LIMIT,
            FIX_LIMIT,
        );

        let fx = restoring_force_axis(&config.gimbal.yaw_gains, config, left_dist, right_dist);
        let fy = restoring_force_axis(&config.gimbal.pitch_gains, config, top_dist, bottom_dist);

        let center = rect_center(rect);
        let shift: [i64; 2] = [
            fix_mul(clamp_i64(velocity[0] + fx, -FIX_LIMIT, FIX_LIMIT), time_step),
            fix_mul(clamp_i64(velocity[1] + fy, -FIX_LIMIT, FIX_LIMIT), time_step),
        ];
        let new_center: [i64; 2] = [
            clamp_i64(center[0] + shift[0], -(FIX_LIMIT - 2_000_000_000), FIX_LIMIT - 2_000_000_000),
            clamp_i64(center[1] + shift[1], -(FIX_LIMIT - 2_000_000_000), FIX_LIMIT - 2_000_000_000),
        ];

        let area = clamp_i64(config.vision.tracking_default_area, 0, FIX_LIMIT);
        proof {
            assert(area as int * MICRO >= 0);
            assert(area as int * MICRO <= 1_000_000_000_000_000_000);
        }
        let side128 = isqrt_u128((area as u128) * (MICRO as u128));
        proof {
            assert(side128 <= 2_000_000_000) by (nonlinear_arith)
                requires
                    (side128 as int) * (side128 as int) <= area as int * (MICRO as int),
                    area as int * (MICRO as int) <= 1_000_000_000_000_000_000,
                    side128 >= 0,
            ;
        }
        let side = side128 as i64;
        let default_rect = rect_centered_on_origin(side, side);
        let moved = rect_translate(&default_rect, new_center);
        proof {
            assert(crate::rect::rect_fits(moved)) by {
                assert(moved[2] == side && moved[3] == side);
                assert(0 <= side <= 2_000_000_000);
            }
        }
        let o = rect_constrain(&moved, border);
        proof {
            if config.vision.tracking_default_area >= 0 {
                assert(area == config.vision.tracking_default_area);
                crate::units::lemma_sqrt_floor_is(
                    area as int * MICRO,
                    side128 as int,
                );
            } else {
                assert(area == 0);
                crate::units::lemma_sqrt_floor_is(0, 0);
                assert(side128 == 0);
            }
        }
        o
    }
}

/// The restoring force for one axis: the gain entries push the region back
/// from the border, saturated at one unit, scaled by the configured force.
fn restoring_force_axis(
    gains: &Vec<GimbalTrackingGain>,
    config: &Config,
    lower_dist: i64,
    upper_dist: i64,
) -> (r: i64)
    requires
        config.well_formed(),
        forall|i: int|
            0 <= i < gains@.len() ==> 0 <= (#[trigger] gains@[i]).width <= FIX_LIMIT,
        -FIX_LIMIT <= lower_dist <= FIX_LIMIT,
        -FIX_LIMIT <= upper_dist <= FIX_LIMIT,
    ensures
        r == fix_mul_spec(
            clamp_spec(
                restoring_force_from(
                    gains@,
                    config.vision.manual_control_restoring_force_width as int,
                    lower_dist as int,
                    upper_dist as int,
                    0,
                ),
                -MICRO as int,
                MICRO as int,
            ),
            config.vision.manual_control_restoring_force as int,
        ),
        -1_000_000_000_000 <= r <= 1_000_000_000_000,
{
    let rf_width = config.vision.manual_control_restoring_force_width;
    let mut f: i128 = 0;
    let n = gains.len();
    let ghost gseq = gains@;
    let mut i: usize = 0;
    while i < n
        invariant
            n == gains@.len(),
            gseq == gains@,
            0 <= i <= n,
            config.well_formed(),
            -FIX_LIMIT <= lower_dist <= FIX_LIMIT,
            -FIX_LIMIT <= upper_dist <= FIX_LIMIT,
            rf_width == config.vision.manual_control_restoring_force_width,
            forall|x: int|
                0 <= x < gains@.len() ==> 0 <= (#[trigger] gains@[x]).width <= FIX_LIMIT,
            -((i as int) * 3_000_000_000_000_000_000) <= f <= (i as int)
                * 3_000_000_000_000_000_000,
            f + restoring_force_from(
                gseq,
                rf_width as int,
                lower_dist as int,
                upper_dist as int,
                i as int,
            ) == restoring_force_from(
                gseq,
                rf_width as int,
                lower_dist as int,
                upper_dist as int,
                0,
            ),
        decreases n - i,
    {
        let w = fix_mul(gains[i].width, rf_width);
        let lo_raw = (w as i128) - (lower_dist as i128);
        let lo: i128 = if lo_raw > 0 {
            lo_raw
        } else {
            0
        };
        let hi_raw = (w as i128) - (upper_dist as i128);
        let hi: i128 = if hi_raw > 0 {
            hi_raw
        } else {
            0
        };
        proof {
            assert((i as int) * 3_000_000_000_000_000_000 + 3_000_000_000_000_000_000 == (i as int
                + 1) * 3_000_000_000_000_000_000) by (nonlinear_arith);
        }
        f = f + (lo - hi);
        i = i + 1;
    }
    let clamped: i64 = if f > MICRO as i128 {
        MICRO
    } else if f < -(MICRO as i128) {
        -MICRO
    } else {
        f as i64
    };
    proof {
        let rf = config.vision.manual_control_restoring_force as int;
        assert(-(FIX_LIMIT as int * MICRO) <= clamped as int * rf <= FIX_LIMIT as int * MICRO) by (
        nonlinear_arith)
            requires
                -MICRO <= clamped <= MICRO,
                -FIX_LIMIT <= rf <= FIX_LIMIT,
        ;
        crate::units::lemma_div_pos_mag(clamped as int * rf, MICRO as int, FIX_LIMIT as int);
    }
    fix_mul(clamped, config.vision.manual_control_restoring_force)
}

} // verus!
