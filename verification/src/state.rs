//! The controller's mutable state: manual input, the tracked region, the
//! latest detections, and one motion planner per winch.
//!
//! `winch_control_loop` is the per-status path: it folds the status into
//! the winch's planner, selects a commanded velocity by mode with the
//! force-limit guard applied, integrates it, and builds the next firmware
//! command.

use vstd::prelude::*;

use crate::config::{Config, ControllerMode};
use crate::manual::{manual_tick_post, ManualControls};
use crate::message::{
    CameraDetectedObject, CameraDetectedObjects, CameraTrackedRegion, FlyerSensors, WinchCommand,
    WinchStatus,
};
use crate::units::{clamp_i64, div_pos, fix_mul, fix_mul_spec, isqrt_u128, sqrt_floor, FIX_LIMIT, MICRO};
use crate::winch::{clamp_spec, mech_status_of, status_fits, MechStatus, WinchController};

verus! {

/// Velocity passed when the force-limit guard blocks the direction that
/// would deepen the force excursion: only motion that reduces the force
/// passes.
pub open spec fn guard_spec(limit_direction: int, velocity: int) -> int {
    if velocity * limit_direction < 0 {
        velocity
    } else {
        0
    }
}

/// One component of the winch's unit rope-direction vector, micro-units:
/// the location normalized by its Euclidean norm, or zero at the origin.
pub open spec fn rope_dir_spec(loc: [i64; 3], i: int) -> int {
    let n = sqrt_floor(loc[0] * loc[0] + loc[1] * loc[1] + loc[2] * loc[2]);
    if n > 0 {
        div_pos(loc[i] * MICRO, n)
    } else {
        0
    }
}

/// A velocity vector projected onto the rope direction, saturated to
/// fixed-point range.
pub open spec fn projected_velocity_spec(v: Seq<i64>, loc: [i64; 3]) -> int {
    clamp_spec(
        fix_mul_spec(v[0] as int, rope_dir_spec(loc, 0)) + fix_mul_spec(
            v[1] as int,
            rope_dir_spec(loc, 1),
        ) + fix_mul_spec(v[2] as int, rope_dir_spec(loc, 2)),
        -FIX_LIMIT as int,
        FIX_LIMIT as int,
    )
}

/// The velocity a manually driven single winch receives.
pub open spec fn single_winch_velocity_spec(mech: MechStatus, v: int) -> int {
    match mech {
        MechStatus::Stuck => 0,
        MechStatus::ForceLimited(f) => guard_spec(f as int, v),
        MechStatus::Normal => v,
    }
}

/// The velocity a winch receives under whole-flyer control: the projected
/// velocity guarded by the force limit, with a small return velocity
/// superimposed that backs out of the force excursion.
pub open spec fn multi_winch_velocity_spec(mech: MechStatus, projected: int, return_v: int) -> int {
    match mech {
        MechStatus::Stuck => 0,
        MechStatus::ForceLimited(f) => clamp_spec(
            guard_spec(f as int, projected) - fix_mul_spec(f as int, return_v),
            -FIX_LIMIT as int,
            FIX_LIMIT as int,
        ),
        MechStatus::Normal => projected,
    }
}

/// The commanded velocity for winch `id`, by mode.  The manual Y axis is
/// negated under whole-flyer control, matching the multi-winch convention.
pub open spec fn winch_velocity_spec(
    manual_vec: Seq<i64>,
    mech: MechStatus,
    config: Config,
    id: int,
) -> int {
    match config.mode {
        ControllerMode::Halted => 0,
        ControllerMode::ManualWinch(mid) => if mid == id {
            single_winch_velocity_spec(mech, manual_vec[1] as int)
        } else {
            0
        },
        _ => multi_winch_velocity_spec(
            mech,
            projected_velocity_spec(
                seq![manual_vec[0], (-manual_vec[1]) as i64, manual_vec[2]],
                config.winches@[id].loc,
            ),
            config.params.force_return_velocity_max_m_per_sec as int,
        ),
    }
}

/// Everything the controller owns.
pub struct ControllerState {
    pub manual: ManualControls,
    pub tracked_region: CameraTrackedRegion,
    /// The latest detections and their arrival time, milliseconds.
    pub detected: (u64, CameraDetectedObjects),
    pub winches: Vec<WinchController>,
    pub flyer_sensors: Option<FlyerSensors>,
    /// Whether the latest detections still await a snap decision.
    pub pending_snap: bool,
    pub last_mode: ControllerMode,
}

impl ControllerState {
    /// Bounds every operation preserves.
    pub open spec fn well_formed(&self) -> bool {
        &&& self.manual.well_formed()
        &&& crate::rect::rect_fits(self.tracked_region.rect)
        &&& detections_fit(self.detected.1)
        &&& forall|i: int|
            0 <= i < self.winches@.len() ==> (#[trigger] self.winches@[i]).well_formed()
    }

    /// Fresh state for a configuration: one planner per winch, no history.
    pub fn new(initial_config: &Config) -> (r: ControllerState)
        ensures
            r.well_formed(),
            r.winches@.len() == initial_config.winches@.len(),
            r.last_mode == initial_config.mode,
            !r.pending_snap,
    {
        let mut winches: Vec<WinchController> = Vec::new();
        let n = initial_config.winches.len();
        for id in 0..n
            invariant
                winches@.len() == id,
                forall|i: int| 0 <= i < id ==> (#[trigger] winches@[i]).well_formed(),
            decreases n - id,
        {
            winches.push(WinchController::new(id));
        }
        ControllerState {
            manual: ManualControls::new(),
            tracked_region: CameraTrackedRegion::new(),
            detected: (0, CameraDetectedObjects::new()),
            winches,
            flyer_sensors: None,
            pending_snap: false,
            last_mode: initial_config.mode,
        }
    }

    /// A mode change halts all manual motion.
    pub fn config_changed(&mut self, config: &Config)
        requires
            old(self).well_formed(),
        ensures
            final(self).well_formed(),
            final(self).winches == old(self).winches,
            final(self).last_mode == config.mode,
            config.mode != old(self).last_mode ==> final(self).manual.axes
                == crate::manual::axes_zero(),
            config.mode == old(self).last_mode ==> final(self).manual == old(self).manual,
    {
        if config.mode != self.last_mode {
            self.manual.full_reset();
            self.last_mode = config.mode;
        }
    }

    /// Remember the freshest flyer sensors.
    pub fn flyer_sensor_update(&mut self, sensors: FlyerSensors)
        requires
            old(self).well_formed(),
        ensures
            final(self).well_formed(),
            final(self).winches == old(self).winches,
            final(self).flyer_sensors == Some(sensors),
    {
        self.flyer_sensors = Some(sensors);
    }

    /// Adopt fresh detections and mark them ripe for a snap.
    pub fn camera_object_detection_update(&mut self, det: CameraDetectedObjects, now_millis: u64)
        requires
            old(self).well_formed(),
            detections_fit(det),
        ensures
            final(self).well_formed(),
            final(self).winches == old(self).winches,
            final(self).detected == (now_millis, det),
            final(self).pending_snap,
    {
        self.detected = (now_millis, det);
        self.pending_snap = true;
    }

    /// Adopt the tracker's region unless manual control is overriding it.
    pub fn camera_region_tracking_update(
        &mut self,
        tr: CameraTrackedRegion,
        now_millis: u64,
    )
        requires
            old(self).well_formed(),
            crate::rect::rect_fits(tr.rect),
        ensures
            final(self).well_formed(),
            final(self).winches == old(self).winches,
            !old(self).manual.camera_control_active_spec(now_millis) ==> final(self).tracked_region == tr,
            old(self).manual.camera_control_active_spec(now_millis) ==> final(self).tracked_region
                == old(self).tracked_region,
    {
        if !self.manual.camera_control_active(now_millis) {
            self.tracked_region = tr;
        }
    }

    /// Per-tick housekeeping: manual control follows its inputs.
    pub fn every_tick(&mut self, config: &Config, now_millis: u64)
        requires
            old(self).well_formed(),
            config.well_formed(),
            config.params.accel_limit_m_per_sec2 >= 0,
        ensures
            final(self).well_formed(),
            final(self).winches == old(self).winches,
            final(self).tracked_region == old(self).tracked_region,
            final(self).detected == old(self).detected,
            final(self).pending_snap == old(self).pending_snap,
            final(self).flyer_sensors == old(self).flyer_sensors,
            final(self).last_mode == old(self).last_mode,
            manual_tick_post(old(self).manual, final(self).manual, *config, now_millis),
    {
        let mut manual = self.manual;
        manual.control_tick(config, now_millis);
        self.manual = manual;
    }

    /// The best detection to snap the tracked region to: none while no
    /// fresh detections await a decision or the controller is halted;
    /// otherwise a qualifying detection of maximal probability, if any
    /// qualifies.
    pub fn find_best_snap_object(&self, config: &Config, now_millis: u64) -> (r: Option<
        CameraDetectedObject,
    >)
        requires
            self.well_formed(),
            config.well_formed(),
        ensures
            match r {
                Some(obj) => {
                    &&& self.pending_snap
                    &&& snap_qualifies(obj, *config)
                    &&& exists|k: int|
                        0 <= k < self.detected.1.objects@.len() && obj.rect == (
                        #[trigger] self.detected.1.objects@[k]).rect && obj.prob
                            == self.detected.1.objects@[k].prob && obj.label@
                            == self.detected.1.objects@[k].label@
                    &&& forall|k: int|
                        0 <= k < self.detected.1.objects@.len() && snap_qualifies(
                            #[trigger] self.detected.1.objects@[k],
                            *config,
                        ) ==> self.detected.1.objects@[k].prob <= obj.prob
                },
                None => !self.pending_snap || self.detected.0 + 500 < now_millis || config.mode
                    == ControllerMode::Halted || forall|k: int|
                    0 <= k < self.detected.1.objects@.len() ==> !snap_qualifies(
                        #[trigger] self.detected.1.objects@[k],
                        *config,
                    ),
            },
    {
        if !self.pending_snap {
            // No data from the vision pipeline yet, or the latest frame is
            // already decided.
            return None;
        }
        let stale = if self.detected.0 <= u64::MAX - 500 {
            self.detected.0 + 500 < now_millis
        } else {
            false
        };
        if stale {
            // The latest detections are too old to bother with.
            return None;
        }
        if matches!(config.mode, ControllerMode::Halted) {
            // No automatic vision activity during a halt.
            return None;
        }

        let n = self.detected.1.objects.len();
        let mut best: Option<usize> = None;
        let mut i: usize = 0;
        while i < n
            invariant
                n == self.detected.1.objects@.len(),
                0 <= i <= n,
                self.well_formed(),
                config.well_formed(),
                match best {
                    Some(b) => b < i && snap_qualifies(self.detected.1.objects@[b as int], *config)
                        && forall|k: int|
                        0 <= k < i && snap_qualifies(
                            #[trigger] self.detected.1.objects@[k],
                            *config,
                        ) ==> self.detected.1.objects@[k].prob
                        <= self.detected.1.objects@[b as int].prob,
                    None => forall|k: int|
                        0 <= k < i ==> !snap_qualifies(
                            #[trigger] self.detected.1.objects@[k],
                            *config,
                        ),
                },
            decreases n - i,
        {
            let obj = &self.detected.1.objects[i];
            let area = crate::rect::rect_area(&obj.rect);
            if area >= config.vision.tracking_min_area && area <= config.vision.tracking_max_area {
                if rule_matches(&config.vision.snap_tracked_region_to, &obj.label, obj.prob) {
                    let better = match best {
                        None => true,
                        Some(b) => obj.prob > self.detected.1.objects[b].prob,
                    };
                    if better {
                        best = Some(i);
                    }
                }
            }
            i = i + 1;
        }
        match best {
            None => None,
            Some(b) => {
                let obj = &self.detected.1.objects[b];
                let label = obj.label.clone();
                Some(CameraDetectedObject { rect: obj.rect, prob: obj.prob, label })
            },
        }
    }

    /// Move the tracked region for one tick: manual camera control
    /// overrides everything; a reset clears the region; otherwise a snap
    /// to the best fresh detection fires if one qualifies.  The result, if
    /// any, is the new region for the vision pipeline to adopt.
    pub fn tracking_update(
        &mut self,
        config: &Config,
        time_step: i64,
        reset_tracking: bool,
        now_millis: u64,
    ) -> (r: Option<[i64; 4]>)
        requires
            old(self).well_formed(),
            config.well_formed(),
            0 <= time_step <= MICRO,
        ensures
            final(self).well_formed(),
            final(self).winches == old(self).winches,
            final(self).detected == old(self).detected,
            final(self).flyer_sensors == old(self).flyer_sensors,
            final(self).last_mode == old(self).last_mode,
            final(self).manual == old(self).manual,
            match r {
                Some(rect) => rect == final(self).tracked_region.rect,
                None => final(self).tracked_region == old(self).tracked_region,
            },
            old(self).manual.camera_control_active_spec(now_millis) || reset_tracking
                || old(self).pending_snap || r is None,
    {
        if self.manual.camera_control_active(now_millis) {
            // Manual tracking control temporarily overrides other sources.
            let mut manual = self.manual;
            let rect = manual.tracking_update(config, &self.tracked_region.rect, time_step);
            self.manual = manual;
            let clamped: [i64; 4] = [
                clamp_i64(rect[0], -FIX_LIMIT, FIX_LIMIT),
                clamp_i64(rect[1], -FIX_LIMIT, FIX_LIMIT),
                clamp_i64(rect[2], -FIX_LIMIT, FIX_LIMIT),
                clamp_i64(rect[3], -FIX_LIMIT, FIX_LIMIT),
            ];
            self.tracked_region.rect = clamped;
            Some(clamped)
        } else if reset_tracking {
            // Resets do not override manual controls, just everything else.
            self.tracked_region = CameraTrackedRegion::new();
            proof {
                assert(crate::rect::rect_fits(self.tracked_region.rect));
            }
            Some(self.tracked_region.rect)
        } else {
            match self.find_best_snap_object(config, now_millis) {
                Some(obj) => {
                    // Snap to the best detection.
                    self.pending_snap = false;
                    let constrained = crate::rect::rect_constrain(
                        &obj.rect,
                        &config.vision.border_rect,
                    );
                    let clamped: [i64; 4] = [
                        clamp_i64(constrained[0], -FIX_LIMIT, FIX_LIMIT),
                        clamp_i64(constrained[1], -FIX_LIMIT, FIX_LIMIT),
                        clamp_i64(constrained[2], -FIX_LIMIT, FIX_LIMIT),
                        clamp_i64(constrained[3], -FIX_LIMIT, FIX_LIMIT),
                    ];
                    self.tracked_region.rect = clamped;
                    self.tracked_region.frame = self.detected.1.frame;
                    Some(clamped)
                },
                None => None,
            }
        }
    }

    /// The lighting state of every winch, in order.
    pub fn winch_lighting(&self, config: &Config) -> (r: Vec<crate::led::WinchLighting>)
        requires
            self.well_formed(),
            config.well_formed(),
        ensures
            r@.len() == self.winches@.len(),
    {
        let mut out: Vec<crate::led::WinchLighting> = Vec::new();
        let n = self.winches.len();
        let mut i: usize = 0;
        while i < n
            invariant
                n == self.winches@.len(),
                0 <= i <= n,
                out@.len() == i,
                self.well_formed(),
                config.well_formed(),
            decreases n - i,
        {
            let w = self.winches[i];
            out.push(w.light_environment(config));
            i = i + 1;
        }
        out
    }

    /// Whether any winch has gone silent past the watchdog deadline while a
    /// mode that moves every winch is active.
    pub fn multi_winch_watchdog_should_halt(&self, config: &Config, now_millis: u64) -> (r: bool)
        ensures
            r == (!(config.mode == ControllerMode::Halted) && !(config.mode matches
                ControllerMode::ManualWinch(_)) && exists|i: int|
                0 <= i < self.winches@.len() && !(#[trigger] self.winches@[i]).status_recent_spec(
                    *config,
                    now_millis,
                )),
    {
        let n = self.winches.len();
        let mut i: usize = 0;
        while i < n
            invariant
                n == self.winches@.len(),
                0 <= i <= n,
                forall|j: int|
                    0 <= j < i ==> (#[trigger] self.winches@[j]).status_recent_spec(
                        *config,
                        now_millis,
                    ),
            decreases n - i,
        {
            let w = self.winches[i];
            if !w.is_status_recent(config, now_millis) {
                return match config.mode {
                    ControllerMode::Halted => false,
                    ControllerMode::ManualWinch(_) => false,
                    _ => true,
                };
            }
            i = i + 1;
        }
        false
    }

    /// The force-limit guard: only motion in the direction that reduces
    /// the force excursion passes.
    pub fn force_limit_guard(&self, limit_direction: i64, velocity: i64) -> (r: i64)
        ensures
            r == guard_spec(limit_direction as int, velocity as int),
    {
        let opposed = (velocity < 0 && limit_direction > 0) || (velocity > 0 && limit_direction
            < 0);
        proof {
            assert((((velocity as int) < 0 && (limit_direction as int) > 0) || ((velocity as int)
                > 0 && (limit_direction as int) < 0)) == (velocity as int * limit_direction < 0))
                by (nonlinear_arith);
        }
        if opposed {
            velocity
        } else {
            0
        }
    }

    /// The velocity for a manually driven single winch.
    fn manual_single_winch_controller(&self, id: usize) -> (r: i64)
        requires
            id < self.winches@.len(),
            self.well_formed(),
        ensures
            r == single_winch_velocity_spec(
                self.winches@[id as int].mech_status,
                self.manual.velocity.vec[1] as int,
            ),
            -FIX_LIMIT <= r <= FIX_LIMIT,
    {
        let v = self.manual.limited_velocity();
        let w = self.winches[id];
        match w.mech_status {
            MechStatus::Stuck => 0,
            MechStatus::ForceLimited(f) => self.force_limit_guard(f, v[1]),
            MechStatus::Normal => v[1],
        }
    }

    /// One component of the winch's unit rope-direction vector.
    fn rope_dir(&self, config: &Config, id: usize, axis: usize) -> (r: i64)
        requires
            config.well_formed(),
            id < config.winches@.len(),
            axis < 3,
        ensures
            r == rope_dir_spec(config.winches@[id as int].loc, axis as int),
            -2_000_000 <= r <= 2_000_000,
    {
        let loc = &config.winches[id].loc;
        proof {
            assert(loc[0] * loc[0] >= 0 && loc[0] * loc[0] <= 1_000_000_000_000_000_000_000_000)
                by (nonlinear_arith)
                requires
                    -FIX_LIMIT <= loc[0] <= FIX_LIMIT,
                    FIX_LIMIT == 1_000_000_000_000,
            ;
            assert(loc[1] * loc[1] >= 0 && loc[1] * loc[1] <= 1_000_000_000_000_000_000_000_000)
                by (nonlinear_arith)
                requires
                    -FIX_LIMIT <= loc[1] <= FIX_LIMIT,
                    FIX_LIMIT == 1_000_000_000_000,
            ;
            assert(loc[2] * loc[2] >= 0 && loc[2] * loc[2] <= 1_000_000_000_000_000_000_000_000)
                by (nonlinear_arith)
                requires
                    -FIX_LIMIT <= loc[2] <= FIX_LIMIT,
                    FIX_LIMIT == 1_000_000_000_000,
            ;
        }
        let sq: u128 = (loc[0] as i128 * loc[0] as i128) as u128 + (loc[1] as i128 * loc[1]
            as i128) as u128 + (loc[2] as i128 * loc[2] as i128) as u128;
        let n128 = isqrt_u128(sq);
        if n128 == 0 {
            return 0;
        }
        let component = loc[axis];
        proof {
            assert(component * component <= sq) by {
                assert(loc[0] * loc[0] >= 0 && loc[1] * loc[1] >= 0 && loc[2] * loc[2] >= 0);
            }
            assert(component <= n128 && -component <= n128) by (nonlinear_arith)
                requires
                    component * component <= sq,
                    (n128 as int) * (n128 as int) <= sq,
                    sq < (n128 as int + 1) * (n128 as int + 1),
                    n128 >= 0,
            ;
            assert(-(2_000_000 * (n128 as int)) <= component * MICRO <= 2_000_000 * (n128 as int))
                by (nonlinear_arith)
                requires
                    -(n128 as int) <= component <= n128 as int,
                    MICRO == 1_000_000,
                    n128 > 0,
            ;
        }
        let p: i128 = (component as i128) * (MICRO as i128);
        let q = crate::units::i128_div_trunc(p, n128 as i128);
        proof {
            crate::units::lemma_div_pos_mag(p as int, n128 as int, 2_000_000int);
        }
        q as i64
    }

    /// The projected velocity for a winch under whole-flyer control.
    fn multi_winch_controller(&self, config: &Config, id: usize, velocity: [i64; 3]) -> (r: i64)
        requires
            self.well_formed(),
            config.well_formed(),
            id < self.winches@.len(),
            id < config.winches@.len(),
            forall|i: int| 0 <= i < 3 ==> -FIX_LIMIT <= #[trigger] velocity[i] <= FIX_LIMIT,
        ensures
            r == multi_winch_velocity_spec(
                self.winches@[id as int].mech_status,
                projected_velocity_spec(velocity@, config.winches@[id as int].loc),
                config.params.force_return_velocity_max_m_per_sec as int,
            ),
            -FIX_LIMIT <= r <= FIX_LIMIT,
    {
        let d0 = self.rope_dir(config, id, 0);
        let d1 = self.rope_dir(config, id, 1);
        let d2 = self.rope_dir(config, id, 2);
        let p0 = fix_mul(velocity[0], d0);
        let p1 = fix_mul(velocity[1], d1);
        let p2 = fix_mul(velocity[2], d2);
        proof {
            assert(-(2_000_000_000_000int * MICRO) <= velocity[0] as int * d0
                <= 2_000_000_000_000int * MICRO) by (nonlinear_arith)
                requires
                    -FIX_LIMIT <= velocity[0] <= FIX_LIMIT,
                    -2_000_000 <= d0 <= 2_000_000,
                    FIX_LIMIT == 1_000_000_000_000,
                    MICRO == 1_000_000,
            ;
            crate::units::lemma_div_pos_mag(
                velocity[0] as int * d0,
                MICRO as int,
                2_000_000_000_000int,
            );
            assert(-(2_000_000_000_000int * MICRO) <= velocity[1] as int * d1
                <= 2_000_000_000_000int * MICRO) by (nonlinear_arith)
                requires
                    -FIX_LIMIT <= velocity[1] <= FIX_LIMIT,
                    -2_000_000 <= d1 <= 2_000_000,
                    FIX_LIMIT == 1_000_000_000_000,
                    MICRO == 1_000_000,
            ;
            crate::units::lemma_div_pos_mag(
                velocity[1] as int * d1,
                MICRO as int,
                2_000_000_000_000int,
            );
            assert(-(2_000_000_000_000int * MICRO) <= velocity[2] as int * d2
                <= 2_000_000_000_000int * MICRO) by (nonlinear_arith)
                requires
                    -FIX_LIMIT <= velocity[2] <= FIX_LIMIT,
                    -2_000_000 <= d2 <= 2_000_000,
                    FIX_LIMIT == 1_000_000_000_000,
                    MICRO == 1_000_000,
            ;
            crate::units::lemma_div_pos_mag(
                velocity[2] as int * d2,
                MICRO as int,
                2_000_000_000_000int,
            );
        }
        let projected = clamp_i64(p0 + p1 + p2, -FIX_LIMIT, FIX_LIMIT);
        let return_v = config.params.force_return_velocity_max_m_per_sec;
        let w = self.winches[id];
        match w.mech_status {
            MechStatus::Stuck => 0,
            MechStatus::ForceLimited(f) => {
                let guarded = self.force_limit_guard(f, projected);
                let back = fix_mul(f, return_v);
                clamp_i64(guarded - back, -FIX_LIMIT, FIX_LIMIT)
            },
            MechStatus::Normal => projected,
        }
    }

    /// The velocity under whole-flyer manual control: the rate-limited
    /// manual vector with its Y axis negated, projected onto this winch.
    fn manual_multi_winch_controller(&self, config: &Config, id: usize) -> (r: i64)
        requires
            self.well_formed(),
            config.well_formed(),
            id < self.winches@.len(),
            id < config.winches@.len(),
        ensures
            r == multi_winch_velocity_spec(
                self.winches@[id as int].mech_status,
                projected_velocity_spec(
                    seq![
                        self.manual.velocity.vec[0],
                        (-self.manual.velocity.vec[1]) as i64,
                        self.manual.velocity.vec[2],
                    ],
                    config.winches@[id as int].loc,
                ),
                config.params.force_return_velocity_max_m_per_sec as int,
            ),
            -FIX_LIMIT <= r <= FIX_LIMIT,
    {
        let v = self.manual.limited_velocity();
        let flipped: [i64; 3] = [v[0], -v[1], v[2]];
        let r = self.multi_winch_controller(config, id, flipped);
        proof {
            assert(flipped@ =~= seq![
                self.manual.velocity.vec[0],
                (-self.manual.velocity.vec[1]) as i64,
                self.manual.velocity.vec[2],
            ]);
        }
        r
    }

    /// The full per-status winch path: fold the status in, select and
    /// integrate a velocity, and build the command.
    pub fn winch_control_loop(
        &mut self,
        config: &Config,
        id: usize,
        status: &WinchStatus,
        now_millis: u64,
    ) -> (r: WinchCommand)
        requires
            old(self).well_formed(),
            config.well_formed(),
            id < old(self).winches@.len(),
            id < config.winches@.len(),
            status_fits(*status),
        ensures
            final(self).well_formed(),
            final(self).winches@.len() == old(self).winches@.len(),
            // The mechanical state the loop acted on is the classifier's.
            final(self).winches@[id as int].mech_status == mech_status_of(*status),
            // Halted mode holds the sensed position with the PID disabled.
            config.mode == ControllerMode::Halted ==> r.position == status.sensors.position
                && r.pid == crate::winch::halted_pid_gains(),
            config.mode != ControllerMode::Halted ==> r.position
                == final(self).winches@[id as int].quantized_position_target
                && r.pid == crate::winch::pid_gains_of(
                *config,
                config.winches@[id as int].calibration,
            ),
            r.force == crate::winch::force_command_of(
                *config,
                config.winches@[id as int].calibration,
            ),
            // The commanded velocity obeyed the mode and the force guard.
            ({
                let v = winch_velocity_spec(
                    old(self).manual.velocity.vec@,
                    mech_status_of(*status),
                    *config,
                    id as int,
                );
                let distance_m = crate::units::div_q(v, crate::message::TICK_HZ as int);
                let delta = crate::units::fix_div_spec(
                    distance_m,
                    config.winches@[id as int].calibration.m_dist_per_count as int,
                );
                let after_reset_q = if crate::winch::reset_condition(
                    config.mode,
                    old(self).winches@[id as int].last_winch_status,
                    *status,
                ) {
                    status.sensors.position as int
                } else {
                    old(self).winches@[id as int].quantized_position_target as int
                };
                let after_reset_f = if crate::winch::reset_condition(
                    config.mode,
                    old(self).winches@[id as int].last_winch_status,
                    *status,
                ) {
                    0int
                } else {
                    old(self).winches@[id as int].fract_position_target as int
                };
                let (q, f) = crate::winch::tick_step(after_reset_q, after_reset_f, delta);
                &&& final(self).winches@[id as int].quantized_position_target == q
                &&& final(self).winches@[id as int].fract_position_target == f
            }),
            // The returned command is exactly what the final winch state
            // builds for this status.
            r == crate::winch::command_spec(
                final(self).winches@[id as int],
                *config,
                config.winches@[id as int].calibration,
                *status,
            ),
    {
        let cal = config.winches[id].calibration;
        let mut w = self.winches[id];
        w.update(config, &cal, status, now_millis);
        self.winches.set(id, w);

        let velocity: i64 = match config.mode {
            ControllerMode::ManualWinch(manual_id) => {
                if manual_id == id {
                    self.manual_single_winch_controller(id)
                } else {
                    0
                }
            },
            ControllerMode::ManualFlyer => self.manual_multi_winch_controller(config, id),
            ControllerMode::Normal => self.manual_multi_winch_controller(config, id),
            ControllerMode::Halted => 0,
        };

        let mut w2 = self.winches[id];
        w2.motion_tick_with_velocity(config, &cal, velocity);
        let r = w2.make_command(config, &cal, status);
        self.winches.set(id, w2);
        r
    }

}

/// Whether a rule list accepts a detection, scanning from index `i`: some
/// rule names the detection's label and its probability clears the rule's
/// floor.
pub open spec fn rule_match_from(
    rules: Seq<(String, i64)>,
    label: Seq<char>,
    prob: int,
    i: int,
) -> bool
    decreases rules.len() - i,
{
    if i < 0 || i >= rules.len() {
        false
    } else if rules[i].0@ == label && prob >= rules[i].1 {
        true
    } else {
        rule_match_from(rules, label, prob, i + 1)
    }
}

/// Whether a detection qualifies as a snap target: its area within the
/// configured range and some snap rule accepting it.
pub open spec fn snap_qualifies(obj: CameraDetectedObject, config: Config) -> bool {
    let area = clamp_spec(
        fix_mul_spec(obj.rect[2] as int, obj.rect[3] as int),
        -FIX_LIMIT as int,
        FIX_LIMIT as int,
    );
    &&& config.vision.tracking_min_area <= area <= config.vision.tracking_max_area
    &&& rule_match_from(config.vision.snap_tracked_region_to@, obj.label@, obj.prob as int, 0)
}

/// Every detection in a batch within fixed-point range.
pub open spec fn detections_fit(det: CameraDetectedObjects) -> bool {
    forall|k: int|
        0 <= k < det.objects@.len() ==> crate::rect::rect_fits((#[trigger] det.objects@[k]).rect)
            && -FIX_LIMIT <= det.objects@[k].prob <= FIX_LIMIT
}

/// Whether some snap rule accepts a label and probability.
fn rule_matches(rules: &Vec<(String, i64)>, label: &String, prob: i64) -> (r: bool)
    ensures
        r == rule_match_from(rules@, label@, prob as int, 0),
{
    let n = rules.len();
    let mut i: usize = 0;
    while i < n
        invariant
            n == rules@.len(),
            0 <= i <= n,
            rule_match_from(rules@, label@, prob as int, 0) == rule_match_from(
                rules@,
                label@,
                prob as int,
                i as int,
            ),
        decreases n - i,
    {
        if rules[i].0 == *label && prob >= rules[i].1 {
            return true;
        }
        i = i + 1;
    }
    false
}

/// Law: the force limit is one-way.  A winch that is force-limited on the
/// positive side is never commanded to a positive velocity, and one
/// limited on the negative side never to a negative velocity, whatever the
/// manual inputs hold.
pub proof fn lemma_force_limit_monotonic(
    manual_vec: Seq<i64>,
    f: i64,
    config: Config,
    id: int,
    return_v: int,
)
    requires
        config.well_formed(),
        config.params.force_return_velocity_max_m_per_sec >= 0,
        0 <= id < config.winches@.len(),
    ensures
        f > 0 ==> winch_velocity_spec(manual_vec, MechStatus::ForceLimited(f), config, id) <= 0,
        f < 0 ==> winch_velocity_spec(manual_vec, MechStatus::ForceLimited(f), config, id) >= 0,
{
    let mech = MechStatus::ForceLimited(f);
    let rv = config.params.force_return_velocity_max_m_per_sec as int;
    assert forall|v: int| f > 0 implies guard_spec(f as int, v) <= 0 by {
        if v * f < 0 {
            assert(v < 0) by (nonlinear_arith)
                requires
                    v * f < 0,
                    f > 0,
            ;
        }
    }
    assert forall|v: int| f < 0 implies guard_spec(f as int, v) >= 0 by {
        if v * f < 0 {
            assert(v > 0) by (nonlinear_arith)
                requires
                    v * f < 0,
                    f < 0,
            ;
        }
    }
    if f > 0 {
        assert(f as int * rv >= 0) by (nonlinear_arith)
            requires
                f > 0,
                rv >= 0,
        ;
        assert(fix_mul_spec(f as int, rv) >= 0) by {
            assert(div_pos(f as int * rv, MICRO as int) >= 0) by (nonlinear_arith)
                requires
                    f as int * rv >= 0,
                    MICRO > 0,
            ;
        }
    }
    if f < 0 {
        assert(f as int * rv <= 0) by (nonlinear_arith)
            requires
                f < 0,
                rv >= 0,
        ;
        assert(fix_mul_spec(f as int, rv) <= 0) by {
            assert(div_pos(-(f as int * rv), MICRO as int) >= 0) by (nonlinear_arith)
                requires
                    -(f as int * rv) >= 0,
                    MICRO > 0,
            ;
        }
    }
}

} // verus!
