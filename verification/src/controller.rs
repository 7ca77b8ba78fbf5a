//! The controller's dispatch: one function per inbound bus message and one
//! per tick, each deciding state changes and the actions the transport
//! layer must carry out.

use vstd::prelude::*;

use crate::config::{Config, ControllerMode};
use crate::gimbal_control::GimbalController;
use crate::gimbal_poller::GimbalPort;
use crate::manual::axes_zero;
use crate::merge::Value;
use crate::message::{Command, GimbalControlStatus, Message, WinchCommand, TICK_HZ};
use crate::state::{detections_fit, ControllerState};
use crate::units::MICRO;
use crate::winch::status_fits;

verus! {

/// What the transport layer must do after a dispatch.
#[derive(Debug, PartialEq, Clone)]
pub enum ControllerAction {
    /// Send this command to winch `0`'s address, and so on.
    SendWinchCommand(usize, WinchCommand),
    /// Put this message on the telemetry bus.
    Broadcast(Message),
    /// Merge this update into the configuration tree, re-check it, and
    /// hand the result back through `set_config`.
    ApplyConfigUpdate(Value),
    /// The configuration changed: persist it and broadcast it.
    ConfigChanged,
}

/// The controller: its state, the gimbal pipeline, and the authoritative
/// configuration.
pub struct Controller {
    pub state: ControllerState,
    pub gimbal_ctrl: GimbalController,
    pub local_config: Config,
}

impl Controller {
    /// Everything the dispatch relies on.
    pub open spec fn well_formed(&self) -> bool {
        &&& self.state.well_formed()
        &&& self.gimbal_ctrl.well_formed()
        &&& self.local_config.well_formed()
        &&& self.state.winches@.len() == self.local_config.winches@.len()
    }

    /// A controller for a configuration.
    pub fn new(config: Config) -> (r: Controller)
        requires
            config.well_formed(),
        ensures
            r.well_formed(),
            r.local_config == config,
    {
        let state = ControllerState::new(&config);
        Controller { state, gimbal_ctrl: GimbalController::new(), local_config: config }
    }

    /// Adopt a configuration the transport layer merged and re-checked.
    pub fn set_config(&mut self, config: Config)
        requires
            old(self).well_formed(),
            config.well_formed(),
            config.winches@.len() == old(self).state.winches@.len(),
        ensures
            final(self).well_formed(),
            final(self).local_config == config,
            config.mode != old(self).state.last_mode ==> final(self).state.manual.axes
                == axes_zero(),
    {
        self.local_config = config;
        let cfg = &self.local_config;
        self.state.config_changed(cfg);
    }

    /// Dispatch one bus message: update the state it concerns and return
    /// the actions the transport layer must take.
    #[verifier::rlimit(100)]
    pub fn handle_message(&mut self, gimbal: &mut GimbalPort, msg: Message, now_millis: u64) -> (r:
        Vec<ControllerAction>)
        requires
            old(self).well_formed(),
        ensures
            final(self).well_formed(),
            match msg {
                // A winch status within range runs the winch loop: the per-
                // winch state evolves exactly as the loop's own contract
                // says, and the one command sent back is the command that
                // final state builds for this status.
                Message::WinchStatus(id, status) => if id < old(self).state.winches@.len()
                    && status_fits(status) {
                    &&& final(self).local_config == old(self).local_config
                    &&& final(self).state.winches@.len() == old(self).state.winches@.len()
                    &&& final(self).state.winches@[id as int].mech_status == crate::winch::mech_status_of(status)
                    &&& ({
                        let cfg = old(self).local_config;
                        let v = crate::state::winch_velocity_spec(
                            old(self).state.manual.velocity.vec@,
                            crate::winch::mech_status_of(status),
                            cfg,
                            id as int,
                        );
                        let distance_m = crate::units::div_q(v, TICK_HZ as int);
                        let delta = crate::units::fix_div_spec(
                            distance_m,
                            cfg.winches@[id as int].calibration.m_dist_per_count as int,
                        );
                        let was_reset = crate::winch::reset_condition(
                            cfg.mode,
                            old(self).state.winches@[id as int].last_winch_status,
                            status,
                        );
                        let (q, f) = crate::winch::tick_step(
                            if was_reset {
                                status.sensors.position as int
                            } else {
                                old(self).state.winches@[id as int].quantized_position_target as int
                            },
                            if was_reset {
                                0int
                            } else {
                                old(self).state.winches@[id as int].fract_position_target as int
                            },
                            delta,
                        );
                        &&& final(self).state.winches@[id as int].quantized_position_target == q
                        &&& final(self).state.winches@[id as int].fract_position_target == f
                    })
                    &&& r@ == seq![
                        ControllerAction::SendWinchCommand(
                            id,
                            crate::winch::command_spec(
                                final(self).state.winches@[id as int],
                                old(self).local_config,
                                old(self).local_config.winches@[id as int].calibration,
                                status,
                            ),
                        ),
                    ]
                } else {
                    r@.len() == 0 && *final(self) == *old(self)
                },
                // A mode change mutates the config and reports the change;
                // setting the current mode again changes nothing.  Mode
                // mutation is total: every mode value is adopted.
                Message::Command(Command::SetMode(mode)) => {
                    if mode != old(self).local_config.mode {
                        final(self).local_config.mode == mode && r@ == seq![
                            ControllerAction::ConfigChanged,
                        ]
                    } else {
                        final(self).local_config == old(self).local_config && r@.len() == 0
                    }
                },
                // Manual axis writes land in the axis store.
                Message::Command(Command::ManualControlValue(axis, v)) => {
                    &&& crate::manual::axis_value(final(self).state.manual.axes, axis) == v
                    &&& r@.len() == 0
                },
                Message::Command(Command::ManualControlReset) => {
                    &&& final(self).state.manual.axes == axes_zero()
                    &&& r@.len() == 0
                },
                // A config update goes out for merging.
                Message::UpdateConfig(v) => r@ == seq![ControllerAction::ApplyConfigUpdate(v)]
                    && *final(self) == *old(self),
                // Sensor and cache updates land where they belong.
                Message::FlyerSensors(sensors) => {
                    &&& final(self).state.flyer_sensors == Some(sensors)
                    &&& final(self).state.winches == old(self).state.winches
                    &&& final(self).local_config == old(self).local_config
                    &&& r@.len() == 0
                },
                Message::GimbalValue(val, _) => {
                    &&& match crate::gimbal_poller::addr_index_spec(val.addr) {
                        Some(i) => final(self).gimbal_ctrl.values@ == old(
                            self,
                        ).gimbal_ctrl.values@.update(
                            i,
                            crate::gimbal_control::GimbalValueState {
                                last_update: Some((now_millis, val)),
                                ..old(self).gimbal_ctrl.values@[i]
                            },
                        ),
                        None => final(self).gimbal_ctrl.values == old(self).gimbal_ctrl.values,
                    }
                    &&& final(self).state == old(self).state
                    &&& final(self).local_config == old(self).local_config
                    &&& r@.len() == 0
                },
                // Gimbal traffic goes straight onto the port's queues.
                Message::Command(Command::GimbalPacket(packet)) => {
                    &&& final(gimbal).packets@ == old(gimbal).packets@.push(packet)
                    &&& *final(self) == *old(self)
                    &&& r@.len() == 0
                },
                Message::Command(Command::GimbalValueWrite(data)) => {
                    &&& final(gimbal).writes@ == old(gimbal).writes@.push(data)
                    &&& *final(self) == *old(self)
                    &&& r@.len() == 0
                },
                Message::Command(Command::GimbalValueRequests(reqs)) => {
                    &&& final(gimbal).requests@ == old(gimbal).requests@ + reqs@
                    &&& *final(self) == *old(self)
                    &&& r@.len() == 0
                },
                Message::Command(Command::GimbalMotorEnable(en)) => {
                    &&& final(gimbal).packets@.len() == old(gimbal).packets@.len() + 3
                    &&& *final(self) == *old(self)
                    &&& r@.len() == 0
                },
                // The tracker's region is adopted unless manual control is
                // overriding it; detections are adopted and may snap.
                Message::Command(Command::CameraRegionTracking(tr)) => {
                    &&& if crate::rect::rect_fits(tr.rect) {
                        if old(self).state.manual.camera_control_active_spec(now_millis) {
                            final(self).state.tracked_region == old(self).state.tracked_region
                        } else {
                            final(self).state.tracked_region == tr
                        }
                    } else {
                        *final(self) == *old(self)
                    }
                    &&& final(self).local_config == old(self).local_config
                    &&& r@.len() == 0
                },
                Message::Command(Command::CameraObjectDetection(obj)) => {
                    &&& if detections_fit(obj) {
                        final(self).state.detected == (now_millis, obj)
                    } else {
                        *final(self) == *old(self)
                    }
                    &&& final(self).local_config == old(self).local_config
                },
                // Everything else on the bus is outbound telemetry the
                // controller ignores.
                _ => *final(self) == *old(self) && r@.len() == 0,
            },
    {
        let mut actions: Vec<ControllerAction> = Vec::new();
        match msg {
            Message::UpdateConfig(v) => {
                // The merge itself runs in the transport layer against the
                // configuration tree; the result comes back via
                // `set_config`.
                actions.push(ControllerAction::ApplyConfigUpdate(v));
                proof {
                    assert(actions@ =~= seq![
                        ControllerAction::ApplyConfigUpdate(v),
                    ]);
                }
            },
            Message::WinchStatus(id, status) => {
                if id < self.state.winches.len() && winch_status_fits_exec(&status) {
                    let cfg = &self.local_config;
                    let command = self.state.winch_control_loop(cfg, id, &status, now_millis);
                    actions.push(ControllerAction::SendWinchCommand(id, command));
                    proof {
                        assert(actions@ =~= seq![
                            ControllerAction::SendWinchCommand(id, command),
                        ]);
                    }
                }
            },
            Message::FlyerSensors(sensors) => {
                self.state.flyer_sensor_update(sensors);
            },
            Message::GimbalValue(val, _) => {
                self.gimbal_ctrl.value_received(val, now_millis);
            },
            Message::Command(Command::CameraObjectDetection(obj)) => {
                if detections_fit_exec(&obj) {
                    self.state.camera_object_detection_update(obj, now_millis);
                    let cfg = &self.local_config;
                    if let Some(rect) = self.state.tracking_update(cfg, 0, false, now_millis) {
                        actions.push(
                            ControllerAction::Broadcast(Message::CameraInitTrackedRegion(rect)),
                        );
                    }
                }
            },
            Message::Command(Command::CameraRegionTracking(tr)) => {
                if rect_fits_exec(&tr.rect) {
                    self.state.camera_region_tracking_update(tr, now_millis);
                }
            },
            Message::Command(Command::SetMode(mode)) => {
                if self.local_config.mode != mode {
                    self.local_config.mode = mode;
                    let cfg = &self.local_config;
                    self.state.config_changed(cfg);
                    actions.push(ControllerAction::ConfigChanged);
                    proof {
                        assert(actions@ =~= seq![ControllerAction::ConfigChanged]);
                    }
                }
            },
            Message::Command(Command::GimbalMotorEnable(en)) => {
                self.gimbal_ctrl.set_motor_enable(gimbal, en);
            },
            Message::Command(Command::GimbalPacket(packet)) => {
                gimbal.send_packet(packet);
            },
            Message::Command(Command::GimbalValueWrite(data)) => {
                gimbal.write_value(data);
            },
            Message::Command(Command::GimbalValueRequests(reqs)) => {
                gimbal.request_values(reqs);
            },
            Message::Command(Command::ManualControlValue(axis, value)) => {
                let mut manual = self.state.manual;
                manual.control_value(axis, value);
                self.state.manual = manual;
            },
            Message::Command(Command::ManualControlReset) => {
                let mut manual = self.state.manual;
                manual.control_reset();
                self.state.manual = manual;
            },
            _ => {},
        }
        actions
    }

    /// One 250 Hz tick: manual control follows its inputs, the gimbal
    /// pipeline runs and queues its control-rate write, and a fresh
    /// tracking rectangle is proposed if manual control or a snap asks for
    /// one.
    pub fn tick(&mut self, gimbal: &mut GimbalPort, now_millis: u64) -> (r: (
        GimbalControlStatus,
        Option<[i64; 4]>,
    ))
        requires
            old(self).well_formed(),
            old(self).local_config.params.accel_limit_m_per_sec2 >= 0,
        ensures
            final(self).well_formed(),
            final(self).local_config == old(self).local_config,
            // The returned status is the gimbal pipeline's, run against the
            // tracked region as the tick started.
            crate::gimbal_control::tick_post(
                old(self).gimbal_ctrl,
                final(self).gimbal_ctrl,
                old(self).local_config,
                old(self).state.tracked_region.rect,
                now_millis,
                r.0,
            ),
            // Its decided rates leave as the one control-rate write.
            final(gimbal).writes@ == old(gimbal).writes@.push(
                crate::message::GimbalValueData {
                    addr: crate::message::GimbalValueAddress {
                        target: crate::gimbal_protocol::target::YAW,
                        index: crate::gimbal_protocol::values::CONTROL_RATE,
                    },
                    value: r.0.rates[0],
                },
            ).push(
                crate::message::GimbalValueData {
                    addr: crate::message::GimbalValueAddress {
                        target: crate::gimbal_protocol::target::PITCH,
                        index: crate::gimbal_protocol::values::CONTROL_RATE,
                    },
                    value: r.0.rates[1],
                },
            ),
            final(gimbal).packets == old(gimbal).packets,
            // A proposal, when one fires, is the region the state now
            // tracks; otherwise the region is unchanged.
            match r.1 {
                Some(rect) => rect == final(self).state.tracked_region.rect,
                None => final(self).state.tracked_region == old(self).state.tracked_region,
            },
    {
        let cfg = &self.local_config;
        self.state.every_tick(cfg, now_millis);
        let status = self.gimbal_ctrl.tick(
            cfg,
            gimbal,
            &self.state.tracked_region,
            now_millis,
        );
        let time_step = (MICRO as u32 / TICK_HZ) as i64;
        let proposal = self.state.tracking_update(cfg, time_step, false, now_millis);
        (status, proposal)
    }
}

/// Whether a status report's fixed-point fields are all in range./// Whether a status report's fixed-point fields are all in range.
fn winch_status_fits_exec(status: &crate::message::WinchStatus) -> (r: bool)
    ensures
        r == status_fits(*status),
{
    let lim = crate::units::FIX_LIMIT;
    -lim <= status.sensors.force.filtered && status.sensors.force.filtered <= lim
        && -lim <= status.sensors.velocity && status.sensors.velocity <= lim
        && -lim <= status.command.force.neg_motion_min && status.command.force.neg_motion_min <= lim
        && -lim <= status.command.force.pos_motion_max && status.command.force.pos_motion_max <= lim
        && -lim <= status.command.force.lockout_below && status.command.force.lockout_below <= lim
        && -lim <= status.command.force.lockout_above && status.command.force.lockout_above <= lim
}

/// Whether every coordinate of a rectangle is in range.
fn rect_fits_exec(r4: &[i64; 4]) -> (r: bool)
    ensures
        r == crate::rect::rect_fits(*r4),
{
    let lim = crate::units::FIX_LIMIT;
    let ok = -lim <= r4[0] && r4[0] <= lim && -lim <= r4[1] && r4[1] <= lim && -lim <= r4[2]
        && r4[2] <= lim && -lim <= r4[3] && r4[3] <= lim;
    proof {
        if ok {
            assert forall|i: int| 0 <= i < 4 implies -lim <= #[trigger] r4[i] <= lim by {
                assert(r4[0] == r4@[0] && r4[1] == r4@[1] && r4[2] == r4@[2] && r4[3] == r4@[3]);
            }
        }
    }
    ok
}

/// Whether every detection in a batch is in range.
#[verifier::loop_isolation(false)]
fn detections_fit_exec(det: &crate::message::CameraDetectedObjects) -> (r: bool)
    ensures
        r == detections_fit(*det),
{
    let lim = crate::units::FIX_LIMIT;
    let n = det.objects.len();
    let mut i: usize = 0;
    while i < n
        invariant
            n == det.objects@.len(),
            0 <= i <= n,
            forall|k: int|
                0 <= k < i ==> crate::rect::rect_fits((#[trigger] det.objects@[k]).rect) && -lim
                    <= det.objects@[k].prob <= lim,
        decreases n - i,
    {
        let obj = &det.objects[i];
        if !rect_fits_exec(&obj.rect) || obj.prob < -lim || obj.prob > lim {
            proof {
                assert(!(crate::rect::rect_fits(det.objects@[i as int].rect) && -lim
                    <= det.objects@[i as int].prob <= lim));
            }
            return false;
        }
        i = i + 1;
    }
    true
}

} // verus!
