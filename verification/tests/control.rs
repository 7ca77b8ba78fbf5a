//! End-to-end tests of the winch and gimbal control paths.

use bot_controller::config::{
    AngleLimits, BotParams, Config, ControllerMode, GimbalConfig, GimbalTrackingGain,
    LightAnimatorConfig, LightingConfig, LightingScheme, VisionConfig, WinchCalibration,
    WinchConfig, WinchLightingScheme,
};
use bot_controller::gimbal_control::{limiter_axis, GimbalController};
use bot_controller::gimbal_poller::GimbalPort;
use bot_controller::gimbal_protocol::{target, values};
use bot_controller::message::{GimbalValueAddress, GimbalValueData};
use bot_controller::led::APA102Pixel;
use bot_controller::message::{
    ForceTelemetry, ManualControlAxis, WinchCommand, WinchMotorControl, WinchPWM, WinchSensors,
    WinchStatus,
};
use bot_controller::state::ControllerState;
use bot_controller::units::MICRO;
use bot_controller::scheduler::DailyPollInterval;
use bot_controller::winch::MechStatus;
use bot_controller::message::{CameraDetectedObject, CameraDetectedObjects};

const M: i64 = 1_000_000;

fn control_test_config() -> Config {
    let winch_scheme = WinchLightingScheme {
        normal_color: [0, M, 0],
        manual_selected_color: [0, 0, M],
        manual_deselected_color: [M / 4, M / 4, M / 4],
        halt_color: [M, 0, 0],
        error_color: [M, M, 0],
        stuck_color: [M, 0, M],
        command_color: [0, M, M],
        motion_color: [M / 2, M / 2, 0],
        wavelength_m: M,
        wave_window_length_m: M,
        wave_amplitude: M / 2,
        wave_exponent: 2 * M,
        speed_for_full_wave_amplitude_m_per_sec: M,
        velocity_filter_param: M / 10,
    };
    Config {
        mode: ControllerMode::Halted,
        params: BotParams {
            manual_control_velocity_m_per_sec: 2 * M,
            accel_limit_m_per_sec2: 1_000_000_000_000,
            force_neg_motion_min_kg: -M,
            force_pos_motion_max_kg: 2 * M,
            force_lockout_below_kg: -2 * M,
            force_lockout_above_kg: 4 * M,
            force_filter_param: M / 2,
            force_return_velocity_max_m_per_sec: M / 10,
            deadband_position_err_m: 20_000,
            deadband_velocity_limit_m_per_sec: 10_000,
            pos_err_filter_param: M / 2,
            vel_err_filter_param: M / 2,
            integral_err_decay_param: M / 10,
            pwm_gain_p: M,
            pwm_gain_i: M / 10,
            pwm_gain_d: M / 100,
            pwm_bias: 0,
            pwm_minimum: 0,
            pwm_hz_low_motion: 4000 * M,
            pwm_hz_high_motion: 20_000 * M,
            pwm_hz_filter_param: M / 2,
            pwm_velocity_threshold: M / 10,
            winch_watchdog_millis: 500,
        },
        gimbal: GimbalConfig {
            max_rate: 5 * M,
            yaw_gains: vec![GimbalTrackingGain { width: M / 2, p_gain: M, i_gain: M / 10 }],
            pitch_gains: vec![GimbalTrackingGain { width: M / 2, p_gain: M, i_gain: M / 10 }],
            yaw_limits: AngleLimits { lower: -100, upper: 100 },
            pitch_limits: AngleLimits { lower: -200, upper: 200 },
            limiter_gain: M / 2,
            limiter_slowdown_extent: [10 * M, 10 * M],
            hold_p_gain: M / 4,
            hold_i_gain: M / 20,
            tracking_i_decay_rate: M / 10,
            hold_i_decay_rate: M / 10,
        },
        vision: VisionConfig {
            border_rect: [-M, -M, 2 * M, 2 * M],
            manual_control_deadzone: M / 10,
            manual_control_speed: M,
            manual_control_restoring_force: M / 2,
            manual_control_restoring_force_width: M,
            manual_control_timeout_sec: 2 * M,
            tracking_default_area: M / 10,
            tracking_min_area: M / 100,
            tracking_max_area: M,
            snap_tracked_region_to: vec![(String::from("person"), M / 2)],
        },
        winches: vec![WinchConfig {
            loc: [0, 0, 2 * M],
            calibration: WinchCalibration {
                force_zero_count: 0,
                kg_force_per_count: M,
                m_dist_per_count: 10_000,
            },
        }],
        lighting: LightingConfig {
            animation: LightAnimatorConfig { frame_rate: 60 * M, filter_param: M / 10 },
            current: LightingScheme {
                brightness: M,
                flash_rate_hz: M,
                flash_exponent: 2 * M,
                winch: winch_scheme,
            },
            saved: vec![],
            schedule: vec![],
        },
    }
}

fn status_with(position: i32, filtered_force: i64, enabled: i16, tick_counter: u32) -> WinchStatus {
    WinchStatus {
        command_counter: 0,
        tick_counter,
        command: WinchCommand {
            position,
            force: bot_controller::message::ForceCommand {
                filter_param: M / 2,
                neg_motion_min: -M,
                pos_motion_max: 2 * M,
                lockout_below: -2 * M,
                lockout_above: 4 * M,
            },
            pid: bot_controller::message::PIDGains {
                gain_p: 0,
                gain_i: 0,
                gain_d: 0,
                p_filter_param: M,
                i_decay_param: M,
                d_filter_param: M,
            },
            deadband: bot_controller::message::WinchDeadband { position: 2, velocity: 1000 },
            pwm: bot_controller::message::WinchPWMCommand { hz: 0, bias: 0, minimum: 0 },
        },
        sensors: WinchSensors {
            force: ForceTelemetry { measure: 0, filtered: filtered_force, counter: 0 },
            position,
            velocity: 0,
        },
        motor: WinchMotorControl {
            pwm: WinchPWM { total: 0, p: 0, i: 0, d: 0, quant: 0, enabled },
            position_err: 0,
            pos_err_filtered: 0,
            pos_err_integral: 0,
            vel_err_inst: 0,
            vel_err_filtered: 0,
        },
    }
}

#[test]
fn halted_command_holds_sensed_position() {
    // A status arriving while halted yields a command for exactly the
    // sensed position with the PID disabled and the configured deadband.
    let config = control_test_config();
    let mut state = ControllerState::new(&config);
    let status = status_with(1000, 0, 1, 1);
    let cmd = state.winch_control_loop(&config, 0, &status, 10);
    assert_eq!(cmd.position, 1000);
    assert_eq!(cmd.pid.gain_p, 0);
    assert_eq!(cmd.pid.gain_i, 0);
    assert_eq!(cmd.pid.gain_d, 0);
    assert_eq!(cmd.pid.p_filter_param, M);
    assert_eq!(cmd.pid.i_decay_param, M);
    assert_eq!(cmd.pid.d_filter_param, M);
    // 0.02 m at 0.01 m per count is two counts.
    assert_eq!(cmd.deadband.position, 2);
}

#[test]
fn manual_winch_velocity_integrates_without_drift() {
    // Full positive Y at 2 m/s and 0.01 m per count adds 0.8 counts per
    // tick; after 250 ticks the target sits exactly 200 counts above the
    // sensed position.
    let mut config = control_test_config();
    config.mode = ControllerMode::ManualWinch(0);
    let mut state = ControllerState::new(&config);
    state.manual.control_value(ManualControlAxis::RelativeY, M);
    let mut now = 0u64;
    for tick in 0..250u32 {
        now += 4;
        state.every_tick(&config, now);
        let status = status_with(500, 0, 1, tick + 1);
        let _ = state.winch_control_loop(&config, 0, &status, now);
    }
    assert_eq!(state.winches[0].quantized_position_target, 500 + 200);
    assert_eq!(state.winches[0].fract_position_target, 0);
}

#[test]
fn force_lockout_stops_manual_motion() {
    // A filtered force above the lockout classifies the winch stuck and no
    // manual input moves the target.
    let mut config = control_test_config();
    config.mode = ControllerMode::ManualWinch(0);
    let mut state = ControllerState::new(&config);
    state.manual.control_value(ManualControlAxis::RelativeY, M);
    let mut now = 0u64;
    for tick in 0..50u32 {
        now += 4;
        state.every_tick(&config, now);
        let status = status_with(500, 5 * M, 1, tick + 1);
        let _ = state.winch_control_loop(&config, 0, &status, now);
    }
    assert_eq!(state.winches[0].mech_status, MechStatus::Stuck);
    assert_eq!(state.winches[0].quantized_position_target, 500);
}

#[test]
fn force_limit_blocks_only_deepening_direction() {
    // A force past the positive motion limit (but under lockout) only
    // blocks motion that would deepen it; negative motion still passes.
    let mut config = control_test_config();
    config.mode = ControllerMode::ManualWinch(0);
    let mut state = ControllerState::new(&config);
    state.manual.control_value(ManualControlAxis::RelativeY, M);
    let mut now = 0u64;
    for tick in 0..10u32 {
        now += 4;
        state.every_tick(&config, now);
        let status = status_with(500, 3 * M, 1, tick + 1);
        let _ = state.winch_control_loop(&config, 0, &status, now);
    }
    match state.winches[0].mech_status {
        MechStatus::ForceLimited(f) => assert!(f > 0),
        other => panic!("unexpected mech status {:?}", other),
    }
    assert_eq!(state.winches[0].quantized_position_target, 500);

    // Reverse the stick: motion that reduces the force is allowed.
    state.manual.control_value(ManualControlAxis::RelativeY, -M);
    for tick in 10..20u32 {
        now += 4;
        state.every_tick(&config, now);
        let status = status_with(500, 3 * M, 1, tick + 1);
        let _ = state.winch_control_loop(&config, 0, &status, now);
    }
    assert!(state.winches[0].quantized_position_target < 500);
}

#[test]
fn force_fraction_rounds_away_from_zero() {
    // An excursion under one millionth of the limit band still reads as a
    // definite positive fraction, so the guard keeps its direction.
    let mut config = control_test_config();
    config.mode = ControllerMode::ManualWinch(0);
    let mut state = ControllerState::new(&config);
    let status = status_with(500, 2 * M + 1, 1, 1);
    let _ = state.winch_control_loop(&config, 0, &status, 10);
    assert_eq!(state.winches[0].mech_status, MechStatus::ForceLimited(1));
}

#[test]
fn endstop_spring_pushes_back_past_limit() {
    // Tracking rate +10 at angle 120 with limits (-100, 100) and limiter
    // gain one half: the spring wins, rate comes out at exactly -10.
    let r = limiter_axis(10 * M, 120, -100, 100, 10 * M, M / 2, 5 * M);
    assert_eq!(r, -10 * M);
}

#[test]
fn endstop_slowdown_caps_rate_near_limit() {
    // At angle 95, five counts from the upper limit with a ten-count band,
    // the cap is half the full rate.
    let max_rate = 4 * M;
    let r = limiter_axis(4 * M, 95, -100, 100, 10 * M, M / 2, max_rate);
    assert_eq!(r, max_rate / 2);
    // A rate under the cap passes untouched.
    let r2 = limiter_axis(M, 95, -100, 100, 10 * M, M / 2, max_rate);
    assert_eq!(r2, M);
}

#[test]
fn mode_change_resets_manual_controls() {
    let mut config = control_test_config();
    config.mode = ControllerMode::ManualWinch(0);
    let mut state = ControllerState::new(&config);
    state.manual.control_value(ManualControlAxis::RelativeY, M);
    config.mode = ControllerMode::Halted;
    state.config_changed(&config);
    assert_eq!(state.manual.axes.relative_y, 0);
}

#[test]
fn apa102_encodes_brightness_and_red_quirk() {
    // Full red: header saturates at 31, red 255.
    let p = APA102Pixel::from_color([MICRO, 0, 0]);
    assert_eq!(p.header, 0xff);
    assert_eq!(p.r, 255);
    assert_eq!(p.g, 0);
    assert_eq!(p.b, 0);

    // Green only: red is forced to one so the pixel stays lit.
    let p2 = APA102Pixel::from_color([0, MICRO, 0]);
    assert_eq!(p2.g, 255);
    assert_eq!(p2.r, 1);

    // Dark pixel still carries the minimum header brightness.
    let p3 = APA102Pixel::from_color([0, 0, 0]);
    assert_eq!(p3.header, 0xe1);
    assert_eq!(p3.r, 0);

    let mut wire = Vec::new();
    p2.push_to_vec(&mut wire);
    assert_eq!(wire, vec![p2.header, 255, 0, 1]);
}

#[test]
fn watchdog_flags_silent_winches() {
    let mut config = control_test_config();
    config.mode = ControllerMode::Normal;
    let mut state = ControllerState::new(&config);
    // No status ever arrived: the watchdog demands a halt in normal mode.
    assert!(state.multi_winch_watchdog_should_halt(&config, 1000));
    let status = status_with(0, 0, 1, 1);
    let _ = state.winch_control_loop(&config, 0, &status, 1000);
    assert!(!state.multi_winch_watchdog_should_halt(&config, 1200));
    // Past the 500 ms deadline it trips again.
    assert!(state.multi_winch_watchdog_should_halt(&config, 1600));
}

#[test]
fn scheduler_applies_saved_scheme_on_crossing() {
    let mut config = control_test_config();
    let mut evening = config.lighting.current;
    evening.brightness = M / 2;
    config
        .lighting
        .saved
        .push((String::from("evening"), evening));
    // 19:00:00 as seconds past midnight.
    config.lighting.schedule.push((68_400, String::from("evening")));

    // An interval that does not cross the instant changes nothing.
    let before = DailyPollInterval { from: 68_000, to: 68_300 };
    let mut probe = config.clone();
    assert!(!before.poll_config_changes(&mut probe));
    assert_eq!(probe.lighting.current.brightness, M);

    // Crossing the instant makes the saved scheme current.
    let crossing = DailyPollInterval { from: 68_399, to: 68_401 };
    assert!(crossing.poll_config_changes(&mut config));
    assert_eq!(config.lighting.current.brightness, M / 2);

    // The wrap-around interval spans midnight.
    let wrap = DailyPollInterval { from: 86_000, to: 400 };
    assert!(wrap.contains(86_300));
    assert!(wrap.contains(100));
    assert!(!wrap.contains(43_200));
}

#[test]
fn snap_picks_best_qualifying_detection() {
    let mut config = control_test_config();
    config.mode = ControllerMode::Normal;
    let mut state = ControllerState::new(&config);
    let det = CameraDetectedObjects {
        frame: 7,
        detector_nsec: 0,
        objects: vec![
            // Qualifies, but a later detection is more probable.
            CameraDetectedObject {
                rect: [0, 0, M / 2, M / 2],
                prob: 3 * M / 4,
                label: String::from("person"),
            },
            // Wrong label.
            CameraDetectedObject {
                rect: [0, 0, M / 2, M / 2],
                prob: 9 * M / 10,
                label: String::from("cat"),
            },
            // The best qualifying detection.
            CameraDetectedObject {
                rect: [M / 4, M / 4, M / 2, M / 2],
                prob: 4 * M / 5,
                label: String::from("person"),
            },
            // Too small an area.
            CameraDetectedObject {
                rect: [0, 0, M / 100, M / 100],
                prob: M,
                label: String::from("person"),
            },
        ],
    };
    state.camera_object_detection_update(det, 1000);
    let best = state.find_best_snap_object(&config, 1100).expect("a detection qualifies");
    assert_eq!(best.prob, 4 * M / 5);
    assert_eq!(best.label, "person");

    // The snap adopts the detection's rectangle and clears the pending flag.
    let adopted = state.tracking_update(&config, 4000, false, 1100).expect("snap fires");
    assert_eq!(adopted, [M / 4, M / 4, M / 2, M / 2]);
    assert!(!state.pending_snap);
    assert_eq!(state.tracked_region.frame, 7);

    // Stale detections no longer snap.
    state.pending_snap = true;
    assert!(state.find_best_snap_object(&config, 5000).is_none());
}

#[test]
fn winch_lighting_follows_mode_and_mech_status() {
    let mut config = control_test_config();
    config.mode = ControllerMode::Normal;
    let mut state = ControllerState::new(&config);
    let status = status_with(0, 0, 1, 1);
    let _ = state.winch_control_loop(&config, 0, &status, 10);
    let lighting = state.winch_lighting(&config);
    assert_eq!(lighting.len(), 1);
    assert_eq!(lighting[0].base_color, config.lighting.current.winch.normal_color);

    // A stuck winch lights the error colour and flashes the stuck colour.
    let stuck = status_with(0, 5 * M, 1, 2);
    let _ = state.winch_control_loop(&config, 0, &stuck, 20);
    let lighting = state.winch_lighting(&config);
    assert_eq!(lighting[0].base_color, config.lighting.current.winch.error_color);
    assert_eq!(lighting[0].flash_color, config.lighting.current.winch.stuck_color);
}


#[test]
fn gimbal_tick_pauses_on_stale_inputs() {
    let config = control_test_config();
    let mut gc = GimbalController::new();
    let mut port = GimbalPort::new();
    let region = bot_controller::message::CameraTrackedRegion::new();

    // Nothing is cached yet: the tick sends zero rates and asks for data.
    let status = gc.tick(&config, &mut port, &region, 1000);
    assert_eq!(status.rates, [0, 0]);
    assert!(!port.requests.is_empty());
    // The zero rate still goes out as the one two-axis write.
    assert_eq!(port.writes.len(), 2);
    assert_eq!(port.writes[0].value, 0);
    assert_eq!(port.writes[1].value, 0);
}

#[test]
fn gimbal_tick_runs_stages_on_fresh_inputs() {
    let config = control_test_config();
    let mut gc = GimbalController::new();
    let mut port = GimbalPort::new();
    let region = bot_controller::message::CameraTrackedRegion::new();

    // Fill every slot the tick consults.
    let mut feed = |index: u8, tgt: u8, value: i16| {
        gc.value_received(
            GimbalValueData { addr: GimbalValueAddress { target: tgt, index }, value },
            1000,
        );
    };
    feed(values::SUPPLY_VOLTAGE, target::IMU_ADJACENT, 120);
    feed(values::CALIBRATION_ANGLE_0_CENTER, target::YAW, 100);
    feed(values::CALIBRATION_ANGLE_0_CENTER, target::PITCH, 200);
    feed(values::ENCODER_ANGLE, target::YAW, 130);
    feed(values::ENCODER_ANGLE, target::PITCH, 150);
    for tgt in [target::YAW, target::ROLL, target::PITCH] {
        feed(values::MOTOR_FILTERED_CURRENT, tgt, 7);
        feed(values::MOTOR_STATUS_FLAGS, tgt, 4);
    }

    let status = gc.tick(&config, &mut port, &region, 1100);
    // Angles are the centred difference of encoder and calibration.
    assert_eq!(status.angles, [30, -50]);
    // Diagnostics come straight off the cache.
    assert_eq!(status.supply_voltage, 12_000_000);
    assert_eq!(status.current, [7, 7, 7]);
    assert_eq!(status.motor_power, [true, true, true]);
    // With the region at the border's centre, tracking asks for nothing,
    // so both axes latch a hold at the current angles.
    assert_eq!(status.hold_active, [true, true]);
    assert_eq!(status.hold_angles, [30, -50]);
}
