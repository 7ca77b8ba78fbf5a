//! The typed messages carried on the controller's bus, and the sensor and
//! command records exchanged with the winch firmware.
//!
//! Firmware quantities that the hardware reports as floating point are
//! carried as fixed-point micro-units (see `units`); raw counters and
//! encoder counts stay integers.  Timestamps are milliseconds on a
//! monotonic clock.

use vstd::prelude::*;

use crate::config::{Config, ControllerMode};
use crate::gimbal_framing::GimbalPacket;
use crate::merge::Value;

verus! {

/// Controller loop rate, ticks per second.
pub const TICK_HZ: u32 = 250;

/// One manual-control input axis.
#[derive(Debug, PartialEq, Eq, Structural, Clone, Copy, Hash)]
pub enum ManualControlAxis {
    CameraYaw,
    CameraPitch,
    RelativeX,
    RelativeY,
    RelativeZ,
}

/// Radar telemetry from the flyer.
#[derive(Debug, PartialEq, Eq, Structural, Clone, Copy)]
pub struct XBandTelemetry {
    pub edge_count: u32,
    pub speed_measure: u32,
    pub measure_count: u32,
}

/// Number of rangefinders on the flyer.
pub const NUM_LIDAR_SENSORS: usize = 4;

/// Rangefinder telemetry from the flyer.
#[derive(Debug, PartialEq, Clone, Copy)]
pub struct LIDARTelemetry {
    pub ranges: [u32; 4],
    pub counters: [u32; 4],
}

/// Number of analog channels on the flyer.
pub const NUM_ANALOG_SENSORS: usize = 8;

/// Analog channel telemetry from the flyer.
#[derive(Debug, PartialEq, Clone, Copy)]
pub struct AnalogTelemetry {
    pub values: [u32; 8],
    pub counter: u32,
}

/// Inertial measurement unit telemetry from the flyer.
#[derive(Debug, PartialEq, Clone, Copy)]
pub struct IMUTelemetry {
    pub accelerometer: [i16; 3],
    pub magnetometer: [i16; 3],
    pub gyroscope: [i16; 3],
    pub euler_angles: [i16; 3],
    pub quaternion: [i16; 4],
    pub linear_accel: [i16; 3],
    pub gravity: [i16; 3],
    pub temperature: i8,
    pub calib_stat: i8,
    pub counter: u32,
}

/// Everything the flyer reports in one datagram.
#[derive(Debug, PartialEq, Clone, Copy)]
pub struct FlyerSensors {
    pub xband: XBandTelemetry,
    pub lidar: LIDARTelemetry,
    pub analog: AnalogTelemetry,
    pub imu: IMUTelemetry,
}

/// One slot of a gimbal target's value table.
#[derive(Debug, PartialEq, Eq, Structural, Clone, Copy)]
pub struct GimbalValueAddress {
    pub target: u8,
    pub index: u8,
}

/// A 16-bit value read from or written to a gimbal value slot.
#[derive(Debug, PartialEq, Eq, Structural, Clone, Copy)]
pub struct GimbalValueData {
    pub addr: GimbalValueAddress,
    pub value: i16,
}

/// How long a read request stays live.
#[derive(Debug, PartialEq, Eq, Structural, Clone, Copy)]
pub enum GimbalRequestScope {
    Once,
    Continuous,
}

/// A request to read one gimbal value slot.
#[derive(Debug, PartialEq, Eq, Structural, Clone, Copy)]
pub struct GimbalValueRequest {
    pub addr: GimbalValueAddress,
    pub scope: GimbalRequestScope,
}

/// Whether a reported gimbal value came from a read or closed a write.
#[derive(Debug, PartialEq, Eq, Structural, Clone, Copy)]
pub enum GimbalValueOp {
    ReadComplete,
    WriteComplete,
}

/// Force telemetry from one winch, raw sensor units.
#[derive(Debug, PartialEq, Eq, Structural, Clone, Copy)]
pub struct ForceTelemetry {
    /// Uncalibrated measure; positive reads as increasing tension.
    pub measure: i32,
    /// The same units, low-pass filtered before limit testing; micro-counts.
    pub filtered: i64,
    pub counter: u32,
}

/// Force limits sent to a winch, raw sensor units in micro-counts.
#[derive(Debug, PartialEq, Eq, Structural, Clone, Copy)]
pub struct ForceCommand {
    /// IIR filter parameter in `[0, MICRO]`; 0 is slow, MICRO is fast.
    pub filter_param: i64,
    /// No negative motion below this filtered force.
    pub neg_motion_min: i64,
    /// No positive motion above this filtered force.
    pub pos_motion_max: i64,
    /// No motion at all below this filtered force.
    pub lockout_below: i64,
    /// No motion at all above this filtered force.
    pub lockout_above: i64,
}

/// PID gains sent to a winch, micro-units.
#[derive(Debug, PartialEq, Eq, Structural, Clone, Copy)]
pub struct PIDGains {
    pub gain_p: i64,
    pub gain_i: i64,
    pub gain_d: i64,
    pub p_filter_param: i64,
    pub i_decay_param: i64,
    pub d_filter_param: i64,
}

/// The firmware's stop tolerance.
#[derive(Debug, PartialEq, Eq, Structural, Clone, Copy)]
pub struct WinchDeadband {
    /// How close is close enough when stopped, position counts.
    pub position: i32,
    /// "Stopped" means under this instantaneous velocity, micro-counts/s.
    pub velocity: i64,
}

/// PWM carrier configuration sent to a winch, micro-units.
#[derive(Debug, PartialEq, Eq, Structural, Clone, Copy)]
pub struct WinchPWMCommand {
    pub hz: i64,
    pub bias: i64,
    pub minimum: i64,
}

/// One complete command to a winch.
#[derive(Debug, PartialEq, Eq, Structural, Clone, Copy)]
pub struct WinchCommand {
    /// Commanded position, encoder counts.
    pub position: i32,
    pub force: ForceCommand,
    pub pid: PIDGains,
    pub deadband: WinchDeadband,
    pub pwm: WinchPWMCommand,
}

/// Position and force sensing from one winch.
#[derive(Debug, PartialEq, Eq, Structural, Clone, Copy)]
pub struct WinchSensors {
    pub force: ForceTelemetry,
    /// Integrated position in encoder counts, from hardware.
    pub position: i32,
    /// Instantaneous velocity, micro-counts per second.
    pub velocity: i64,
}

/// PWM state reported by a winch, micro-units.
#[derive(Debug, PartialEq, Eq, Structural, Clone, Copy)]
pub struct WinchPWM {
    pub total: i64,
    pub p: i64,
    pub i: i64,
    pub d: i64,
    /// PWM after quantizing into clock ticks.
    pub quant: i16,
    /// Whether the H-bridge is enabled; halt conditions can clear it.
    pub enabled: i16,
}

/// Motor-control state reported by a winch.
#[derive(Debug, PartialEq, Eq, Structural, Clone, Copy)]
pub struct WinchMotorControl {
    pub pwm: WinchPWM,
    /// Instantaneous position error, counts.
    pub position_err: i32,
    pub pos_err_filtered: i64,
    pub pos_err_integral: i64,
    pub vel_err_inst: i64,
    pub vel_err_filtered: i64,
}

/// One complete status report from a winch.
#[derive(Debug, PartialEq, Eq, Structural, Clone, Copy)]
pub struct WinchStatus {
    pub command_counter: u32,
    pub tick_counter: u32,
    /// Echo of the last command the firmware acted on.
    pub command: WinchCommand,
    pub sensors: WinchSensors,
    pub motor: WinchMotorControl,
}

/// A tracked region reported by the vision pipeline, camera coordinates in
/// micro-units.
#[derive(Debug, PartialEq, Clone, Copy)]
pub struct CameraTrackedRegion {
    /// Left, top, width, height; horizontal extents read `[-1, 1]`.
    pub rect: [i64; 4],
    /// The previous frame's corresponding rectangle.
    pub previous_rect: [i64; 4],
    /// Peak-to-side ratio: tracking quality, micro-units.
    pub psr: i64,
    /// Frames since the last tracking reset.
    pub age: u32,
    /// Frame serial number of this result.
    pub frame: u32,
    /// Time the tracker spent, nanoseconds.
    pub tracker_nsec: u64,
}

impl CameraTrackedRegion {
    /// An empty region at the origin.
    pub fn new() -> (r: CameraTrackedRegion)
        ensures
            r.rect@ == seq![0i64, 0i64, 0i64, 0i64],
            r.age == 0,
            r.frame == 0,
    {
        CameraTrackedRegion {
            rect: [0, 0, 0, 0],
            previous_rect: [0, 0, 0, 0],
            psr: 0,
            age: 0,
            frame: 0,
            tracker_nsec: 0,
        }
    }

    /// A region with no area tracks nothing.
    pub fn is_empty(&self) -> (r: bool)
        ensures
            r == (self.rect[2] <= 0 || self.rect[3] <= 0),
    {
        self.rect[2] <= 0 || self.rect[3] <= 0
    }
}

/// One detection from the vision pipeline.
#[derive(Debug, PartialEq, Clone)]
pub struct CameraDetectedObject {
    pub rect: [i64; 4],
    /// Detection probability, micro-units.
    pub prob: i64,
    pub label: String,
}

/// A batch of detections for one frame.
#[derive(Debug, PartialEq, Clone)]
pub struct CameraDetectedObjects {
    pub frame: u32,
    pub detector_nsec: u64,
    pub objects: Vec<CameraDetectedObject>,
}

impl CameraDetectedObjects {
    /// An empty batch.
    pub fn new() -> (r: CameraDetectedObjects)
        ensures
            r.objects@.len() == 0,
            r.frame == 0,
    {
        CameraDetectedObjects { frame: 0, detector_nsec: 0, objects: Vec::new() }
    }
}

/// What the gimbal controller decided on one tick, for telemetry and
/// overlay display.  Rates are micro-units; angles are encoder counts.
#[derive(Debug, PartialEq, Clone)]
pub struct GimbalControlStatus {
    pub angles: [i16; 2],
    pub rates: [i16; 2],
    pub tracking_p_rates: [i64; 2],
    pub tracking_i_rates: [i64; 2],
    pub hold_p_rates: [i64; 2],
    pub hold_i_rates: [i64; 2],
    pub hold_angles: [i16; 2],
    pub hold_active: [bool; 2],
    pub yaw_gain_activations: Vec<i64>,
    pub pitch_gain_activations: Vec<i64>,
    /// Whether each axis motor reports power, from the status flags.
    pub motor_power: [bool; 3],
    /// Filtered motor current per axis, raw units.
    pub current: [i16; 3],
    /// Supply voltage, micro-volts.
    pub supply_voltage: i64,
}

/// A command an authenticated client may issue.
#[derive(Debug, PartialEq, Clone)]
pub enum Command {
    SetMode(ControllerMode),
    ManualControlReset,
    /// An axis value in micro-units, clamped to `[-MICRO, MICRO]` on read.
    ManualControlValue(ManualControlAxis, i64),
    CameraObjectDetection(CameraDetectedObjects),
    CameraRegionTracking(CameraTrackedRegion),
    GimbalMotorEnable(bool),
    GimbalPacket(GimbalPacket),
    GimbalValueWrite(GimbalValueData),
    GimbalValueRequests(Vec<GimbalValueRequest>),
}

/// Everything that flows over the controller's bus.
#[derive(Debug, PartialEq, Clone)]
pub enum Message {
    Command(Command),
    FlyerSensors(FlyerSensors),
    WinchStatus(usize, WinchStatus),
    UpdateConfig(Value),
    ConfigIsCurrent(Config),
    GimbalControlStatus(GimbalControlStatus),
    GimbalValue(GimbalValueData, GimbalValueOp),
    UnhandledGimbalPacket(GimbalPacket),
    /// A fresh tracking rectangle for the vision pipeline to adopt.
    CameraInitTrackedRegion([i64; 4]),
}

/// A bus message with the moment it was made, milliseconds on the
/// monotonic clock.
#[derive(Debug, PartialEq, Clone)]
pub struct TimestampedMessage {
    pub timestamp: u64,
    pub message: Message,
}

impl Message {
    /// Stamp this message with the given moment.
    pub fn timestamp(self, now_millis: u64) -> (r: TimestampedMessage)
        ensures
            r.timestamp == now_millis,
            r.message == self,
    {
        TimestampedMessage { timestamp: now_millis, message: self }
    }
}

} // verus!
