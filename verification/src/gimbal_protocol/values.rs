//! Indices into each axis's table of 16-bit values.

use vstd::prelude::*;

verus! {

pub const CHECKSUM: u8 = 0x00;
pub const MOTOR_ERROR_FLAGS: u8 = 0x01;
pub const MOTOR_STATUS_FLAGS: u8 = 0x02;
pub const CONTROLLER_VELOCITY_INPUT: u8 = 0x03;
/// The slot the controller writes its commanded axis rates to.
pub const CONTROL_RATE: u8 = 0x03;
pub const GYRO_ANGULAR_RATE: u8 = 0x04;
pub const MOTOR_FILTERED_CURRENT_TARGET: u8 = 0x05;
pub const MOTOR_FILTERED_CURRENT: u8 = 0x06;
pub const SUPPLY_VOLTAGE: u8 = 0x07;
pub const FOLLOW_INTEGRATOR: u8 = 0x08;
pub const STABILIZER_VELOCITY_INPUT: u8 = 0x09;
pub const MOTOR_MODE: u8 = 0x18;
pub const MOTOR_ANGLE_OFFSET: u8 = 0x27;
pub const MOTOR_ANGLE: u8 = 0x28;
pub const ENCODER_ANGLE: u8 = 0x2c;
pub const MOTOR_SHUTDOWN_ERROR_FLAGS: u8 = 0x2e;
pub const MOTOR_CURRENT_TARGET: u8 = 0x47;
pub const MOTOR_CURRENT: u8 = 0x48;
pub const FOLLOW_INTEGRATOR_OFFSET: u8 = 0x4b;
pub const FOLLOW_ANGLE_ERROR: u8 = 0x4c;
pub const CALIBRATION_ANGLE_0_CENTER: u8 = 0x4d;
pub const MANUAL_MOTOR_CURRENT_INPUT: u8 = 0x4e;
pub const SIMULATED_ANGLE_OSCILLATOR_RATE: u8 = 0x4f;
pub const MANUAL_MOTOR_VELOCITY_INPUT: u8 = 0x50;
pub const CALIBRATION_GYRO_DRIFT_WAS_SET_AT_STARTUP_FLAG: u8 = 0x58;
pub const CALIBRATION_GYRO_DRIFT_Z: u8 = 0x59;
pub const CALIBRATION_GYRO_DRIFT_X: u8 = 0x5a;
pub const CALIBRATION_GYRO_DRIFT_Y: u8 = 0x5b;
pub const CALIBRATION_ACCEL_OFFSET_Z: u8 = 0x5c;
pub const CALIBRATION_ACCEL_OFFSET_X: u8 = 0x5d;
pub const CALIBRATION_ACCEL_OFFSET_Y: u8 = 0x5e;
pub const FOLLOW_ENABLE_FLAG: u8 = 0x63;
pub const CALIBRATION_ANGLE_1_MOTOR: u8 = 0x64;
pub const FOLLOW_RATE: u8 = 0x65;
pub const JOYSTICK_MODE: u8 = 0x66;
pub const IMU_TYPE: u8 = 0x69;
pub const MOTOR_CURRENT_ADC1: u8 = 0x6f;
pub const MOTOR_CURRENT_ADC2: u8 = 0x70;
pub const FIRMWARE_VERSION: u8 = 0x7f;

} // verus!
