//! Command opcodes of the gimbal protocol.

use vstd::prelude::*;

verus! {

pub const INTERNAL_MCU2_TO_MCU1: u8 = 0x00;
pub const INTERNAL_JOYSTICK_DATA: u8 = 0x01;
pub const MOTOR_POWER: u8 = 0x03;
pub const CAPTURE_GYRO_DRIFT_COMPENSATION: u8 = 0x04;
pub const SAVE_VALUES: u8 = 0x05;
pub const GET_VALUE: u8 = 0x06;
pub const SET_ACCEL_CORRECTION: u8 = 0x07;
pub const SET_VALUE: u8 = 0x08;
pub const GET_ACCEL_CORRECTIONS: u8 = 0x09;
pub const ATTACH_MCU: u8 = 0x0a;
pub const ATTACH_HOST: u8 = 0x0b;
pub const CAPTURE_CALIBRATION_ANGLE: u8 = 0x0c;
pub const INTERNAL_MCU1_TO_MCU0: u8 = 0x0d;
pub const INTERNAL_JOYSTICK_TOGGLE: u8 = 0x30;

} // verus!
