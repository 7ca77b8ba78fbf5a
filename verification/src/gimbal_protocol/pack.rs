//! Builders for the packets the controller sends to the gimbal.

use vstd::prelude::*;

use crate::gimbal_framing::{GimbalFraming, GimbalPacket};
use crate::gimbal_protocol::cmd;
use crate::gimbal_protocol::imu_axis;
use crate::gimbal_protocol::le16_bytes;
use crate::gimbal_protocol::push_i16_le;
use crate::gimbal_protocol::target;
use crate::gimbal_protocol::values;

verus! {

/// A read request for one slot of a target's value table.
pub fn get_value(target: u8, index: u8) -> (r: GimbalPacket)
    ensures
        r@.framing == GimbalFraming::Normal,
        r@.command == cmd::GET_VALUE,
        r@.target == target,
        r@.data == seq![index],
{
    let mut data: Vec<u8> = Vec::new();
    data.push(index);
    proof {
        assert(data@ =~= seq![index]);
    }
    GimbalPacket { framing: GimbalFraming::Normal, command: cmd::GET_VALUE, target, data }
}

/// A write to the firmware's accelerometer correction, which keeps an
/// internal floating-point mirror of the calibration slots and therefore
/// needs its own opcode and axis ordering.
pub fn set_accel_correction(axis: u8, value: i16) -> (r: GimbalPacket)
    ensures
        r@.framing == GimbalFraming::Normal,
        r@.command == cmd::SET_ACCEL_CORRECTION,
        r@.target == target::IMU_ADJACENT,
        r@.data == seq![axis] + le16_bytes(value as int),
{
    let mut data: Vec<u8> = Vec::new();
    data.push(axis);
    push_i16_le(&mut data, value);
    proof {
        assert(data@ =~= seq![axis] + le16_bytes(value as int));
    }
    GimbalPacket {
        framing: GimbalFraming::Normal,
        command: cmd::SET_ACCEL_CORRECTION,
        target: target::IMU_ADJACENT,
        data,
    }
}

/// The value-table slots that must go out as an accelerometer correction
/// instead of a plain value write, and the axis byte each one carries.
pub open spec fn accel_correction_axis(target_id: u8, index: u8) -> Option<u8> {
    if target_id == target::IMU_ADJACENT && index == values::CALIBRATION_ACCEL_OFFSET_Z {
        Some(imu_axis::Z)
    } else if target_id == target::IMU_ADJACENT && index == values::CALIBRATION_ACCEL_OFFSET_X {
        Some(imu_axis::X)
    } else if target_id == target::IMU_ADJACENT && index == values::CALIBRATION_ACCEL_OFFSET_Y {
        Some(imu_axis::Y)
    } else {
        None
    }
}

/// A write to one slot of a target's value table.  Writes to the
/// accelerometer-offset slots are rerouted through `set_accel_correction`,
/// which the firmware requires for those slots.
pub fn set_value(target: u8, index: u8, value: i16) -> (r: GimbalPacket)
    ensures
        r@.framing == GimbalFraming::Normal,
        match accel_correction_axis(target, index) {
            Some(axis) => {
                &&& r@.command == cmd::SET_ACCEL_CORRECTION
                &&& r@.target == crate::gimbal_protocol::target::IMU_ADJACENT
                &&& r@.data == seq![axis] + le16_bytes(value as int)
            },
            None => {
                &&& r@.command == cmd::SET_VALUE
                &&& r@.target == target
                &&& r@.data == seq![index, 0u8] + le16_bytes(value as int)
            },
        },
{
    if target == target::IMU_ADJACENT && index == values::CALIBRATION_ACCEL_OFFSET_Z {
        set_accel_correction(imu_axis::Z, value)
    } else if target == target::IMU_ADJACENT && index == values::CALIBRATION_ACCEL_OFFSET_X {
        set_accel_correction(imu_axis::X, value)
    } else if target == target::IMU_ADJACENT && index == values::CALIBRATION_ACCEL_OFFSET_Y {
        set_accel_correction(imu_axis::Y, value)
    } else {
        let mut data: Vec<u8> = Vec::new();
        data.push(index);
        data.push(0);
        push_i16_le(&mut data, value);
        proof {
            assert(data@ =~= seq![index, 0u8] + le16_bytes(value as int));
        }
        GimbalPacket { framing: GimbalFraming::Normal, command: cmd::SET_VALUE, target, data }
    }
}

/// A motor power on/off command for one target.
pub fn motor_power(target: u8, value: u8) -> (r: GimbalPacket)
    ensures
        r@.framing == GimbalFraming::Normal,
        r@.command == cmd::MOTOR_POWER,
        r@.target == target,
        r@.data == seq![value],
{
    let mut data: Vec<u8> = Vec::new();
    data.push(value);
    proof {
        assert(data@ =~= seq![value]);
    }
    GimbalPacket { framing: GimbalFraming::Normal, command: cmd::MOTOR_POWER, target, data }
}

} // verus!
