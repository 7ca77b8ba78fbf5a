//! Addressable units on the gimbal: one per axis, plus the host side.

use vstd::prelude::*;

verus! {

pub const YAW: u8 = 0x00;
pub const ROLL: u8 = 0x01;
pub const PITCH: u8 = 0x02;
/// The MCU that sits next to the IMU; physically the pitch axis.
pub const IMU_ADJACENT: u8 = 0x02;
pub const HOST: u8 = 0x03;

} // verus!
