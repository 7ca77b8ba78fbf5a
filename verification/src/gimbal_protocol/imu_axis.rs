//! Axis ordering used by the accelerometer-correction command.

use vstd::prelude::*;

verus! {

pub const Z: u8 = 0x00;
pub const X: u8 = 0x01;
pub const Y: u8 = 0x02;

} // verus!
