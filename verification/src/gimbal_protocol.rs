//! Command set of the gimbal serial protocol: the axis targets, the value
//! table indices, and the packers and unpackers for the packets the
//! controller exchanges with the gimbal.

pub mod cmd;
pub mod imu_axis;
pub mod motor_status;
pub mod pack;
pub mod target;
pub mod unpack;
pub mod values;

use vstd::prelude::*;

verus! {

/// Number of controlled axes (yaw, roll, pitch).
pub const NUM_AXES: usize = 3;

/// Size of each axis's table of 16-bit values.
pub const NUM_VALUES: usize = 128;

/// The two little-endian bytes of `x` taken modulo 2^16.
pub open spec fn le16_bytes(x: int) -> Seq<u8> {
    let u = x % 0x10000;
    seq![(u % 256) as u8, (u / 256) as u8]
}

/// The signed 16-bit value with little-endian bytes `lo`, `hi`.
pub open spec fn i16_from_le(lo: u8, hi: u8) -> int {
    let u = lo + 256 * hi;
    if u >= 0x8000 {
        u - 0x10000
    } else {
        u
    }
}

/// Append the two little-endian bytes of a signed 16-bit value.
pub fn push_i16_le(out: &mut Vec<u8>, v: i16)
    ensures
        final(out)@ == old(out)@ + le16_bytes(v as int),
{
    let u: u32 = if v >= 0 {
        v as u32
    } else {
        (v as i32 + 0x10000) as u32
    };
    out.push((u % 256) as u8);
    out.push((u / 256) as u8);
    proof {
        assert(u == v as int % 0x10000);
        assert(out@ =~= old(out)@ + le16_bytes(v as int));
    }
}

/// Read the signed 16-bit value with little-endian bytes `lo`, `hi`.
pub fn read_i16_le(lo: u8, hi: u8) -> (r: i16)
    ensures
        r as int == i16_from_le(lo, hi),
{
    let u: i32 = lo as i32 + 256 * (hi as i32);
    if u >= 0x8000 {
        (u - 0x10000) as i16
    } else {
        u as i16
    }
}

} // verus!
