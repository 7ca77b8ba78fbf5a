//! LED output: the per-winch lighting state the controller publishes, and
//! the APA102 pixel encoding.
//!
//! Colours are fixed-point micro-units per channel in `[0, MICRO]`.  The
//! APA102 frame carries a 5-bit global brightness taken from the colour's
//! Euclidean magnitude, and the red channel is forced to at least one when
//! any green or blue is lit, since a zero red turns these pixels off
//! entirely.

use vstd::prelude::*;

use crate::config::LightingScheme;
use crate::units::{clamp_i64, isqrt_u128, sqrt_floor, MICRO};
use crate::winch::{clamp_spec, round_to_unit_spec};

verus! {

/// What one winch's LEDs should show.
#[derive(Debug, PartialEq, Clone, Copy)]
pub struct WinchLighting {
    /// Wave phase driven by commanded motion, micro-radians.
    pub command_phase: i64,
    /// Wave phase driven by observed motion, micro-radians.
    pub motion_phase: i64,
    /// Wave amplitude, micro-units.
    pub wave_amplitude: i64,
    /// Base colour, micro-units per channel.
    pub base_color: [i64; 3],
    /// Colour blended in by the flash envelope.
    pub flash_color: [i64; 3],
}

/// Everything the LED animator needs for one frame.
#[derive(Debug, PartialEq, Clone)]
pub struct LightEnvironment {
    pub config: LightingScheme,
    pub winches: Vec<WinchLighting>,
    pub ring_color: [i64; 3],
    /// Camera yaw, micro-radians.
    pub camera_yaw_angle: i64,
    pub is_streaming: bool,
    pub is_recording: bool,
}

/// One APA102 pixel, in wire order.
#[derive(Debug, PartialEq, Eq, Structural, Clone, Copy)]
pub struct APA102Pixel {
    pub header: u8,
    pub g: u8,
    pub b: u8,
    pub r: u8,
}

/// A colour channel scaled to a byte: `round(255 * c)`, clamped between
/// `floor` and 255.
pub open spec fn channel_byte_spec(c: int, floor: int) -> int {
    clamp_spec(round_to_unit_spec(c * 255), floor, 255)
}

/// The APA102 header byte: `0xE0` plus the brightness magnitude scaled to
/// five bits, clamped to `[1, 31]`.
pub open spec fn header_byte_spec(brightness: int) -> int {
    0xe0 + clamp_spec(round_to_unit_spec(brightness * 31), 1, 31)
}

impl APA102Pixel {
    /// Append the pixel's four wire bytes.
    pub fn push_to_vec(&self, vec: &mut Vec<u8>)
        ensures
            final(vec)@ == old(vec)@ + seq![self.header, self.g, self.b, self.r],
    {
        vec.push(self.header);
        vec.push(self.g);
        vec.push(self.b);
        vec.push(self.r);
        proof {
            assert(vec@ =~= old(vec)@ + seq![self.header, self.g, self.b, self.r]);
        }
    }

    /// Encode a colour: out-of-range channels clamp to one full unit,
    /// global brightness comes from the colour's Euclidean magnitude,
    /// bytes from the channels, red held at one whenever green or blue is
    /// lit.
    pub fn from_color(raw: [i64; 3]) -> (r: APA102Pixel)
        ensures
            ({
                let color = [
                    clamp_spec(raw[0] as int, 0, MICRO as int) as i64,
                    clamp_spec(raw[1] as int, 0, MICRO as int) as i64,
                    clamp_spec(raw[2] as int, 0, MICRO as int) as i64,
                ];
                let brightness = sqrt_floor(
                    color[0] * color[0] + color[1] * color[1] + color[2] * color[2],
                );
                let red_floor: int = if color[1] > 0 || color[2] > 0 {
                    1
                } else {
                    0
                };
                &&& r.header == header_byte_spec(brightness)
                &&& r.r == channel_byte_spec(color[0] as int, red_floor)
                &&& r.g == channel_byte_spec(color[1] as int, 0)
                &&& r.b == channel_byte_spec(color[2] as int, 0)
            }),
    {
        let color: [i64; 3] = [
            clamp_i64(raw[0], 0, MICRO),
            clamp_i64(raw[1], 0, MICRO),
            clamp_i64(raw[2], 0, MICRO),
        ];
        proof {
            assert(color[0] == color@[0] && color[1] == color@[1] && color[2] == color@[2]);
            assert(raw[0] == raw@[0] && raw[1] == raw@[1] && raw[2] == raw@[2]);
            assert(color[0] * color[0] >= 0 && color[0] * color[0] <= 1_000_000_000_000) by (
            nonlinear_arith)
                requires
                    0 <= color[0] <= MICRO,
                    MICRO == 1_000_000,
            ;
            assert(color[1] * color[1] >= 0 && color[1] * color[1] <= 1_000_000_000_000) by (
            nonlinear_arith)
                requires
                    0 <= color[1] <= MICRO,
                    MICRO == 1_000_000,
            ;
            assert(color[2] * color[2] >= 0 && color[2] * color[2] <= 1_000_000_000_000) by (
            nonlinear_arith)
                requires
                    0 <= color[2] <= MICRO,
                    MICRO == 1_000_000,
            ;
        }
        let sq: u128 = (color[0] as i128 * color[0] as i128) as u128 + (color[1] as i128 * color[1]
            as i128) as u128 + (color[2] as i128 * color[2] as i128) as u128;
        let brightness128 = isqrt_u128(sq);
        proof {
            assert(brightness128 <= 2_000_000) by (nonlinear_arith)
                requires
                    (brightness128 as int) * (brightness128 as int) <= sq,
                    sq <= 3_000_000_000_000,
                    brightness128 >= 0,
            ;
        }
        let brightness = brightness128 as i64;
        let header_val = clamp_i64(crate::winch::round_to_unit(brightness * 31), 1, 31);
        let red_floor: i64 = if color[1] > 0 || color[2] > 0 {
            1
        } else {
            0
        };
        let rr = clamp_i64(crate::winch::round_to_unit(color[0] * 255), red_floor, 255);
        let gg = clamp_i64(crate::winch::round_to_unit(color[1] * 255), 0, 255);
        let bb = clamp_i64(crate::winch::round_to_unit(color[2] * 255), 0, 255);
        APA102Pixel {
            header: (0xe0 + header_val) as u8,
            g: gg as u8,
            b: bb as u8,
            r: rr as u8,
        }
    }
}

} // verus!
