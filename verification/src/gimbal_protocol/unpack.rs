//! Readers for the packets the gimbal sends back.

use vstd::prelude::*;

use crate::gimbal_framing::{GimbalFraming, GimbalPacket};
use crate::gimbal_protocol::cmd;
use crate::gimbal_protocol::i16_from_le;
use crate::gimbal_protocol::read_i16_le;

verus! {

/// Why a reply could not be unpacked.
#[derive(Debug, PartialEq, Eq, Structural, Clone, Copy)]
pub enum UnpackError {
    /// The payload is shorter than the value it should carry.
    Truncated,
}

/// The 16-bit value carried by a reply to a value read.  Fails exactly when
/// the payload holds fewer than two bytes.
pub fn get_value(packet: &GimbalPacket) -> (r: Result<i16, UnpackError>)
    requires
        packet@.framing == GimbalFraming::Normal,
        packet@.command == cmd::GET_VALUE,
    ensures
        match r {
            Ok(v) => packet@.data.len() >= 2
                && v as int == i16_from_le(packet@.data[0], packet@.data[1]),
            Err(e) => packet@.data.len() < 2 && e == UnpackError::Truncated,
        },
{
    if packet.data.len() < 2 {
        Err(UnpackError::Truncated)
    } else {
        Ok(read_i16_le(packet.data[0], packet.data[1]))
    }
}

} // verus!
