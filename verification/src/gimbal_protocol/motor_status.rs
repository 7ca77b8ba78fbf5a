//! Bits of the motor status flags value.

use vstd::prelude::*;

verus! {

pub const POWER_ON: i16 = 4;

} // verus!
