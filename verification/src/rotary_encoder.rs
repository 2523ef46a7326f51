//! Rotary encoder read through the pulse counter unit.
use vstd::prelude::*;

verus! {

/// Lowest count of the pulse counter, and its first watch point.
pub const LOW_LIMIT: i32 = -1;

/// Highest count of the pulse counter, and its second watch point.
pub const HIGH_LIMIT: i32 = 361;

/// Errors of the rotary encoder driver.
#[derive(Clone, Copy, PartialEq, Eq, Structural, Debug)]
pub enum RotaryEncoderError {
    ChannelConfig,
    DriverInit,
    GetCount,
    GlitchFilter,
}

} // verus!
