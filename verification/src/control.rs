//! Decisions of the control tasks: what a button press asks for, and the
//! threshold that the rotary encoder's count selects.
use vstd::prelude::*;
use crate::gyroscope::GyroAxis;

verus! {

/// Presses longer than this many milliseconds move the anchor.
pub const LONG_PRESS_MS: u128 = 1000;

/// Presses longer than this many milliseconds (and not long) toggle the freeze.
pub const SHORT_PRESS_MS: u128 = 100;

/// What the push button asks of the stabilizer after one press.
#[derive(PartialEq, Eq, Structural, Clone, Copy, Debug)]
pub enum ButtonAction {
    SetAnchor,
    ToggleFreeze,
    Ignore,
}

/// The action that a press held for `duration_ms` milliseconds asks for.
pub open spec fn spec_press_action(duration_ms: u128) -> ButtonAction {
    if duration_ms > LONG_PRESS_MS {
        ButtonAction::SetAnchor
    } else if duration_ms > SHORT_PRESS_MS {
        ButtonAction::ToggleFreeze
    } else {
        ButtonAction::Ignore
    }
}

/// How a press is classified: held longer than a second it moves the
/// anchor; held longer than a tenth of a second (and at most a second) it
/// toggles the freeze; held a tenth of a second or less it is a bounce and
/// is ignored.
pub proof fn law_press_thresholds(duration_ms: u128)
    ensures
        duration_ms > 1000 ==> spec_press_action(duration_ms) == ButtonAction::SetAnchor,
        100 < duration_ms <= 1000 ==> spec_press_action(duration_ms) == ButtonAction::ToggleFreeze,
        duration_ms <= 100 ==> spec_press_action(duration_ms) == ButtonAction::Ignore,
{
}

/// A longer press never asks for less: Ignore, then ToggleFreeze, then
/// SetAnchor as the press grows longer.
pub proof fn law_press_monotone(shorter: u128, longer: u128)
    requires
        shorter <= longer,
    ensures
        spec_press_action(shorter) == ButtonAction::SetAnchor ==> spec_press_action(longer) == ButtonAction::SetAnchor,
        spec_press_action(shorter) == ButtonAction::ToggleFreeze ==> spec_press_action(longer) != ButtonAction::Ignore,
{
}

/// Classifies a button press by how long it was held.
pub fn press_action(duration_ms: u128) -> (action: ButtonAction)
    ensures
        action == spec_press_action(duration_ms),
        duration_ms > 1000 ==> action == ButtonAction::SetAnchor,
        100 < duration_ms <= 1000 ==> action == ButtonAction::ToggleFreeze,
        duration_ms <= 100 ==> action == ButtonAction::Ignore,
{
    if duration_ms > LONG_PRESS_MS {
        ButtonAction::SetAnchor
    } else if duration_ms > SHORT_PRESS_MS {
        ButtonAction::ToggleFreeze
    } else {
        ButtonAction::Ignore
    }
}

/// The gyroscope axis whose rotation the stabilizer compensates.
pub const AXIS_OF_INTEREST: GyroAxis = GyroAxis::XAxis;

/// The number of threshold steps that a rotary encoder count selects:
/// the count itself, or none for a negative count.
pub open spec fn spec_threshold_steps(rotary_count: i32) -> int {
    if rotary_count > 0 {
        rotary_count as int
    } else {
        0
    }
}

/// Threshold steps selected by the rotary encoder: the count, never below 0.
pub fn threshold_steps(rotary_count: i32) -> (steps: u32)
    ensures
        steps == spec_threshold_steps(rotary_count),
{
    if rotary_count > 0 {
        rotary_count as u32
    } else {
        0
    }
}

} // verus!
