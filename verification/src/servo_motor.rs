//! Servo motor driven by the LED PWM controller.
use vstd::prelude::*;

verus! {

/// Errors of the servo motor driver.
#[derive(Clone, Copy, PartialEq, Eq, Structural, Debug)]
pub enum ServoMotorError {
    AngleOverflow,
    DriverInit,
    MotorDrive,
}

} // verus!
