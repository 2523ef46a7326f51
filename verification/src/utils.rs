//! Errors of the stabilizer and the mapping of driver errors onto them.
use vstd::prelude::*;
use crate::gyroscope::GyroError;
use crate::oled_display::OLEDError;
use crate::rotary_encoder::RotaryEncoderError;
use crate::servo_motor::ServoMotorError;

verus! {

/// Replaces the error of a result by an error of this crate.
pub trait ErrorExt<T, E, OE> {
    /// Keeps a success; replaces any error by `suberror`. `context` says
    /// what was being done when the error came.
    fn map_log_error(self, context: &str, suberror: E) -> Result<T, E>;
}

/// What `map_log_error` gives back for `r`.
pub open spec fn spec_map_error<T, E, OE>(r: Result<T, OE>, suberror: E) -> Result<T, E> {
    match r {
        Ok(t) => Ok(t),
        Err(_) => Err(suberror),
    }
}

impl<T, E, OE> ErrorExt<T, E, OE> for Result<T, OE> {
    fn map_log_error(self, context: &str, suberror: E) -> (r: Result<T, E>)
        ensures
            r == spec_map_error(self, suberror),
    {
        match self {
            Ok(t) => Ok(t),
            Err(_) => Err(suberror),
        }
    }
}

/// Any error of the stabilizer.
#[derive(Debug)]
pub enum StabilizerError {
    Gyro(GyroError),
    OLEDDisplay(OLEDError),
    Other,
    RotaryEncoder(RotaryEncoderError),
    ServoMotor(ServoMotorError),
    Task(&'static str),
}

/// Result of the stabilizer's operations.
pub type StabilizerResult<T> = Result<T, StabilizerError>;

impl From<GyroError> for StabilizerError {
    fn from(err: GyroError) -> (r: Self) {
        StabilizerError::Gyro(err)
    }
}

impl vstd::std_specs::convert::FromSpecImpl<GyroError> for StabilizerError {
    open spec fn obeys_from_spec() -> bool {
        true
    }

    open spec fn from_spec(v: GyroError) -> Self {
        StabilizerError::Gyro(v)
    }
}

impl From<OLEDError> for StabilizerError {
    fn from(err: OLEDError) -> (r: Self) {
        StabilizerError::OLEDDisplay(err)
    }
}

impl vstd::std_specs::convert::FromSpecImpl<OLEDError> for StabilizerError {
    open spec fn obeys_from_spec() -> bool {
        true
    }

    open spec fn from_spec(v: OLEDError) -> Self {
        StabilizerError::OLEDDisplay(v)
    }
}

impl From<RotaryEncoderError> for StabilizerError {
    fn from(err: RotaryEncoderError) -> (r: Self) {
        StabilizerError::RotaryEncoder(err)
    }
}

impl vstd::std_specs::convert::FromSpecImpl<RotaryEncoderError> for StabilizerError {
    open spec fn obeys_from_spec() -> bool {
        true
    }

    open spec fn from_spec(v: RotaryEncoderError) -> Self {
        StabilizerError::RotaryEncoder(v)
    }
}

impl From<ServoMotorError> for StabilizerError {
    fn from(err: ServoMotorError) -> (r: Self) {
        StabilizerError::ServoMotor(err)
    }
}

impl vstd::std_specs::convert::FromSpecImpl<ServoMotorError> for StabilizerError {
    open spec fn obeys_from_spec() -> bool {
        true
    }

    open spec fn from_spec(v: ServoMotorError) -> Self {
        StabilizerError::ServoMotor(v)
    }
}

} // verus!
