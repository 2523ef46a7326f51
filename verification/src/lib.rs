//! Verified core of a single-axis camera stabilizer: gyroscope register
//! handling and calibration, the shared stabilizer state, and the decisions
//! taken by the control tasks.

pub mod control;
pub mod gyroscope;
pub mod oled_display;
pub mod rotary_encoder;
pub mod servo_motor;
pub mod utils;
pub mod stabilizer_state;
