//! Control logic of a line-following robot: the wrap-safe encoder delta,
//! the light-sensor calibration sweep, and the mode state machine.
pub mod encoder;
pub mod sweep;
pub mod status;
pub mod fsm;
pub mod calibration;
