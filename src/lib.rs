//! Temperature-to-color control logic for an RGB indicator driven by PWM.
pub mod calibration;
pub mod color;
pub mod control;
pub mod laws;
pub mod sensor;
pub mod synthetic;
