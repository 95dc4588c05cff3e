//! Flight-control core of a quadcopter: sensor calibration, attitude-driven
//! cascaded PID regulation, motor mixing, radio decoding with failsafe, and
//! the coalescing single-slot channels that let fixed-rate tasks share their
//! latest values without locks.
//!
//! All control arithmetic is carried out in fixed-point (millionths of an
//! engineering unit), so every step of the pipeline has an exact contract.

pub mod channel;
pub mod control;
pub mod fx;
pub mod imu;
pub mod motor;
pub mod pid;
pub mod rc;
pub mod sbus;
pub mod telemetry;
