//! Core logic of a small differential-drive vehicle that follows a path using
//! positional feedback from a serial vision sensor.
//!
//! The crate covers the sensor-to-actuation pipeline: synchronizing on a noisy
//! byte-oriented telemetry feed, decoding a positional-error record, running a
//! PID controller over it, and translating the result into per-motor commands
//! with a range-based safety interlock. It also contains the register-level
//! logic of an inductance-to-digital converter driver. Hardware collaborators
//! (serial port, motors, I2C bus, display) stay outside: callers feed bytes in
//! and carry commands out.

pub mod cycle;
pub mod decode;
pub mod drive;
pub mod fault;
pub mod frame;
pub mod ldc;
pub mod pid;
