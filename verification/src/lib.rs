//! Decision logic of a pin-triggered camera: a poll loop that waits for a
//! digital input to read high, captures one numbered image per trigger, and
//! winds down when an operator asks it to stop.
//!
//! The crate performs no I/O. A driver carries out each [`machine::Action`]
//! against the real hardware and reports what happened as a
//! [`machine::Event`]; every decision in between is taken here.
//!
//! - [`machine`] holds the capture loop itself, as a state machine.
//! - [`camera`] holds the lifecycle that the camera handle goes through.
//! - [`naming`] gives every capture its file name.
//! - [`history`] states what holds of every run of the loop, with proofs.

pub mod camera;
pub mod history;
pub mod machine;
pub mod naming;
