//! Verified core of a small board-test firmware: low-active output switches,
//! a bank of storey LEDs with pattern and animation logic, debounced press
//! detection, inter-edge period estimation over a bounded history, and the
//! end-of-line test orchestration.
//!
//! Hardware access, timers and the async executor live outside this crate;
//! every decision the firmware makes (which output to drive, when a press is
//! confirmed, what period to report, how long to wait for the next pattern
//! row) is computed here, as a function from plain values to plain values,
//! and verified.

pub mod debounce;
pub mod eol;
pub mod estimator;
pub mod led;
pub mod playback;
pub mod signal;
pub mod switch;
