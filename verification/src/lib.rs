//! Event detection for a two-channel analog sensor pair.
//!
//! The crate holds the decisions of the detector and none of its hardware:
//! a driver reads the channels, the timer and the reset input, hands what it
//! read to [`detector::Detector::step`], and applies the outputs that the step
//! returns.

pub mod sample;
pub mod debounce;
pub mod indicator;
pub mod detector;
pub mod report;
pub mod laws;
