//! Time-keeping state for a small desk clock: a time-of-day readout, a
//! stopwatch and a countdown timer, shown one at a time under tabs.
//!
//! Durations are whole microseconds (`u64`); the host hands in the time that
//! passed since its previous frame in the same unit.

pub mod app;
pub mod clock;
pub mod stopwatch;
pub mod timer;
pub mod utils;
