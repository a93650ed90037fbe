//! The rules of the runtime that a node works with.

pub mod deterministic_rng;
pub mod display_instant;
pub mod watch;
pub mod watch_progress;
