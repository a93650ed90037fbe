//! What a node tells of its state.

pub mod raft_metrics;
pub mod report;
pub mod serde_instant;
pub mod wait;

pub use raft_metrics::{RaftDataMetrics, RaftMetrics, RaftServerMetrics};
pub use serde_instant::SerdeInstant;
pub use wait::{Wait, WaitError};
