//! Network interface throughput monitor: counter snapshots, per-interval
//! deltas, a bounded chart history, and the scheduling and shutdown state
//! machines that drive sampling.
pub mod history;
pub mod monitor;
pub mod options;
pub mod reader;
pub mod stats;

pub use stats::{InterfaceInfo, InterfaceInfoItem, InterfaceStat, InterfaceStats};
