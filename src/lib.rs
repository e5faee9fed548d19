//! Download throughput measurement: the rate formula, the per-probe progress
//! aggregator with its transfer deadline, the one-slot chunk handoff between
//! producer and consumer, the decisions of a single download probe, parsing of
//! target lists, and the ordering and formatting of results.

pub mod rate;
pub mod outcome;
pub mod progress;
pub mod handoff;
pub mod probe;
pub mod report;
pub mod targets;
