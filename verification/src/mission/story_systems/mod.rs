//! Story mission play: objective tracking, phase changes, failure checks,
//! checkpoint retries, and missions started from triggers and NPCs.

pub mod objective_tracking;
pub mod mission_markers;
pub mod trigger_handler;
