//! Story mission data: states, objectives, conditions, phases, rewards,
//! mission definitions and performance ratings.

pub mod types;
pub mod objectives;
pub mod conditions;
pub mod phases;
pub mod rewards;
pub mod mission;
pub mod performance;
