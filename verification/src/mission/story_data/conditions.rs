//! Why a mission fails, and what a mission needs before it can be played.
use vstd::prelude::*;
use crate::mission::story_data::types::{Position, StoryMissionId};

verus! {

/// What fails a mission phase.
#[derive(Clone, Debug)]
pub enum FailCondition {
    /// The player died.
    PlayerDeath,
    /// The NPC with this marker died.
    NpcDeath(String),
    /// Time ran out.
    TimeExpired,
    /// The vehicle with this marker was destroyed.
    VehicleDestroyed(String),
    /// The player was seen (stealth).
    Detected,
    /// The target got away.
    TargetEscaped,
    /// The player left a zone (centre, radius in centimetres).
    ZoneExit(Position, u32),
    /// The escorted NPC's health fell below this percentage.
    EscortHealthLow(u32),
}

impl FailCondition {
    /// An equal copy.
    pub fn duplicate(&self) -> (r: FailCondition)
        ensures
            r == *self,
    {
        match self {
            FailCondition::PlayerDeath => FailCondition::PlayerDeath,
            FailCondition::NpcDeath(s) => FailCondition::NpcDeath(s.clone()),
            FailCondition::TimeExpired => FailCondition::TimeExpired,
            FailCondition::VehicleDestroyed(s) => FailCondition::VehicleDestroyed(s.clone()),
            FailCondition::Detected => FailCondition::Detected,
            FailCondition::TargetEscaped => FailCondition::TargetEscaped,
            FailCondition::ZoneExit(p, r) => FailCondition::ZoneExit(*p, *r),
            FailCondition::EscortHealthLow(h) => FailCondition::EscortHealthLow(*h),
        }
    }
}

/// What a mission needs before it can be started.
#[derive(Clone, Debug)]
pub enum UnlockCondition {
    /// Another mission completed.
    CompleteMission(StoryMissionId),
    /// At least this chapter reached.
    ChapterReached(u32),
    /// At least this much cash.
    MoneyAmount(u32),
    /// Time of day from the first hour up to the second (hundredths of an
    /// hour); the range may wrap past midnight, and equal ends mean all day.
    TimeOfDay(u32, u32),
    /// A story flag set.
    HasFlag(String),
    /// Always met.
    Unconditional,
}

} // verus!
