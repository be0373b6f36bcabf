//! Identifiers, positions and mission states.
use vstd::prelude::*;

verus! {

/// Story mission identifier.
pub type StoryMissionId = u32;

/// Dialogue tree identifier.
pub type DialogueId = u32;

/// Cutscene identifier.
pub type CutsceneId = u32;

/// NPC identifier.
pub type NpcId = u32;

/// Area identifier.
pub type AreaId = u32;

/// A point in the world, in centimetres.
#[derive(Clone, Copy, Debug, PartialEq, Eq, Structural)]
pub struct Position {
    pub x: i64,
    pub y: i64,
    pub z: i64,
}

impl Position {
    /// The point `(x, y, z)`.
    pub fn new(x: i64, y: i64, z: i64) -> (p: Position)
        ensures
            p.x == x && p.y == y && p.z == z,
    {
        Position { x, y, z }
    }
}

/// Where a story mission stands for the player.
#[derive(Clone, Copy, Debug, PartialEq, Eq, Structural)]
pub enum StoryMissionStatus {
    /// Not unlocked yet.
    Locked,
    /// Can be started.
    Available,
    /// Being played.
    InProgress,
    /// Done.
    Completed,
    /// Failed (can be retried).
    Failed,
}

impl Default for StoryMissionStatus {
    fn default() -> (s: StoryMissionStatus)
        ensures
            s == StoryMissionStatus::Locked,
    {
        StoryMissionStatus::Locked
    }
}

/// Kind of a story mission or phase.
#[derive(Clone, Copy, Debug, PartialEq, Eq, Structural)]
pub enum StoryMissionType {
    /// Kill a given target.
    Assassination,
    /// Kill every enemy.
    Elimination,
    /// Protect a place or a person.
    Defend,
    /// Catch and stop a target.
    Chase,
    /// Shake off pursuers.
    Escape,
    /// Bring an NPC to a destination.
    Escort,
    /// Protect vehicles.
    Convoy,
    /// Finish without being seen.
    Stealth,
    /// Get into an enemy base.
    Infiltrate,
    /// Fetch an item.
    Retrieve,
    /// Destroy a target.
    Sabotage,
    /// Cutscene only.
    Cutscene,
    /// Talking.
    Dialogue,
}

impl Default for StoryMissionType {
    fn default() -> (t: StoryMissionType)
        ensures
            t == StoryMissionType::Dialogue,
    {
        StoryMissionType::Dialogue
    }
}

} // verus!
