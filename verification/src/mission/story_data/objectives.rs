//! Mission objectives: what a phase asks of the player, with a counter.
use vstd::prelude::*;
use crate::mission::story_data::types::Position;

verus! {

/// What an objective asks for.
#[derive(Clone, Debug)]
pub enum ObjectiveType {
    /// Kill the target with this marker.
    KillTarget(String),
    /// Kill this many enemies.
    KillCount(u32),
    /// Reach a place (centre, radius in centimetres).
    ReachLocation(Position, u32),
    /// Pick up an item.
    CollectItem(String),
    /// Escort the NPC with this marker.
    EscortNpc(String),
    /// Follow a target (marker, largest distance in centimetres).
    FollowTarget(String, u32),
    /// Stay alive this long (milliseconds).
    SurviveTime(u64),
    /// Destroy the object with this marker.
    DestroyObject(String),
    /// Stay undetected.
    StayUndetected,
    /// Talk to an NPC.
    TalkToNpc(String),
    /// Get into a vehicle.
    EnterVehicle(String),
    /// Handled by custom code.
    Custom(String),
}

impl ObjectiveType {
    /// An equal copy.
    pub fn duplicate(&self) -> (r: ObjectiveType)
        ensures
            r == *self,
    {
        match self {
            ObjectiveType::KillTarget(s) => ObjectiveType::KillTarget(s.clone()),
            ObjectiveType::KillCount(n) => ObjectiveType::KillCount(*n),
            ObjectiveType::ReachLocation(p, r) => ObjectiveType::ReachLocation(*p, *r),
            ObjectiveType::CollectItem(s) => ObjectiveType::CollectItem(s.clone()),
            ObjectiveType::EscortNpc(s) => ObjectiveType::EscortNpc(s.clone()),
            ObjectiveType::FollowTarget(s, d) => ObjectiveType::FollowTarget(s.clone(), *d),
            ObjectiveType::SurviveTime(t) => ObjectiveType::SurviveTime(*t),
            ObjectiveType::DestroyObject(s) => ObjectiveType::DestroyObject(s.clone()),
            ObjectiveType::StayUndetected => ObjectiveType::StayUndetected,
            ObjectiveType::TalkToNpc(s) => ObjectiveType::TalkToNpc(s.clone()),
            ObjectiveType::EnterVehicle(s) => ObjectiveType::EnterVehicle(s.clone()),
            ObjectiveType::Custom(s) => ObjectiveType::Custom(s.clone()),
        }
    }
}

/// One objective of a mission phase.
#[derive(Clone, Debug)]
pub struct MissionObjective {
    pub id: u32,
    pub objective_type: ObjectiveType,
    pub description: String,
    /// How many times it must be done.
    pub target_count: u32,
    /// How many times it has been done.
    pub current_count: u32,
    /// Optional objectives do not hold back the phase.
    pub is_optional: bool,
    pub is_completed: bool,
}

/// Whether an objective counts as done: marked so, or its count reached.
pub open spec fn objective_done(o: MissionObjective) -> bool {
    o.is_completed || o.current_count >= o.target_count
}

/// The count after one more step: one more, but never past the target.
pub open spec fn incremented_count(current: int, target: int) -> int {
    if current + 1 < target { current + 1 } else { target }
}

/// A fresh required objective with the given id and description, to be
/// done `count` times.
pub open spec fn objective_is(o: MissionObjective, id: u32, description: Seq<char>, count: u32) -> bool {
    &&& o.id == id
    &&& o.description@ == description
    &&& o.target_count == count
    &&& o.current_count == 0
    &&& !o.is_optional
    &&& !o.is_completed
}

/// Talk to the NPC with marker `name`.
pub open spec fn talks_to(t: ObjectiveType, name: Seq<char>) -> bool {
    match t {
        ObjectiveType::TalkToNpc(n) => n@ == name,
        _ => false,
    }
}

/// Pick up the item `name`.
pub open spec fn collects(t: ObjectiveType, name: Seq<char>) -> bool {
    match t {
        ObjectiveType::CollectItem(n) => n@ == name,
        _ => false,
    }
}

/// Kill the target with marker `name`.
pub open spec fn kills_marked(t: ObjectiveType, name: Seq<char>) -> bool {
    match t {
        ObjectiveType::KillTarget(n) => n@ == name,
        _ => false,
    }
}

/// Follow the target with marker `name`, staying within `distance`.
pub open spec fn follows(t: ObjectiveType, name: Seq<char>, distance: u32) -> bool {
    match t {
        ObjectiveType::FollowTarget(n, d) => n@ == name && d == distance,
        _ => false,
    }
}

impl MissionObjective {
    /// A required objective to be done once.
    pub fn new(id: u32, objective_type: ObjectiveType, description: &str) -> (o: MissionObjective)
        ensures
            o.id == id,
            o.objective_type == objective_type,
            o.description@ == description@,
            o.target_count == 1,
            o.current_count == 0,
            !o.is_optional,
            !o.is_completed,
    {
        MissionObjective {
            id,
            objective_type,
            description: description.to_owned(),
            target_count: 1,
            current_count: 0,
            is_optional: false,
            is_completed: false,
        }
    }

    /// Sets how many times it must be done.
    pub fn with_count(self, count: u32) -> (o: MissionObjective)
        ensures
            o == (MissionObjective { target_count: count, ..self }),
    {
        let mut o = self;
        o.target_count = count;
        o
    }

    /// Makes it optional.
    pub fn optional(self) -> (o: MissionObjective)
        ensures
            o == (MissionObjective { is_optional: true, ..self }),
    {
        let mut o = self;
        o.is_optional = true;
        o
    }

    /// Counts one more step, never past the target; reaching the target
    /// marks it done.
    pub fn increment(&mut self)
        requires
            old(self).current_count < u32::MAX,
        ensures
            final(self).current_count == incremented_count(
                old(self).current_count as int,
                old(self).target_count as int,
            ),
            final(self).is_completed == (old(self).is_completed || final(self).current_count
                >= old(self).target_count),
            final(self).id == old(self).id,
            final(self).objective_type == old(self).objective_type,
            final(self).description == old(self).description,
            final(self).target_count == old(self).target_count,
            final(self).is_optional == old(self).is_optional,
    {
        let next = self.current_count + 1;
        self.current_count = if next < self.target_count { next } else { self.target_count };
        if self.current_count >= self.target_count {
            self.is_completed = true;
        }
    }

    /// Whether it is done.
    pub fn check_completion(&self) -> (b: bool)
        ensures
            b == objective_done(*self),
    {
        self.is_completed || self.current_count >= self.target_count
    }

    /// Progress in thousandths (1000 when nothing is asked), rounded down;
    /// above 1000 when the count passed the target.
    pub fn progress(&self) -> (p: u64)
        ensures
            self.target_count == 0 ==> p == 1000,
            self.target_count != 0 ==> p as int == (self.current_count * 1000) as int / self.target_count as int,
    {
        if self.target_count == 0 {
            return 1000;
        }
        (self.current_count as u64 * 1000) / self.target_count as u64
    }

    /// An equal copy.
    pub fn duplicate(&self) -> (r: MissionObjective)
        ensures
            r == *self,
    {
        MissionObjective {
            id: self.id,
            objective_type: self.objective_type.duplicate(),
            description: self.description.clone(),
            target_count: self.target_count,
            current_count: self.current_count,
            is_optional: self.is_optional,
            is_completed: self.is_completed,
        }
    }
}

/// An equal copy of a list of objectives.
pub fn copy_objectives(v: &Vec<MissionObjective>) -> (r: Vec<MissionObjective>)
    ensures
        r@ == v@,
{
    let mut r: Vec<MissionObjective> = Vec::new();
    let mut i: usize = 0;
    while i < v.len()
        invariant
            0 <= i <= v.len(),
            r@ == v@.subrange(0, i as int),
        decreases v.len() - i,
    {
        r.push(v[i].duplicate());
        i = i + 1;
    }
    assert(r@ =~= v@);
    r
}

/// Counting steps one at a time never passes the target, and reaching it
/// marks the objective done.
pub proof fn increment_never_passes_target(current: int, target: int)
    requires
        0 <= current <= target,
    ensures
        current <= incremented_count(current, target) <= target,
        incremented_count(current, target) == target ==> incremented_count(target, target) == target,
        current < target ==> incremented_count(current, target) == current + 1,
{
}

} // verus!
