//! Which mission trigger markers stand in the world: one for each available
//! mission with a trigger location, removed once the mission starts or is
//! completed.
use vstd::prelude::*;
use crate::mission::story_data::types::{Position, StoryMissionId, StoryMissionStatus};
use crate::mission::story_manager::{status_in, StoryMissionDatabase, StoryMissionEvent, StoryMissionManager};

verus! {

/// A marker to put up for a mission.
#[derive(Clone, Debug)]
pub struct MarkerToSpawn {
    pub mission_id: StoryMissionId,
    pub position: Position,
    /// Trigger radius, in centimetres.
    pub radius: u32,
    pub title: String,
}

/// What to change among the mission markers.
#[derive(Debug)]
pub struct MarkerPlan {
    /// Marker entities to remove.
    pub despawn: Vec<u64>,
    /// Markers to put up.
    pub spawn: Vec<MarkerToSpawn>,
}

/// The mission an event starts or completes, if any.
pub open spec fn ended_marker(e: StoryMissionEvent) -> Option<StoryMissionId> {
    match e {
        StoryMissionEvent::Started(id) => Some(id),
        StoryMissionEvent::Completed { mission_id, .. } => Some(mission_id),
        _ => None,
    }
}

/// Some event of the list starts or completes the mission.
pub open spec fn marker_ended(events: Seq<StoryMissionEvent>, id: StoryMissionId) -> bool {
    exists|i: int| 0 <= i < events.len() && ended_marker(#[trigger] events[i]) == Some(id)
}

/// The marker entities among the first `n` existing ones whose mission an
/// event starts or completes, in order.
pub open spec fn markers_to_remove(
    existing: Seq<(u64, StoryMissionId)>,
    events: Seq<StoryMissionEvent>,
    n: int,
) -> Seq<u64>
    decreases n,
{
    if n <= 0 {
        Seq::empty()
    } else {
        let rest = markers_to_remove(existing, events, n - 1);
        if marker_ended(events, existing[n - 1].1) {
            rest.push(existing[n - 1].0)
        } else {
            rest
        }
    }
}

/// A marker already stands for the mission.
pub open spec fn has_marker(existing: Seq<(u64, StoryMissionId)>, id: StoryMissionId) -> bool {
    exists|i: int| 0 <= i < existing.len() && (#[trigger] existing[i]).1 == id
}

/// A new marker is owed to the mission: it is available, has a trigger
/// location and has no marker yet.
pub open spec fn marker_owed(
    m: &StoryMissionManager,
    missions: Map<StoryMissionId, crate::mission::story_data::mission::StoryMission>,
    existing: Seq<(u64, StoryMissionId)>,
    id: StoryMissionId,
) -> bool {
    &&& status_in(m.mission_states@, id) == StoryMissionStatus::Available
    &&& missions.contains_key(id)
    &&& missions[id].trigger_location is Some
    &&& !has_marker(existing, id)
}

fn ends_marker(events: &Vec<StoryMissionEvent>, id: StoryMissionId) -> (b: bool)
    ensures
        b == marker_ended(events@, id),
{
    let mut i: usize = 0;
    while i < events.len()
        invariant
            0 <= i <= events@.len(),
            forall|j: int| 0 <= j < i ==> ended_marker(#[trigger] events@[j]) != Some(id),
        decreases events.len() - i,
    {
        let hit = match &events[i] {
            StoryMissionEvent::Started(m) => *m == id,
            StoryMissionEvent::Completed { mission_id, .. } => *mission_id == id,
            _ => false,
        };
        if hit {
            return true;
        }
        i = i + 1;
    }
    false
}

fn marker_exists(existing: &Vec<(u64, StoryMissionId)>, id: StoryMissionId) -> (b: bool)
    ensures
        b == has_marker(existing@, id),
{
    let mut i: usize = 0;
    while i < existing.len()
        invariant
            0 <= i <= existing@.len(),
            forall|j: int| 0 <= j < i ==> (#[trigger] existing@[j]).1 != id,
        decreases existing.len() - i,
    {
        if existing[i].1 == id {
            return true;
        }
        i = i + 1;
    }
    false
}

/// Plans the mission markers for this frame, given the mission events of
/// the frame and the markers standing (entity, mission): markers of
/// missions that started or completed go, and every mission that is owed a
/// marker (see `marker_owed`) gets one, once, at its trigger location with
/// its trigger radius and title.
pub fn spawn_mission_triggers(
    events: &Vec<StoryMissionEvent>,
    existing: &Vec<(u64, StoryMissionId)>,
    manager: &StoryMissionManager,
    database: &StoryMissionDatabase,
) -> (plan: MarkerPlan)
    ensures
        plan.despawn@ == markers_to_remove(existing@, events@, existing@.len() as int),
        forall|i: int, j: int|
            0 <= i < j < plan.spawn@.len() ==> (#[trigger] plan.spawn@[i]).mission_id != (#[trigger] plan.spawn@[j]).mission_id,
        forall|id: StoryMissionId|
            marker_owed(manager, database.missions@, existing@, id) <==> exists|i: int|
                0 <= i < plan.spawn@.len() && (#[trigger] plan.spawn@[i]).mission_id == id,
        forall|i: int|
            0 <= i < plan.spawn@.len() ==> {
                let s = #[trigger] plan.spawn@[i];
                let m = database.missions@[s.mission_id];
                &&& s.position == m.trigger_location->0
                &&& s.radius == m.trigger_radius
                &&& s.title@ == m.title@
            },
{
    let mut despawn: Vec<u64> = Vec::new();
    let mut i: usize = 0;
    while i < existing.len()
        invariant
            0 <= i <= existing@.len(),
            despawn@ == markers_to_remove(existing@, events@, i as int),
        decreases existing.len() - i,
    {
        if ends_marker(events, existing[i].1) {
            despawn.push(existing[i].0);
        }
        i = i + 1;
    }
    let available = manager.get_available_missions();
    let mut spawn: Vec<MarkerToSpawn> = Vec::new();
    let mut k: usize = 0;
    while k < available.len()
        invariant
            0 <= k <= available@.len(),
            available@.no_duplicates(),
            forall|id: StoryMissionId| available@.contains(id) <==> status_in(manager.mission_states@, id)
                == StoryMissionStatus::Available,
            forall|a: int, b: int|
                0 <= a < b < spawn@.len() ==> (#[trigger] spawn@[a]).mission_id != (#[trigger] spawn@[b]).mission_id,
            forall|a: int|
                0 <= a < spawn@.len() ==> exists|j: int| 0 <= j < k && available@[j] == (#[trigger] spawn@[a]).mission_id,
            forall|j: int|
                0 <= j < k && marker_owed(manager, database.missions@, existing@, #[trigger] available@[j]) ==> exists|a: int|
                    0 <= a < spawn@.len() && (#[trigger] spawn@[a]).mission_id == available@[j],
            forall|a: int| 0 <= a < spawn@.len() ==> marker_owed(manager, database.missions@, existing@, (#[trigger] spawn@[a]).mission_id),
            forall|a: int|
                0 <= a < spawn@.len() ==> {
                    let s = #[trigger] spawn@[a];
                    let m = database.missions@[s.mission_id];
                    &&& s.position == m.trigger_location->0
                    &&& s.radius == m.trigger_radius
                    &&& s.title@ == m.title@
                },
        decreases available.len() - k,
    {
        let id = available[k];
        proof {
            assert(available@.contains(id));
        }
        if !marker_exists(existing, id) {
            match database.get(id) {
                Some(mission) => match mission.trigger_location {
                    Some(position) => {
                        let ghost s0 = spawn@;
                        spawn.push(
                            MarkerToSpawn { mission_id: id, position, radius: mission.trigger_radius, title: mission.title.clone() },
                        );
                        proof {
                            assert forall|a: int| 0 <= a < s0.len() implies (#[trigger] spawn@[a]).mission_id != id by {
                                let j = choose|j: int| 0 <= j < k && available@[j] == s0[a].mission_id;
                                assert(spawn@[a] == s0[a]);
                                assert(available@[j] != available@[k as int]);
                            }
                            assert(spawn@[s0.len() as int].mission_id == available@[k as int]);
                            assert forall|j: int|
                                0 <= j < k + 1 && marker_owed(
                                    manager,
                                    database.missions@,
                                    existing@,
                                    #[trigger] available@[j],
                                ) implies exists|a: int|
                                0 <= a < spawn@.len() && (#[trigger] spawn@[a]).mission_id == available@[j] by {
                                if j < k {
                                    let a = choose|a: int| 0 <= a < s0.len() && (#[trigger] s0[a]).mission_id == available@[j];
                                    assert(spawn@[a] == s0[a]);
                                } else {
                                    assert(spawn@[s0.len() as int].mission_id == available@[j]);
                                }
                            }
                        }
                    },
                    None => {},
                },
                None => {},
            }
        }
        k = k + 1;
    }
    proof {
        assert forall|id: StoryMissionId| marker_owed(manager, database.missions@, existing@, id) implies exists|a: int|
            0 <= a < spawn@.len() && (#[trigger] spawn@[a]).mission_id == id by {
            assert(available@.contains(id));
            let j = choose|j: int| 0 <= j < available@.len() && available@[j] == id;
            assert(marker_owed(manager, database.missions@, existing@, available@[j]));
        }
    }
    MarkerPlan { despawn, spawn }
}

} // verus!
