//! The mission being played: objectives tracked against the world, kills
//! and talks counted, phase changes and completion, failure checks,
//! checkpoint retries, and what the mission display shows.
use vstd::prelude::*;
use crate::economy::wallet::PlayerWallet;
use crate::mission::advanced_missions::{square_u32, squared_distance};
use crate::mission::data::{distance_squared, position_in_range};
use crate::mission::dialogue::DialogueState;
use crate::mission::dialogue_systems::is_dialogue_active;
use crate::mission::cutscene::CutsceneState;
use crate::mission::cutscene_systems::is_cutscene_active;
use crate::economy::wallet::add_cash_post;
use crate::mission::economy::respect_after;
use crate::mission::unlocks::item_keys;
use crate::mission::economy::RespectManager;
use crate::mission::story_data::conditions::FailCondition;
use crate::mission::story_data::types::{CutsceneId, DialogueId, Position, StoryMissionId, StoryMissionStatus};
use crate::mission::story_data::objectives::{MissionObjective, ObjectiveType, incremented_count};
use crate::mission::story_data::mission::ActiveStoryMission;
use crate::mission::story_data::phases::all_required_done;
use crate::mission::story_manager::{
    StoryMissionDatabase, StoryMissionEvent, StoryMissionManager, completion_recorded, flag_in, keys_of, manager_wf,
    mission_failed, named_in, performance_has_room, retried, same_rewards, status_in,
    unlocked_all,
};
use crate::mission::story_data::objectives::copy_objectives;
use crate::mission::unlocks::{UnlockManager, unlocks_wf};

verus! {

/// Whether an objective counts a kill of `target`: a kill of that target,
/// or any kill for a kill count.
pub open spec fn counts_kill(o: MissionObjective, target: Seq<char>) -> bool {
    match o.objective_type {
        ObjectiveType::KillTarget(id) => id@ == target,
        ObjectiveType::KillCount(n) => true,
        _ => false,
    }
}

/// An objective after one more step (see `MissionObjective::increment`).
pub open spec fn stepped(o: MissionObjective) -> MissionObjective {
    let c = incremented_count(o.current_count as int, o.target_count as int);
    MissionObjective { current_count: c as u32, is_completed: o.is_completed || c >= o.target_count, ..o }
}

/// An objective after a kill of `target`.
pub open spec fn after_kill(o: MissionObjective, target: Seq<char>) -> MissionObjective {
    if !o.is_completed && counts_kill(o, target) { stepped(o) } else { o }
}

/// The events of one objective for a kill of `target`: its progress, and
/// its completion when the kill completes it.
pub open spec fn kill_events(o: MissionObjective, target: Seq<char>, id: StoryMissionId, index: int) -> Seq<StoryMissionEvent> {
    if !o.is_completed && counts_kill(o, target) {
        let n = stepped(o);
        let updated = StoryMissionEvent::ObjectiveUpdated {
            mission_id: id,
            objective_index: index as usize,
            progress: n.current_count,
            total: n.target_count,
        };
        if n.is_completed {
            seq![updated, StoryMissionEvent::ObjectiveCompleted { mission_id: id, objective_index: index as usize }]
        } else {
            seq![updated]
        }
    } else {
        Seq::empty()
    }
}

/// The events of the first `n` objectives for a kill of `target`.
pub open spec fn all_kill_events(objs: Seq<MissionObjective>, target: Seq<char>, id: StoryMissionId, n: int) -> Seq<
    StoryMissionEvent,
>
    decreases n,
{
    if n <= 0 {
        Seq::empty()
    } else {
        all_kill_events(objs, target, id, n - 1) + kill_events(objs[n - 1], target, id, n - 1)
    }
}

/// Every objective a kill can step has room to count.
pub open spec fn kill_room(objs: Seq<MissionObjective>, target: Seq<char>) -> bool {
    forall|i: int| 0 <= i < objs.len() && !(#[trigger] objs[i]).is_completed && counts_kill(objs[i], target)
        ==> objs[i].current_count < u32::MAX
}

/// The mission being played, its objectives changed by `f`.
pub open spec fn with_objectives(a: ActiveStoryMission, objs: Seq<MissionObjective>, b: ActiveStoryMission) -> bool {
    &&& b.objectives@ == objs
    &&& b.mission_id == a.mission_id
    &&& b.current_phase == a.current_phase
    &&& b.phase_timer == a.phase_timer
    &&& b.checkpoint_position == a.checkpoint_position
    &&& b.checkpoint_phase == a.checkpoint_phase
    &&& b.spawned_entities == a.spawned_entities
}

/// Counts a kill of `target_id` towards the objectives of the mission
/// being played that are not done: kills of that target and kill counts.
/// Returns the progress and completion events, objective by objective.
pub fn update_kill_objective(manager: &mut StoryMissionManager, target_id: &str) -> (events: Vec<StoryMissionEvent>)
    requires
        old(manager).current_mission is Some ==> kill_room(old(manager).current_mission->0.objectives@, target_id@),
    ensures
        old(manager).current_mission is None ==> events@.len() == 0 && final(manager).current_mission is None,
        old(manager).current_mission is Some ==> ({
            let a = old(manager).current_mission->0;
            &&& final(manager).current_mission is Some
            &&& with_objectives(
                a,
                Seq::new(a.objectives@.len(), |i: int| after_kill(a.objectives@[i], target_id@)),
                final(manager).current_mission->0,
            )
            &&& events@ == all_kill_events(a.objectives@, target_id@, a.mission_id, a.objectives@.len() as int)
        }),
        final(manager).mission_states == old(manager).mission_states,
        final(manager).story_flags == old(manager).story_flags,
        final(manager).checkpoint == old(manager).checkpoint,
        final(manager).current_performance == old(manager).current_performance,
        final(manager).mission_ratings == old(manager).mission_ratings,
        final(manager).completed_count == old(manager).completed_count,
        final(manager).total_play_time == old(manager).total_play_time,
        final(manager).current_chapter == old(manager).current_chapter,
{
    let mut events: Vec<StoryMissionEvent> = Vec::new();
    let mut active = match manager.current_mission.take() {
        Some(a) => a,
        None => {
            return events;
        },
    };
    let mission_id = active.mission_id;
    let target = target_id.to_owned();
    let ghost a0 = active;
    let mut i: usize = 0;
    while i < active.objectives.len()
        invariant
            0 <= i <= active.objectives@.len(),
            target@ == target_id@,
            mission_id == a0.mission_id,
            kill_room(a0.objectives@, target_id@),
            active.objectives@.len() == a0.objectives@.len(),
            forall|j: int| 0 <= j < i ==> #[trigger] active.objectives@[j] == after_kill(a0.objectives@[j], target_id@),
            forall|j: int| i <= j < active.objectives@.len() ==> #[trigger] active.objectives@[j] == a0.objectives@[j],
            active.mission_id == a0.mission_id,
            active.current_phase == a0.current_phase,
            active.phase_timer == a0.phase_timer,
            active.checkpoint_position == a0.checkpoint_position,
            active.checkpoint_phase == a0.checkpoint_phase,
            active.spawned_entities == a0.spawned_entities,
            events@ == all_kill_events(a0.objectives@, target_id@, a0.mission_id, i as int),
        decreases active.objectives.len() - i,
    {
        let ghost o0 = a0.objectives@[i as int];
        if !active.objectives[i].is_completed {
            let matches = match &active.objectives[i].objective_type {
                ObjectiveType::KillTarget(id) => *id == target,
                ObjectiveType::KillCount(n) => true,
                _ => false,
            };
            if matches {
                let ghost before = active.objectives@;
                let mut o = active.objectives.remove(i);
                o.increment();
                let progress = o.current_count;
                let total = o.target_count;
                let done = o.is_completed;
                active.objectives.insert(i, o);
                assert(active.objectives@ =~= before.update(i as int, stepped(o0)));
                events.push(
                    StoryMissionEvent::ObjectiveUpdated { mission_id, objective_index: i, progress, total },
                );
                if done {
                    events.push(StoryMissionEvent::ObjectiveCompleted { mission_id, objective_index: i });
                }
            }
        }
        proof {
            let ke = kill_events(o0, target_id@, a0.mission_id, i as int);
            assert(all_kill_events(a0.objectives@, target_id@, a0.mission_id, i + 1) == all_kill_events(
                a0.objectives@,
                target_id@,
                a0.mission_id,
                i as int,
            ) + ke);
            assert(events@ =~= all_kill_events(a0.objectives@, target_id@, a0.mission_id, i + 1));
        }
        i = i + 1;
    }
    proof {
        assert(active.objectives@ =~= Seq::new(a0.objectives@.len(), |j: int| after_kill(a0.objectives@[j], target_id@)));
    }
    manager.current_mission = Some(active);
    events
}

/// Whether an objective is talking to NPC `npc`.
pub open spec fn talks_to(o: MissionObjective, npc: Seq<char>) -> bool {
    match o.objective_type {
        ObjectiveType::TalkToNpc(id) => id@ == npc,
        _ => false,
    }
}

/// An objective after talking to `npc`.
pub open spec fn after_talk(o: MissionObjective, npc: Seq<char>) -> MissionObjective {
    if !o.is_completed && talks_to(o, npc) {
        MissionObjective { is_completed: true, current_count: o.target_count, ..o }
    } else {
        o
    }
}

/// The completion events of the first `n` objectives for talking to `npc`.
pub open spec fn talk_events(objs: Seq<MissionObjective>, npc: Seq<char>, id: StoryMissionId, n: int) -> Seq<StoryMissionEvent>
    decreases n,
{
    if n <= 0 {
        Seq::empty()
    } else {
        let rest = talk_events(objs, npc, id, n - 1);
        if !objs[n - 1].is_completed && talks_to(objs[n - 1], npc) {
            rest.push(StoryMissionEvent::ObjectiveCompleted { mission_id: id, objective_index: (n - 1) as usize })
        } else {
            rest
        }
    }
}

/// Completes the objectives of the mission being played that are talking
/// to `npc_id` and not done yet, and returns their completion events.
pub fn update_talk_objective(manager: &mut StoryMissionManager, npc_id: &str) -> (events: Vec<StoryMissionEvent>)
    ensures
        old(manager).current_mission is None ==> events@.len() == 0 && final(manager).current_mission is None,
        old(manager).current_mission is Some ==> ({
            let a = old(manager).current_mission->0;
            &&& final(manager).current_mission is Some
            &&& with_objectives(
                a,
                Seq::new(a.objectives@.len(), |i: int| after_talk(a.objectives@[i], npc_id@)),
                final(manager).current_mission->0,
            )
            &&& events@ == talk_events(a.objectives@, npc_id@, a.mission_id, a.objectives@.len() as int)
        }),
        final(manager).mission_states == old(manager).mission_states,
        final(manager).story_flags == old(manager).story_flags,
        final(manager).checkpoint == old(manager).checkpoint,
        final(manager).current_performance == old(manager).current_performance,
        final(manager).mission_ratings == old(manager).mission_ratings,
        final(manager).completed_count == old(manager).completed_count,
        final(manager).total_play_time == old(manager).total_play_time,
        final(manager).current_chapter == old(manager).current_chapter,
{
    let mut events: Vec<StoryMissionEvent> = Vec::new();
    let mut active = match manager.current_mission.take() {
        Some(a) => a,
        None => {
            return events;
        },
    };
    let mission_id = active.mission_id;
    let npc = npc_id.to_owned();
    let ghost a0 = active;
    let mut i: usize = 0;
    while i < active.objectives.len()
        invariant
            0 <= i <= active.objectives@.len(),
            npc@ == npc_id@,
            mission_id == a0.mission_id,
            active.objectives@.len() == a0.objectives@.len(),
            forall|j: int| 0 <= j < i ==> #[trigger] active.objectives@[j] == after_talk(a0.objectives@[j], npc_id@),
            forall|j: int| i <= j < active.objectives@.len() ==> #[trigger] active.objectives@[j] == a0.objectives@[j],
            active.mission_id == a0.mission_id,
            active.current_phase == a0.current_phase,
            active.phase_timer == a0.phase_timer,
            active.checkpoint_position == a0.checkpoint_position,
            active.checkpoint_phase == a0.checkpoint_phase,
            active.spawned_entities == a0.spawned_entities,
            events@ == talk_events(a0.objectives@, npc_id@, a0.mission_id, i as int),
        decreases active.objectives.len() - i,
    {
        let ghost o0 = a0.objectives@[i as int];
        if !active.objectives[i].is_completed {
            let matches = match &active.objectives[i].objective_type {
                ObjectiveType::TalkToNpc(id) => *id == npc,
                _ => false,
            };
            if matches {
                let ghost before = active.objectives@;
                let mut o = active.objectives.remove(i);
                o.is_completed = true;
                o.current_count = o.target_count;
                active.objectives.insert(i, o);
                assert(active.objectives@ =~= before.update(i as int, after_talk(o0, npc_id@)));
                events.push(StoryMissionEvent::ObjectiveCompleted { mission_id, objective_index: i });
            }
        }
        i = i + 1;
    }
    proof {
        assert(active.objectives@ =~= Seq::new(a0.objectives@.len(), |j: int| after_talk(a0.objectives@[j], npc_id@)));
    }
    manager.current_mission = Some(active);
    events
}

/// What the mission display shows of the mission being played.
pub struct CurrentMissionInfo {
    pub mission_id: StoryMissionId,
    pub title: String,
    pub phase_description: String,
    pub objectives: Vec<MissionObjective>,
    /// Time left in the phase, when it has a limit.
    pub time_remaining: Option<u64>,
}

/// The mission being played as displayed: its title, the description of
/// its phase, its objectives and the time left (never below zero); none
/// when no mission is played or its mission or phase is unknown.
pub fn get_current_mission_info(manager: &StoryMissionManager, database: &StoryMissionDatabase) -> (r: Option<
    CurrentMissionInfo,
>)
    ensures
        ({
            let a = manager.current_mission;
            if a is None || !database.missions@.contains_key(a->0.mission_id) || a->0.current_phase
                >= database.missions@[a->0.mission_id].phases@.len() {
                r is None
            } else {
                let m = database.missions@[a->0.mission_id];
                let p = m.phases@[a->0.current_phase as int];
                &&& r is Some
                &&& r->0.mission_id == a->0.mission_id
                &&& r->0.title@ == m.title@
                &&& r->0.phase_description@ == p.description@
                &&& r->0.objectives@ == a->0.objectives@
                &&& r->0.time_remaining == match p.time_limit {
                    Some(limit) => Some(if limit >= a->0.phase_timer { (limit - a->0.phase_timer) as u64 } else { 0u64 }),
                    None => None::<u64>,
                }
            }
        }),
{
    let active = match &manager.current_mission {
        Some(a) => a,
        None => {
            return None;
        },
    };
    let mission = match database.get(active.mission_id) {
        Some(m) => m,
        None => {
            return None;
        },
    };
    let phase = match mission.get_phase(active.current_phase) {
        Some(p) => p,
        None => {
            return None;
        },
    };
    let time_remaining = match phase.time_limit {
        Some(limit) => Some(if limit >= active.phase_timer { limit - active.phase_timer } else { 0 }),
        None => None,
    };
    Some(
        CurrentMissionInfo {
            mission_id: active.mission_id,
            title: mission.title.clone(),
            phase_description: phase.description.clone(),
            objectives: copy_objectives(&active.objectives),
            time_remaining,
        },
    )
}


/// A mission target entity (an NPC to follow or escort) as the objective
/// tracker sees it.
#[derive(Clone, Debug)]
pub struct MissionTarget {
    pub target_id: String,
    pub mission_id: StoryMissionId,
    pub is_escort: bool,
    pub waypoint_count: usize,
    /// Index of the waypoint the target walks to next.
    pub current_waypoint: usize,
}

/// The target has a route and has walked all of it.
pub open spec fn target_arrived(t: MissionTarget) -> bool {
    t.waypoint_count > 0 && t.current_waypoint >= t.waypoint_count
}

/// The target has this marker and belongs to this mission (and is an
/// escort, when `escort` asks for one).
pub open spec fn target_is(t: MissionTarget, id: Seq<char>, mission: StoryMissionId, escort: bool) -> bool {
    t.target_id@ == id && t.mission_id == mission && (escort ==> t.is_escort)
}

/// Whether the first target from position `i` on that matches has arrived
/// (false when none matches).
pub open spec fn first_target_arrived(
    ts: Seq<MissionTarget>,
    i: int,
    id: Seq<char>,
    mission: StoryMissionId,
    escort: bool,
) -> bool
    decreases ts.len() - i,
{
    if i >= ts.len() || i < 0 {
        false
    } else if target_is(ts[i], id, mission, escort) {
        target_arrived(ts[i])
    } else {
        first_target_arrived(ts, i + 1, id, mission, escort)
    }
}

/// Whether the world now meets an objective: the player within the
/// place's radius, the kills counted, the phase survived long enough, or
/// the followed or escorted target at the end of its route. Other kinds of
/// objective are met by their own events.
pub open spec fn objective_met(
    o: MissionObjective,
    player: Position,
    timer: u64,
    mission: StoryMissionId,
    ts: Seq<MissionTarget>,
) -> bool {
    match o.objective_type {
        ObjectiveType::ReachLocation(p, r) => distance_squared(player, p) <= r * r,
        ObjectiveType::KillCount(n) => o.current_count >= n,
        ObjectiveType::SurviveTime(d) => timer >= d,
        ObjectiveType::FollowTarget(id, _) => first_target_arrived(ts, 0, id@, mission, false),
        ObjectiveType::EscortNpc(id) => first_target_arrived(ts, 0, id@, mission, true),
        _ => false,
    }
}

/// An objective after tracking: done (with a full count) when it was not
/// and the world now meets it.
pub open spec fn after_tracking(
    o: MissionObjective,
    player: Position,
    timer: u64,
    mission: StoryMissionId,
    ts: Seq<MissionTarget>,
) -> MissionObjective {
    if !o.is_completed && objective_met(o, player, timer, mission, ts) {
        MissionObjective { is_completed: true, current_count: o.target_count, ..o }
    } else {
        o
    }
}

/// The completion events of tracking the first `n` objectives.
pub open spec fn tracking_events(
    objs: Seq<MissionObjective>,
    player: Position,
    timer: u64,
    mission: StoryMissionId,
    ts: Seq<MissionTarget>,
    n: int,
) -> Seq<StoryMissionEvent>
    decreases n,
{
    if n <= 0 {
        Seq::empty()
    } else {
        let rest = tracking_events(objs, player, timer, mission, ts, n - 1);
        if !objs[n - 1].is_completed && objective_met(objs[n - 1], player, timer, mission, ts) {
            rest.push(StoryMissionEvent::ObjectiveCompleted { mission_id: mission, objective_index: (n - 1) as usize })
        } else {
            rest
        }
    }
}

/// Every place an objective asks to reach is within the measurable range.
pub open spec fn places_in_range(objs: Seq<MissionObjective>) -> bool {
    forall|i: int| 0 <= i < objs.len() ==> match (#[trigger] objs[i]).objective_type {
        ObjectiveType::ReachLocation(p, _) => position_in_range(p),
        _ => true,
    }
}

/// Whether the first matching target has arrived.
fn check_target_arrived(targets: &Vec<MissionTarget>, id: &String, mission: StoryMissionId, escort: bool) -> (b: bool)
    ensures
        b == first_target_arrived(targets@, 0, id@, mission, escort),
{
    let mut i: usize = 0;
    while i < targets.len()
        invariant
            0 <= i <= targets@.len(),
            first_target_arrived(targets@, 0, id@, mission, escort) == first_target_arrived(
                targets@,
                i as int,
                id@,
                mission,
                escort,
            ),
        decreases targets.len() - i,
    {
        let t = &targets[i];
        if t.target_id == *id && t.mission_id == mission && (!escort || t.is_escort) {
            return t.waypoint_count > 0 && t.current_waypoint >= t.waypoint_count;
        }
        i = i + 1;
    }
    false
}

/// Whether the world now meets an objective (see `objective_met`).
fn check_objective_complete(
    objective: &MissionObjective,
    player_pos: Position,
    phase_timer: u64,
    mission_id: StoryMissionId,
    targets: &Vec<MissionTarget>,
) -> (b: bool)
    requires
        position_in_range(player_pos),
        objective.objective_type matches ObjectiveType::ReachLocation(p, _) ==> position_in_range(p),
    ensures
        b == objective_met(*objective, player_pos, phase_timer, mission_id, targets@),
{
    match &objective.objective_type {
        ObjectiveType::ReachLocation(target_pos, radius) => squared_distance(player_pos, *target_pos) <= square_u32(
            *radius,
        ),
        ObjectiveType::KillCount(required) => objective.current_count >= *required,
        ObjectiveType::SurviveTime(duration) => phase_timer >= *duration,
        ObjectiveType::FollowTarget(target_id, _) => check_target_arrived(targets, target_id, mission_id, false),
        ObjectiveType::EscortNpc(target_id) => check_target_arrived(targets, target_id, mission_id, true),
        _ => false,
    }
}

/// Checks the objectives of the mission being played against the world:
/// each one not done that the world now meets is marked done with a full
/// count. Returns their completion events, objective by objective.
pub fn mission_objective_tracking_system(
    manager: &mut StoryMissionManager,
    player_pos: Position,
    targets: &Vec<MissionTarget>,
) -> (events: Vec<StoryMissionEvent>)
    requires
        position_in_range(player_pos),
        old(manager).current_mission is Some ==> places_in_range(old(manager).current_mission->0.objectives@),
    ensures
        old(manager).current_mission is None ==> events@.len() == 0 && *final(manager) == *old(manager),
        old(manager).current_mission is Some ==> ({
            let a = old(manager).current_mission->0;
            &&& final(manager).current_mission is Some
            &&& with_objectives(
                a,
                Seq::new(
                    a.objectives@.len(),
                    |i: int| after_tracking(a.objectives@[i], player_pos, a.phase_timer, a.mission_id, targets@),
                ),
                final(manager).current_mission->0,
            )
            &&& events@ == tracking_events(
                a.objectives@,
                player_pos,
                a.phase_timer,
                a.mission_id,
                targets@,
                a.objectives@.len() as int,
            )
            &&& *final(manager) == (StoryMissionManager {
                current_mission: final(manager).current_mission,
                ..*old(manager)
            })
        }),
{
    let mut events: Vec<StoryMissionEvent> = Vec::new();
    let mut active = match manager.current_mission.take() {
        Some(a) => a,
        None => {
            return events;
        },
    };
    let mission_id = active.mission_id;
    let phase_timer = active.phase_timer;
    let ghost a0 = active;
    let mut i: usize = 0;
    while i < active.objectives.len()
        invariant
            0 <= i <= active.objectives@.len(),
            mission_id == a0.mission_id,
            phase_timer == a0.phase_timer,
            position_in_range(player_pos),
            places_in_range(a0.objectives@),
            active.objectives@.len() == a0.objectives@.len(),
            forall|j: int| 0 <= j < i ==> #[trigger] active.objectives@[j] == after_tracking(
                a0.objectives@[j],
                player_pos,
                a0.phase_timer,
                a0.mission_id,
                targets@,
            ),
            forall|j: int| i <= j < active.objectives@.len() ==> #[trigger] active.objectives@[j] == a0.objectives@[j],
            active.mission_id == a0.mission_id,
            active.current_phase == a0.current_phase,
            active.phase_timer == a0.phase_timer,
            active.checkpoint_position == a0.checkpoint_position,
            active.checkpoint_phase == a0.checkpoint_phase,
            active.spawned_entities == a0.spawned_entities,
            events@ == tracking_events(a0.objectives@, player_pos, a0.phase_timer, a0.mission_id, targets@, i as int),
        decreases active.objectives.len() - i,
    {
        let ghost o0 = a0.objectives@[i as int];
        if !active.objectives[i].is_completed {
            assert(active.objectives@[i as int] == o0);
            let met = check_objective_complete(&active.objectives[i], player_pos, phase_timer, mission_id, targets);
            if met {
                let ghost before = active.objectives@;
                let mut o = active.objectives.remove(i);
                o.is_completed = true;
                o.current_count = o.target_count;
                active.objectives.insert(i, o);
                assert(active.objectives@ =~= before.update(
                    i as int,
                    after_tracking(o0, player_pos, a0.phase_timer, a0.mission_id, targets@),
                ));
                events.push(StoryMissionEvent::ObjectiveCompleted { mission_id, objective_index: i });
            }
        }
        i = i + 1;
    }
    proof {
        assert(active.objectives@ =~= Seq::new(
            a0.objectives@.len(),
            |j: int| after_tracking(a0.objectives@[j], player_pos, a0.phase_timer, a0.mission_id, targets@),
        ));
    }
    manager.current_mission = Some(active);
    events
}


/// Whether a fail condition holds now: the player's health at zero or below,
/// or the phase's time limit reached. Other conditions are raised by their
/// own systems.
pub open spec fn fail_triggered(c: FailCondition, health: Option<i32>, timer: u64, limit: Option<u64>) -> bool {
    match c {
        FailCondition::PlayerDeath => health matches Some(h) && h <= 0,
        FailCondition::TimeExpired => limit matches Some(l) && timer >= l,
        _ => false,
    }
}

/// The first condition from position `i` on that holds now.
pub open spec fn first_failing(
    cs: Seq<FailCondition>,
    i: int,
    health: Option<i32>,
    timer: u64,
    limit: Option<u64>,
) -> Option<int>
    decreases cs.len() - i,
{
    if i >= cs.len() || i < 0 {
        None
    } else if fail_triggered(cs[i], health, timer, limit) {
        Some(i)
    } else {
        first_failing(cs, i + 1, health, timer, limit)
    }
}

/// The condition of the current phase of the mission being played that
/// fails it now, if any (none when the mission or its phase is unknown).
pub open spec fn failing_condition(
    m: &StoryMissionManager,
    missions: Map<StoryMissionId, crate::mission::story_data::mission::StoryMission>,
    health: Option<i32>,
) -> Option<FailCondition> {
    if m.current_mission is None {
        None
    } else {
        let a = m.current_mission->0;
        if !missions.contains_key(a.mission_id) || a.current_phase >= missions[a.mission_id].phases@.len() {
            None
        } else {
            let p = missions[a.mission_id].phases@[a.current_phase as int];
            match first_failing(p.fail_conditions@, 0, health, a.phase_timer, p.time_limit) {
                Some(k) => Some(p.fail_conditions@[k]),
                None => None,
            }
        }
    }
}

/// A mission failure: its event and the entities to clean up.
#[derive(Debug)]
pub struct MissionFailure {
    pub event: StoryMissionEvent,
    pub despawn: Vec<u64>,
}

/// Whether a fail condition holds now (see `fail_triggered`).
fn check_fail_condition(condition: &FailCondition, player_health: Option<i32>, phase_timer: u64, time_limit: Option<u64>) -> (b: bool)
    ensures
        b == fail_triggered(*condition, player_health, phase_timer, time_limit),
{
    match condition {
        FailCondition::PlayerDeath => match player_health {
            Some(h) => h <= 0,
            None => false,
        },
        FailCondition::TimeExpired => match time_limit {
            Some(limit) => phase_timer >= limit,
            None => false,
        },
        _ => false,
    }
}

/// Fails the mission being played when a fail condition of its current
/// phase holds (the first one, in the phase's order): the mission fails
/// for that reason. `player_health` is the player's health, if there is a
/// player. Nothing happens otherwise.
pub fn mission_fail_check_system(
    manager: &mut StoryMissionManager,
    database: &StoryMissionDatabase,
    player_health: Option<i32>,
) -> (r: Option<MissionFailure>)
    requires
        old(manager).current_mission is Some ==> performance_has_room(old(manager)),
    ensures
        match failing_condition(old(manager), database.missions@, player_health) {
            None => r is None && *final(manager) == *old(manager),
            Some(c) => r is Some && r->0.event == StoryMissionEvent::Failed {
                mission_id: old(manager).current_mission->0.mission_id,
                reason: c,
            } && mission_failed(old(manager), final(manager), c, r->0.despawn@),
        },
{
    let (mission_id, phase_timer, current_phase) = match &manager.current_mission {
        Some(a) => (a.mission_id, a.phase_timer, a.current_phase),
        None => {
            return None;
        },
    };
    let mission = match database.get(mission_id) {
        Some(m) => m,
        None => {
            return None;
        },
    };
    let phase = match mission.get_phase(current_phase) {
        Some(p) => p,
        None => {
            return None;
        },
    };
    let ghost cs = phase.fail_conditions@;
    let mut i: usize = 0;
    while i < phase.fail_conditions.len()
        invariant
            0 <= i <= cs.len(),
            cs == phase.fail_conditions@,
            *manager == *old(manager),
            manager.current_mission is Some,
            performance_has_room(manager),
            mission_id == manager.current_mission->0.mission_id,
            phase_timer == manager.current_mission->0.phase_timer,
            database.missions@.contains_key(mission_id),
            current_phase < database.missions@[mission_id].phases@.len(),
            current_phase == manager.current_mission->0.current_phase,
            *phase == database.missions@[mission_id].phases@[current_phase as int],
            first_failing(cs, 0, player_health, phase_timer, phase.time_limit) == first_failing(
                cs,
                i as int,
                player_health,
                phase_timer,
                phase.time_limit,
            ),
        decreases phase.fail_conditions.len() - i,
    {
        if check_fail_condition(&phase.fail_conditions[i], player_health, phase_timer, phase.time_limit) {
            let reason = phase.fail_conditions[i].duplicate();
            let event = StoryMissionEvent::Failed { mission_id, reason: phase.fail_conditions[i].duplicate() };
            let despawn = manager.fail_current_mission(reason);
            return Some(MissionFailure { event, despawn });
        }
        i = i + 1;
    }
    None
}

/// What the retry prompt after a failure did.
#[derive(Debug)]
pub enum CheckpointRetryOutcome {
    /// Nothing was asked (or there is nothing to retry).
    Nothing,
    /// The mission restarted from the checkpoint; the player goes to
    /// `position`.
    Retried { position: Position, event: StoryMissionEvent },
    /// The retry was refused for this reason.
    RetryFailed(String),
    /// The checkpoint was given up.
    Abandoned,
}

/// After a failure, with no mission being played and a checkpoint saved:
/// the retry key restarts the mission from the checkpoint; otherwise the
/// give-up key forgets the checkpoint.
pub fn checkpoint_retry_system(
    manager: &mut StoryMissionManager,
    database: &StoryMissionDatabase,
    retry_pressed: bool,
    abandon_pressed: bool,
) -> (r: CheckpointRetryOutcome)
    requires
        performance_has_room(old(manager)),
    ensures
        old(manager).current_mission is Some || old(manager).checkpoint is None || (!retry_pressed && !abandon_pressed)
            ==> r is Nothing && *final(manager) == *old(manager),
        old(manager).current_mission is None && old(manager).checkpoint is Some && retry_pressed ==> ({
            let c = old(manager).checkpoint->0;
            &&& r is Retried || r is RetryFailed
            &&& r matches CheckpointRetryOutcome::Retried { position, event } ==> retried(
                old(manager),
                final(manager),
                database.missions@,
                Ok(position),
            ) && event == StoryMissionEvent::CheckpointReached { mission_id: c.mission_id, phase: c.phase }
            &&& r matches CheckpointRetryOutcome::RetryFailed(e) ==> retried(
                old(manager),
                final(manager),
                database.missions@,
                Err(e),
            )
        }),
        old(manager).current_mission is None && old(manager).checkpoint is Some && !retry_pressed && abandon_pressed
            ==> r is Abandoned && *final(manager) == (StoryMissionManager { checkpoint: None, ..*old(manager) }),
{
    if manager.current_mission.is_some() {
        return CheckpointRetryOutcome::Nothing;
    }
    let (mission_id, phase) = match manager.load_checkpoint() {
        Some(c) => (c.mission_id, c.phase),
        None => {
            return CheckpointRetryOutcome::Nothing;
        },
    };
    if retry_pressed {
        match manager.retry_from_checkpoint(database) {
            Ok(position) => CheckpointRetryOutcome::Retried {
                position,
                event: StoryMissionEvent::CheckpointReached { mission_id, phase },
            },
            Err(e) => CheckpointRetryOutcome::RetryFailed(e),
        }
    } else if abandon_pressed {
        manager.clear_checkpoint();
        CheckpointRetryOutcome::Abandoned
    } else {
        CheckpointRetryOutcome::Nothing
    }
}


/// What a step of the phase system asks of the world.
#[derive(Debug)]
pub struct PhaseStep {
    pub mission_events: Vec<StoryMissionEvent>,
    /// Dialogues to start, with no variables.
    pub dialogues: Vec<DialogueId>,
    /// Cutscenes to start.
    pub cutscenes: Vec<CutsceneId>,
    /// Entities to clean up.
    pub despawn: Vec<u64>,
}

/// The step asks for nothing.
pub open spec fn quiet_step(s: PhaseStep) -> bool {
    &&& s.mission_events@.len() == 0
    &&& s.dialogues@.len() == 0
    &&& s.cutscenes@.len() == 0
    &&& s.despawn@.len() == 0
}

/// The value of an option as a sequence of at most one item.
pub open spec fn option_items<T>(o: Option<T>) -> Seq<T> {
    match o {
        Some(x) => seq![x],
        None => Seq::empty(),
    }
}

/// The mission with its phase timer run by `delta` milliseconds.
pub open spec fn ticked(a: ActiveStoryMission, delta: u64) -> ActiveStoryMission {
    ActiveStoryMission { phase_timer: (a.phase_timer + delta) as u64, ..a }
}

fn quiet() -> (s: PhaseStep)
    ensures
        quiet_step(s),
{
    PhaseStep { mission_events: Vec::new(), dialogues: Vec::new(), cutscenes: Vec::new(), despawn: Vec::new() }
}

/// Runs the mission being played (unless a dialogue or cutscene is
/// playing): its phase timer advances by `delta` milliseconds; once every
/// required objective of the phase is done, the phase's closing dialogue
/// plays if it has one; otherwise the mission moves to its next phase
/// (saving a checkpoint at `player_pos` and playing the phase's opening
/// dialogue and cutscene), or, after its last phase, its rewards are given
/// and it is completed.
pub fn mission_phase_system(
    manager: &mut StoryMissionManager,
    database: &StoryMissionDatabase,
    wallet: &mut PlayerWallet,
    respect: &mut RespectManager,
    unlocks: &mut UnlockManager,
    delta: u64,
    dialogue_state: &DialogueState,
    cutscene_state: &CutsceneState,
    player_pos: Position,
) -> (out: PhaseStep)
    requires
        manager_wf(old(manager)),
        unlocks_wf(*old(unlocks)),
        old(manager).current_mission is Some ==> old(manager).current_mission->0.phase_timer + delta <= u64::MAX,
        old(manager).current_mission is Some && database.missions@.contains_key(
            old(manager).current_mission->0.mission_id,
        ) ==> ({
            let rw = database.missions@[old(manager).current_mission->0.mission_id].rewards;
            &&& i32::MIN <= old(respect).respect + (rw.respect as i32) <= i32::MAX
            &&& old(manager).completed_count < u32::MAX
        }),
    ensures
        manager_wf(final(manager)),
        unlocks_wf(*final(unlocks)),
        dialogue_state.active_dialogue is Some || cutscene_state.active_cutscene is Some || old(manager).current_mission is None ==> quiet_step(
            out,
        ) && *final(manager) == *old(manager) && *final(wallet) == *old(wallet) && *final(respect) == *old(respect)
            && *final(unlocks) == *old(unlocks),
        dialogue_state.active_dialogue is None && cutscene_state.active_cutscene is None && old(manager).current_mission is Some ==> ({
            let a = old(manager).current_mission->0;
            let t = ticked(a, delta);
            let missions = database.missions@;
            let ticked_m = StoryMissionManager { current_mission: Some(t), ..*old(manager) };
            if !all_required_done(a.objectives@) || !missions.contains_key(a.mission_id) {
                &&& quiet_step(out)
                &&& *final(manager) == ticked_m
                &&& *final(wallet) == *old(wallet) && *final(respect) == *old(respect) && *final(unlocks) == *old(unlocks)
            } else {
                let phases = missions[a.mission_id].phases@;
                let cur = a.current_phase as int;
                if cur < phases.len() && phases[cur].end_dialogue is Some {
                    &&& out.dialogues@ == seq![phases[cur].end_dialogue->0]
                    &&& out.mission_events@.len() == 0 && out.cutscenes@.len() == 0 && out.despawn@.len() == 0
                    &&& *final(manager) == ticked_m
                    &&& *final(wallet) == *old(wallet) && *final(respect) == *old(respect) && *final(unlocks)
                        == *old(unlocks)
                } else if cur + 1 < phases.len() {
                    let next = phases[cur + 1];
                    let n = (cur + 1) as u32;
                    &&& out.mission_events@ == seq![
                        StoryMissionEvent::PhaseChanged { mission_id: a.mission_id, new_phase: n },
                        StoryMissionEvent::CheckpointReached { mission_id: a.mission_id, phase: n },
                    ]
                    &&& out.dialogues@ == option_items(next.start_dialogue)
                    &&& out.cutscenes@ == option_items(next.cutscene)
                    &&& out.despawn@.len() == 0
                    &&& final(manager).current_mission is Some
                    &&& final(manager).current_mission->0.mission_id == a.mission_id
                    &&& final(manager).current_mission->0.current_phase == cur + 1
                    &&& final(manager).current_mission->0.phase_timer == 0
                    &&& final(manager).current_mission->0.objectives@ == next.objectives@
                    &&& final(manager).current_mission->0.checkpoint_position == a.checkpoint_position
                    &&& final(manager).current_mission->0.checkpoint_phase == a.checkpoint_phase
                    &&& final(manager).current_mission->0.spawned_entities == a.spawned_entities
                    &&& final(manager).checkpoint is Some
                    &&& final(manager).checkpoint->0.mission_id == a.mission_id
                    &&& final(manager).checkpoint->0.phase == n
                    &&& final(manager).checkpoint->0.player_position == player_pos
                    &&& final(manager).checkpoint->0.timestamp == old(manager).total_play_time
                    &&& final(manager).checkpoint->0.objectives_state@ == a.objectives@
                    &&& *final(manager) == (StoryMissionManager {
                        current_mission: final(manager).current_mission,
                        checkpoint: final(manager).checkpoint,
                        ..*old(manager)
                    })
                    &&& *final(wallet) == *old(wallet) && *final(respect) == *old(respect) && *final(unlocks)
                        == *old(unlocks)
                } else {
                    let rw = missions[a.mission_id].rewards;
                    &&& out.mission_events@.len() == 1
                    &&& out.mission_events@[0] matches StoryMissionEvent::Completed { mission_id, rewards }
                        && mission_id == a.mission_id && same_rewards(rewards, rw)
                    &&& out.dialogues@.len() == 0 && out.cutscenes@.len() == 0
                    &&& out.despawn@ == a.spawned_entities@
                    &&& *final(wallet) == add_cash_post(*old(wallet), rw.money as i32)
                    &&& final(respect).respect == respect_after(old(respect).respect as int, (rw.respect as i32) as int)
                    &&& item_keys(final(unlocks).unlocked_items@) == item_keys(old(unlocks).unlocked_items@).union(
                        keys_of(rw.unlock_weapons@),
                    ).union(keys_of(rw.unlock_vehicles@))
                    &&& final(unlocks).unlocked_areas@.to_set() == old(unlocks).unlocked_areas@.to_set().union(
                        rw.unlock_areas@.to_set(),
                    )
                    &&& forall|id: StoryMissionId| #[trigger] status_in(final(manager).mission_states@, id) == if id
                        == a.mission_id {
                        StoryMissionStatus::Completed
                    } else {
                        unlocked_all(old(manager).mission_states@, rw.unlock_missions@, id)
                    }
                    &&& forall|name: Seq<char>| #[trigger] flag_in(final(manager).story_flags@, name) == (named_in(
                        rw.set_flags@,
                        name,
                    ) || flag_in(old(manager).story_flags@, name))
                    &&& final(manager).completed_count == old(manager).completed_count + 1
                    &&& final(manager).current_mission is None
                    &&& final(manager).checkpoint == old(manager).checkpoint
                    &&& final(manager).current_chapter == old(manager).current_chapter
                    &&& final(manager).total_play_time == old(manager).total_play_time
                    &&& old(manager).current_performance is None ==> final(manager).current_performance is None
                        && final(manager).mission_ratings == old(manager).mission_ratings
                        && final(manager).last_completion_result == old(manager).last_completion_result
                    &&& old(manager).current_performance is Some ==> completion_recorded(
                        old(manager),
                        final(manager),
                        missions,
                        t,
                        old(manager).current_performance->0,
                    )
                }
            }
        }),
{
    if is_dialogue_active(dialogue_state) || is_cutscene_active(cutscene_state) {
        return quiet();
    }
    let mut active = match manager.current_mission.take() {
        Some(a) => a,
        None => {
            return quiet();
        },
    };
    active.tick(delta);
    let complete = active.is_phase_complete();
    let mission_id = active.mission_id;
    let current_phase = active.current_phase;
    manager.current_mission = Some(active);
    if !complete {
        return quiet();
    }
    let mission = match database.get(mission_id) {
        Some(m) => m,
        None => {
            return quiet();
        },
    };
    match mission.get_phase(current_phase) {
        Some(p) => match p.end_dialogue {
            Some(d) => {
                let mut step = quiet();
                step.dialogues.push(d);
                return step;
            },
            None => {},
        },
        None => {},
    }
    let has_next = mission.phases.len() > 0 && current_phase < mission.phases.len() - 1;
    if has_next {
        let next_index = current_phase + 1;
        let next_phase = &mission.phases[next_index];
        manager.create_checkpoint(player_pos, next_index as u32);
        let mut active = match manager.current_mission.take() {
            Some(a) => a,
            None => {
                return quiet();
            },
        };
        active.advance_phase(next_phase);
        manager.current_mission = Some(active);
        let mut step = quiet();
        step.mission_events.push(StoryMissionEvent::PhaseChanged { mission_id, new_phase: next_index as u32 });
        step.mission_events.push(StoryMissionEvent::CheckpointReached { mission_id, phase: next_index as u32 });
        match next_phase.start_dialogue {
            Some(d) => step.dialogues.push(d),
            None => {},
        }
        match next_phase.cutscene {
            Some(c) => step.cutscenes.push(c),
            None => {},
        }
        step
    } else {
        let rewards = mission.rewards.duplicate();
        manager.grant_rewards(&mission.rewards, wallet, respect, unlocks);
        let ghost m1 = *manager;
        let mut step = quiet();
        match manager.complete_current_mission(database) {
            Some((completed_id, spawned)) => {
                step.mission_events.push(StoryMissionEvent::Completed { mission_id: completed_id, rewards });
                step.despawn = spawned;
            },
            None => {},
        }
        proof {
            assert forall|x: StoryMissionId| #[trigger] status_in(manager.mission_states@, x) == if x == mission_id {
                StoryMissionStatus::Completed
            } else {
                unlocked_all(old(manager).mission_states@, mission.rewards.unlock_missions@, x)
            } by {
                assert(status_in(m1.mission_states@, x) == unlocked_all(
                    old(manager).mission_states@,
                    mission.rewards.unlock_missions@,
                    x,
                ));
            }
        }
        step
    }
}


/// Tracking never undoes an objective: a done objective stays done, and an
/// objective is done after tracking exactly when it was done or the world
/// meets it.
pub proof fn tracking_keeps_done_objectives(
    o: MissionObjective,
    player: Position,
    timer: u64,
    mission: StoryMissionId,
    ts: Seq<MissionTarget>,
)
    ensures
        o.is_completed ==> after_tracking(o, player, timer, mission, ts) == o,
        after_tracking(o, player, timer, mission, ts).is_completed == (o.is_completed || objective_met(
            o,
            player,
            timer,
            mission,
            ts,
        )),
{
}

} // verus!
