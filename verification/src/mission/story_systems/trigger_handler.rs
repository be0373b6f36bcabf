//! Missions and dialogues started from trigger zones and mission NPCs.
use vstd::prelude::*;
use crate::economy::wallet::PlayerWallet;
use crate::mission::advanced_missions::{square_u32, squared_distance};
use crate::mission::data::{distance_squared, position_in_range};
use crate::mission::dialogue::{DialogueEvent, DialogueState};
use crate::mission::dialogue_systems::is_dialogue_active;
use crate::mission::economy::RespectManager;
use crate::mission::story_data::types::{DialogueId, Position, StoryMissionId, StoryMissionStatus};
use crate::mission::story_manager::{
    can_start, flag_in, manager_wf, started, status_in, StoryMissionDatabase, StoryMissionEvent,
    StoryMissionManager,
};
use crate::mission::unlocks::UnlockManager;

verus! {

/// What a trigger zone is for.
#[derive(Clone, Copy, Debug, PartialEq, Eq, Structural)]
pub enum TriggerEventType {
    /// Starts a story mission.
    Mission(StoryMissionId),
    /// Starts a dialogue.
    Dialogue(DialogueId),
    /// Something the story systems do not handle.
    Other,
}

/// What the player did with a trigger zone (`entity` is the zone).
#[derive(Clone, Copy, Debug, PartialEq, Eq, Structural)]
pub enum TriggerEvent {
    PlayerEntered { entity: u64, trigger_type: TriggerEventType },
    PlayerInteracted { entity: u64, trigger_type: TriggerEventType },
    PlayerStayed { entity: u64, trigger_type: TriggerEventType },
    PlayerExited { entity: u64, trigger_type: TriggerEventType },
}

/// A trigger zone and the story flag it needs, if any.
#[derive(Clone, Debug)]
pub struct TriggerInfo {
    pub entity: u64,
    pub required_flag: Option<String>,
}

/// The zone and mission of an event that can start a mission: entering,
/// interacting with or staying in a mission zone.
pub open spec fn mission_trigger(e: TriggerEvent) -> Option<(u64, StoryMissionId)> {
    match e {
        TriggerEvent::PlayerEntered { entity, trigger_type } => match trigger_type {
            TriggerEventType::Mission(id) => Some((entity, id)),
            _ => None,
        },
        TriggerEvent::PlayerInteracted { entity, trigger_type } => match trigger_type {
            TriggerEventType::Mission(id) => Some((entity, id)),
            _ => None,
        },
        TriggerEvent::PlayerStayed { entity, trigger_type } => match trigger_type {
            TriggerEventType::Mission(id) => Some((entity, id)),
            _ => None,
        },
        TriggerEvent::PlayerExited { .. } => None,
    }
}

/// The dialogue of an event that starts one: entering or interacting with a
/// dialogue zone.
pub open spec fn dialogue_trigger(e: TriggerEvent) -> Option<DialogueId> {
    match e {
        TriggerEvent::PlayerEntered { trigger_type, .. } => match trigger_type {
            TriggerEventType::Dialogue(id) => Some(id),
            _ => None,
        },
        TriggerEvent::PlayerInteracted { trigger_type, .. } => match trigger_type {
            TriggerEventType::Dialogue(id) => Some(id),
            _ => None,
        },
        _ => None,
    }
}

/// The zone's flag requirement holds: the first listed zone with this
/// entity either needs no flag or needs one that is set (an unlisted zone
/// needs nothing).
pub open spec fn trigger_flags_ok(ts: Seq<TriggerInfo>, entity: u64, m: &StoryMissionManager) -> bool {
    forall|i: int|
        0 <= i < ts.len() && (#[trigger] ts[i]).entity == entity && (forall|j: int|
            0 <= j < i ==> (#[trigger] ts[j]).entity != entity) ==> match ts[i].required_flag {
            Some(f) => flag_in(m.story_flags@, f@),
            None => true,
        }
}

/// The zone's event names a zone of the list whose flag requirement holds.
fn check_trigger_flags(entity: u64, triggers: &Vec<TriggerInfo>, manager: &StoryMissionManager) -> (ok: bool)
    requires
        manager_wf(manager),
    ensures
        ok == trigger_flags_ok(triggers@, entity, manager),
{
    let mut i: usize = 0;
    while i < triggers.len()
        invariant
            0 <= i <= triggers@.len(),
            manager_wf(manager),
            forall|j: int| 0 <= j < i ==> (#[trigger] triggers@[j]).entity != entity,
        decreases triggers.len() - i,
    {
        if triggers[i].entity == entity {
            let ok = match &triggers[i].required_flag {
                Some(f) => manager.get_flag(f.as_str()),
                None => true,
            };
            proof {
                assert forall|k: int|
                    0 <= k < triggers@.len() && (#[trigger] triggers@[k]).entity == entity && (forall|j: int|
                        0 <= j < k ==> (#[trigger] triggers@[j]).entity != entity) implies k == i by {
                    if k > i {
                        assert(triggers@[i as int].entity != entity);
                    }
                }
            }
            return ok;
        }
        i = i + 1;
    }
    true
}

/// Handles one trigger event: entering, interacting with or staying in a
/// mission zone whose flag requirement holds starts that mission when the
/// database has it and it can be started. Returns the start event; nothing
/// changes otherwise.
pub fn mission_trigger_event_handler(
    event: &TriggerEvent,
    triggers: &Vec<TriggerInfo>,
    manager: &mut StoryMissionManager,
    database: &StoryMissionDatabase,
    wallet: &PlayerWallet,
    respect: &RespectManager,
    unlocks: &UnlockManager,
    hour: u32,
) -> (r: Option<StoryMissionEvent>)
    requires
        manager_wf(old(manager)),
    ensures
        manager_wf(final(manager)),
        match mission_trigger(*event) {
            None => r is None && *final(manager) == *old(manager),
            Some((entity, id)) => if trigger_flags_ok(triggers@, entity, old(manager))
                && database.missions@.contains_key(id) && can_start(
                old(manager),
                database.missions@[id],
                wallet.cash,
                hour,
            ) {
                r == Some(StoryMissionEvent::Started(id)) && started(
                    old(manager),
                    final(manager),
                    database.missions@[id],
                )
            } else {
                r is None && *final(manager) == *old(manager)
            },
        },
{
    let (entity, mission_id) = match event {
        TriggerEvent::PlayerEntered { entity, trigger_type }
        | TriggerEvent::PlayerInteracted { entity, trigger_type }
        | TriggerEvent::PlayerStayed { entity, trigger_type } => match trigger_type {
            TriggerEventType::Mission(id) => (*entity, *id),
            _ => {
                return None;
            },
        },
        TriggerEvent::PlayerExited { .. } => {
            return None;
        },
    };
    if !check_trigger_flags(entity, triggers, manager) {
        return None;
    }
    match database.get(mission_id) {
        Some(mission) => {
            if manager.start_mission(mission, wallet, respect, unlocks, hour).is_ok() {
                Some(StoryMissionEvent::Started(mission_id))
            } else {
                None
            }
        },
        None => None,
    }
}

/// Handles one trigger event: entering or interacting with a dialogue zone
/// starts its dialogue, with no variables.
pub fn dialogue_trigger_event_handler(event: &TriggerEvent) -> (r: Option<DialogueEvent>)
    ensures
        match dialogue_trigger(*event) {
            Some(id) => r matches Some(DialogueEvent::Start { dialogue_id, participants }) && dialogue_id == id
                && participants@.len() == 0,
            None => r is None,
        },
{
    match event {
        TriggerEvent::PlayerEntered { trigger_type, .. } | TriggerEvent::PlayerInteracted { trigger_type, .. } => {
            match trigger_type {
                TriggerEventType::Dialogue(id) => Some(DialogueEvent::Start { dialogue_id: *id, participants: Vec::new() }),
                _ => None,
            }
        },
        _ => None,
    }
}

/// The dialogue that opens a mission: the start dialogue of its first
/// phase, when the database has the mission and it has a phase.
pub open spec fn mission_start_dialogue(missions: Map<StoryMissionId, crate::mission::story_data::mission::StoryMission>, id: StoryMissionId) -> Option<DialogueId> {
    if missions.contains_key(id) && missions[id].phases@.len() > 0 {
        missions[id].phases@[0].start_dialogue
    } else {
        None
    }
}

/// The dialogue that opens a mission (see `mission_start_dialogue`).
pub fn get_mission_start_dialogue(mission_id: StoryMissionId, database: &StoryMissionDatabase) -> (r: Option<DialogueId>)
    ensures
        r == mission_start_dialogue(database.missions@, mission_id),
{
    match database.get(mission_id) {
        Some(m) => {
            if m.phases.len() > 0 {
                m.phases[0].start_dialogue
            } else {
                None
            }
        },
        None => None,
    }
}

/// A mission NPC as the interaction system sees it.
#[derive(Clone, Copy, Debug, PartialEq, Eq, Structural)]
pub struct MissionNpcInfo {
    pub position: Position,
    pub can_interact: bool,
    /// How close the player must be, in centimetres.
    pub interaction_radius: u32,
    pub offers_mission: Option<StoryMissionId>,
    pub idle_dialogue: Option<DialogueId>,
}

/// What talking to the NPCs did.
#[derive(Debug)]
pub struct NpcInteraction {
    /// The start of the mission an NPC gave.
    pub mission_event: Option<StoryMissionEvent>,
    /// The dialogue to play.
    pub dialogue: Option<DialogueId>,
    /// Whether the interaction key press was used up.
    pub consumed: bool,
}

/// The NPC is willing to talk and the player is within its radius.
pub open spec fn npc_in_reach(n: MissionNpcInfo, player: Position) -> bool {
    n.can_interact && distance_squared(player, n.position) <= n.interaction_radius * n.interaction_radius
}

/// The NPC offers a mission that is available, known and can be started.
pub open spec fn npc_starts(
    n: MissionNpcInfo,
    m: &StoryMissionManager,
    missions: Map<StoryMissionId, crate::mission::story_data::mission::StoryMission>,
    cash: i32,
    hour: u32,
) -> bool {
    &&& n.offers_mission is Some
    &&& status_in(m.mission_states@, n.offers_mission->0) == StoryMissionStatus::Available
    &&& missions.contains_key(n.offers_mission->0)
    &&& can_start(m, missions[n.offers_mission->0], cash, hour)
}

/// Talking to the NPC does something: it starts its mission or plays its
/// idle dialogue.
pub open spec fn npc_acts(
    n: MissionNpcInfo,
    player: Position,
    m: &StoryMissionManager,
    missions: Map<StoryMissionId, crate::mission::story_data::mission::StoryMission>,
    cash: i32,
    hour: u32,
) -> bool {
    npc_in_reach(n, player) && (npc_starts(n, m, missions, cash, hour) || n.idle_dialogue is Some)
}

/// The first NPC from position `i` on that acts.
pub open spec fn first_acting(
    npcs: Seq<MissionNpcInfo>,
    i: int,
    player: Position,
    m: &StoryMissionManager,
    missions: Map<StoryMissionId, crate::mission::story_data::mission::StoryMission>,
    cash: i32,
    hour: u32,
) -> Option<int>
    decreases npcs.len() - i,
{
    if i >= npcs.len() || i < 0 {
        None
    } else if npc_acts(npcs[i], player, m, missions, cash, hour) {
        Some(i)
    } else {
        first_acting(npcs, i + 1, player, m, missions, cash, hour)
    }
}

/// The player talks to mission NPCs (when no dialogue is playing and the
/// interaction key is free). The first NPC in reach that acts does so: it
/// starts its mission (with the mission's opening dialogue) when it can,
/// or else plays its idle dialogue; the key press is then used up.
pub fn mission_npc_interaction_system(
    npcs: &Vec<MissionNpcInfo>,
    player_pos: Position,
    can_interact: bool,
    dialogue_state: &DialogueState,
    manager: &mut StoryMissionManager,
    database: &StoryMissionDatabase,
    wallet: &PlayerWallet,
    respect: &RespectManager,
    unlocks: &UnlockManager,
    hour: u32,
) -> (out: NpcInteraction)
    requires
        manager_wf(old(manager)),
        position_in_range(player_pos),
        forall|i: int| 0 <= i < npcs@.len() ==> position_in_range((#[trigger] npcs@[i]).position),
    ensures
        manager_wf(final(manager)),
        dialogue_state.active_dialogue is Some || !can_interact ==> out.mission_event is None && out.dialogue is None
            && !out.consumed && *final(manager) == *old(manager),
        dialogue_state.active_dialogue is None && can_interact ==> match first_acting(
            npcs@,
            0,
            player_pos,
            old(manager),
            database.missions@,
            wallet.cash,
            hour,
        ) {
            None => out.mission_event is None && out.dialogue is None && !out.consumed && *final(manager)
                == *old(manager),
            Some(k) => {
                let n = npcs@[k];
                &&& out.consumed
                &&& npc_starts(n, old(manager), database.missions@, wallet.cash, hour) ==> {
                    let id = n.offers_mission->0;
                    &&& out.mission_event == Some(StoryMissionEvent::Started(id))
                    &&& out.dialogue == mission_start_dialogue(database.missions@, id)
                    &&& started(old(manager), final(manager), database.missions@[id])
                }
                &&& !npc_starts(n, old(manager), database.missions@, wallet.cash, hour) ==> out.mission_event is None
                    && out.dialogue == n.idle_dialogue && *final(manager) == *old(manager)
            },
        },
{
    if is_dialogue_active(dialogue_state) || !can_interact {
        return NpcInteraction { mission_event: None, dialogue: None, consumed: false };
    }
    let ghost m0 = *manager;
    let mut i: usize = 0;
    while i < npcs.len()
        invariant
            0 <= i <= npcs@.len(),
            *manager == m0,
            m0 == *old(manager),
            manager_wf(manager),
            dialogue_state.active_dialogue is None && can_interact,
            position_in_range(player_pos),
            forall|j: int| 0 <= j < npcs@.len() ==> position_in_range((#[trigger] npcs@[j]).position),
            first_acting(npcs@, 0, player_pos, &m0, database.missions@, wallet.cash, hour) == first_acting(
                npcs@,
                i as int,
                player_pos,
                &m0,
                database.missions@,
                wallet.cash,
                hour,
            ),
        decreases npcs.len() - i,
    {
        let n = npcs[i];
        let in_reach = n.can_interact && squared_distance(player_pos, n.position) <= square_u32(n.interaction_radius);
        if in_reach {
            assert(npc_in_reach(n, player_pos));
            match n.offers_mission {
                Some(id) => {
                    if manager.get_mission_status(id) == StoryMissionStatus::Available {
                        match database.get(id) {
                            Some(mission) => {
                                if manager.start_mission(mission, wallet, respect, unlocks, hour).is_ok() {
                                    let dialogue = get_mission_start_dialogue(id, database);
                                    return NpcInteraction {
                                        mission_event: Some(StoryMissionEvent::Started(id)),
                                        dialogue,
                                        consumed: true,
                                    };
                                }
                            },
                            None => {},
                        }
                    }
                },
                None => {},
            }
            match n.idle_dialogue {
                Some(d) => {
                    return NpcInteraction { mission_event: None, dialogue: Some(d), consumed: true };
                },
                None => {},
            }
        }
        i = i + 1;
    }
    NpcInteraction { mission_event: None, dialogue: None, consumed: false }
}

} // verus!
