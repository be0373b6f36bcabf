//! Dialogue actions: when a node is shown, its actions are turned into
//! events for other systems (camera, animation, effects, sound, weather,
//! time), and waits and camera focus are timed.
//!
//! Times are in milliseconds.
use vstd::prelude::*;
use crate::mission::story_data::types::{DialogueId, NpcId, Position};
use crate::mission::dialogue::{DialogueAction, DialogueDatabase, DialogueState};

verus! {

/// A request sent to another system by a dialogue action.
#[derive(Debug)]
pub enum DialogueActionEvent {
    CameraFocus { target: Position, duration: u32 },
    PlayAnimation { target_npc: NpcId, animation: String },
    SpawnEffect { effect: String, position: Position },
    PlaySound(String),
    SetWeather(String),
    /// Time of day, in hundredths of an hour.
    SetTime(u32),
}

/// A camera close-up being played.
#[derive(Clone, Copy, Debug, PartialEq, Eq, Structural)]
pub struct CameraFocusData {
    pub target: Position,
    pub duration: u32,
    pub elapsed: u32,
    /// Where the camera was before the close-up.
    pub original_position: Option<Position>,
}

/// What the dialogue actions are doing.
#[derive(Clone, Copy, Debug)]
pub struct DialogueActionState {
    pub camera_focus: Option<CameraFocusData>,
    /// Time left to wait.
    pub wait_timer: u32,
    pub is_waiting: bool,
    /// The last node whose actions were run.
    pub last_processed_node: Option<(DialogueId, u32)>,
}

impl Default for DialogueActionState {
    fn default() -> (s: DialogueActionState)
        ensures
            s == (DialogueActionState { camera_focus: None, wait_timer: 0, is_waiting: false, last_processed_node: None }),
    {
        DialogueActionState { camera_focus: None, wait_timer: 0, is_waiting: false, last_processed_node: None }
    }
}

/// The event an action sends, if any.
pub open spec fn action_event(a: DialogueAction) -> Option<DialogueActionEvent> {
    match a {
        DialogueAction::Nothing => None,
        DialogueAction::CameraFocus { target, duration } => Some(DialogueActionEvent::CameraFocus { target, duration }),
        DialogueAction::PlayAnimation { target, animation } => Some(
            DialogueActionEvent::PlayAnimation { target_npc: target, animation },
        ),
        DialogueAction::SpawnEffect { effect, position } => Some(DialogueActionEvent::SpawnEffect { effect, position }),
        DialogueAction::PlaySound(sound) => Some(DialogueActionEvent::PlaySound(sound)),
        DialogueAction::Wait(d) => None,
        DialogueAction::SetWeather(w) => Some(DialogueActionEvent::SetWeather(w)),
        DialogueAction::SetTime(t) => Some(DialogueActionEvent::SetTime(t)),
    }
}

/// The events a list of actions sends, in order.
pub open spec fn action_events(acts: Seq<DialogueAction>) -> Seq<DialogueActionEvent>
    decreases acts.len(),
{
    if acts.len() == 0 {
        Seq::empty()
    } else {
        let rest = action_events(acts.drop_last());
        match action_event(acts.last()) {
            Some(e) => rest.push(e),
            None => rest,
        }
    }
}

/// The action state after running one action.
pub open spec fn after_action(s: DialogueActionState, a: DialogueAction) -> DialogueActionState {
    match a {
        DialogueAction::CameraFocus { target, duration } => DialogueActionState {
            camera_focus: Some(CameraFocusData { target, duration, elapsed: 0, original_position: None }),
            ..s
        },
        DialogueAction::Wait(d) => DialogueActionState { is_waiting: true, wait_timer: d, ..s },
        _ => s,
    }
}

/// The action state after running a list of actions in order.
pub open spec fn after_actions(s: DialogueActionState, acts: Seq<DialogueAction>) -> DialogueActionState
    decreases acts.len(),
{
    if acts.len() == 0 {
        s
    } else {
        after_action(after_actions(s, acts.drop_last()), acts.last())
    }
}

/// Runs the actions of the node being shown, once per node: sends their
/// events and starts their close-ups and waits. When no dialogue is
/// played, the state is reset.
pub fn dialogue_action_trigger_system(
    dialogue_state: &DialogueState,
    database: &DialogueDatabase,
    action_state: &mut DialogueActionState,
) -> (events: Vec<DialogueActionEvent>)
    ensures
        ({
            let a = dialogue_state.active_dialogue;
            if a is None {
                events@.len() == 0 && *final(action_state) == (DialogueActionState {
                    last_processed_node: None,
                    camera_focus: None,
                    is_waiting: false,
                    ..*old(action_state)
                })
            } else if old(action_state).last_processed_node == Some((a->0.dialogue_id, a->0.current_node)) {
                events@.len() == 0 && *final(action_state) == *old(action_state)
            } else {
                let marked = DialogueActionState {
                    last_processed_node: Some((a->0.dialogue_id, a->0.current_node)),
                    ..*old(action_state)
                };
                if !database.dialogues@.contains_key(a->0.dialogue_id)
                    || !database.dialogues@[a->0.dialogue_id].nodes@.contains_key(a->0.current_node) {
                    events@.len() == 0 && *final(action_state) == marked
                } else {
                    let acts = database.dialogues@[a->0.dialogue_id].nodes@[a->0.current_node].actions@;
                    events@ == action_events(acts) && *final(action_state) == after_actions(marked, acts)
                }
            }
        }),
{
    let mut events: Vec<DialogueActionEvent> = Vec::new();
    let active = match &dialogue_state.active_dialogue {
        Some(a) => a,
        None => {
            action_state.last_processed_node = None;
            action_state.camera_focus = None;
            action_state.is_waiting = false;
            return events;
        },
    };
    let current_key = (active.dialogue_id, active.current_node);
    if action_state.last_processed_node == Some(current_key) {
        return events;
    }
    action_state.last_processed_node = Some(current_key);
    let tree = match database.get_dialogue(active.dialogue_id) {
        Some(t) => t,
        None => {
            return events;
        },
    };
    let node = match tree.get_node(active.current_node) {
        Some(n) => n,
        None => {
            return events;
        },
    };
    let ghost marked = *action_state;
    let mut i: usize = 0;
    while i < node.actions.len()
        invariant
            0 <= i <= node.actions@.len(),
            events@ == action_events(node.actions@.take(i as int)),
            *action_state == after_actions(marked, node.actions@.take(i as int)),
        decreases node.actions.len() - i,
    {
        assert(node.actions@.take(i as int + 1).drop_last() =~= node.actions@.take(i as int));
        match &node.actions[i] {
            DialogueAction::Nothing => {},
            DialogueAction::CameraFocus { target, duration } => {
                events.push(DialogueActionEvent::CameraFocus { target: *target, duration: *duration });
                action_state.camera_focus = Some(
                    CameraFocusData { target: *target, duration: *duration, elapsed: 0, original_position: None },
                );
            },
            DialogueAction::PlayAnimation { target, animation } => {
                events.push(DialogueActionEvent::PlayAnimation { target_npc: *target, animation: animation.clone() });
            },
            DialogueAction::SpawnEffect { effect, position } => {
                events.push(DialogueActionEvent::SpawnEffect { effect: effect.clone(), position: *position });
            },
            DialogueAction::PlaySound(sound) => {
                events.push(DialogueActionEvent::PlaySound(sound.clone()));
            },
            DialogueAction::Wait(duration) => {
                action_state.is_waiting = true;
                action_state.wait_timer = *duration;
            },
            DialogueAction::SetWeather(weather) => {
                events.push(DialogueActionEvent::SetWeather(weather.clone()));
            },
            DialogueAction::SetTime(time) => {
                events.push(DialogueActionEvent::SetTime(*time));
            },
        }
        i = i + 1;
    }
    assert(node.actions@.take(node.actions@.len() as int) =~= node.actions@);
    events
}

/// Runs the action timers by `delta`: a wait counts down and ends at zero;
/// a close-up's elapsed time grows (saturating) and the close-up ends once
/// it has lasted its duration. Returns the close-up as it stands this frame
/// (before it ends), for the camera to follow.
pub fn dialogue_action_executor_system(action_state: &mut DialogueActionState, delta: u32) -> (shown: Option<
    CameraFocusData,
>)
    ensures
        old(action_state).is_waiting && old(action_state).wait_timer > delta ==> final(action_state).is_waiting
            && final(action_state).wait_timer == old(action_state).wait_timer - delta,
        old(action_state).is_waiting && old(action_state).wait_timer <= delta ==> !final(action_state).is_waiting
            && final(action_state).wait_timer == 0,
        !old(action_state).is_waiting ==> !final(action_state).is_waiting && final(action_state).wait_timer == old(
            action_state,
        ).wait_timer,
        old(action_state).camera_focus is None ==> shown is None && final(action_state).camera_focus is None,
        old(action_state).camera_focus matches Some(f) ==> ({
            let elapsed = if f.elapsed + delta > u32::MAX { u32::MAX } else { (f.elapsed + delta) as u32 };
            let g = CameraFocusData { elapsed, ..f };
            &&& shown == Some(g)
            &&& elapsed >= f.duration ==> final(action_state).camera_focus is None
            &&& elapsed < f.duration ==> final(action_state).camera_focus == Some(g)
        }),
        final(action_state).last_processed_node == old(action_state).last_processed_node,
{
    if action_state.is_waiting {
        if action_state.wait_timer > delta {
            action_state.wait_timer = action_state.wait_timer - delta;
        } else {
            action_state.is_waiting = false;
            action_state.wait_timer = 0;
        }
    }
    match action_state.camera_focus {
        None => None,
        Some(f) => {
            let mut g = f;
            g.elapsed = f.elapsed.saturating_add(delta);
            if g.elapsed >= g.duration {
                action_state.camera_focus = None;
            } else {
                action_state.camera_focus = Some(g);
            }
            Some(g)
        },
    }
}

} // verus!
