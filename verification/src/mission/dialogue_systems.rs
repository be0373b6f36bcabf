//! Dialogue logic: conditions on options, consequences of choices, text
//! with variables, typing, the player's input and the automatic advance.
//!
//! Times are in milliseconds; typing progress in thousandths.
use vstd::prelude::*;
use crate::economy::wallet::{PlayerWallet, add_cash_post};
use crate::mission::story_data::types::{DialogueId, StoryMissionStatus};
use crate::mission::story_data::conditions::FailCondition;
use crate::mission::story_manager::{
    StoryMissionManager, flag_in, manager_wf, performance_has_room, status_in, with_death, same_progress,
};
use crate::mission::unlocks::{UnlockManager, item_keys, unlocks_wf};
use crate::mission::relationship::{RelationshipManager, affinity, clamp_affinity};
use crate::economy::input::PressedKeys;
use crate::text::{push_decimal, decimal};
use crate::mission::dialogue::{
    DialogueHistoryEntry, DialogueSpeaker, ActiveDialogue, DialogueChoice, DialogueCondition, DialogueConsequence, DialogueDatabase, DialogueEvent,
    DialogueNode, DialogueSettings, DialogueState, DialogueTree, participant_value, participants_wf,
    set_participant, NpcDialogueData, SpeakerEmotion, create_sample_dialogue, sample_dialogue_lines, tree_closed, end_reachable, has_branch, node_is, option_is,
    reaches_end,
};
use crate::mission::side_dialogues::{register_side_dialogues, side_dialogue_lines};

verus! {

/// Whether a condition holds for the story state, the player's cash, the
/// unlocks and the relationships.
pub open spec fn condition_holds(
    c: DialogueCondition,
    m: StoryMissionManager,
    cash: i32,
    u: UnlockManager,
    r: RelationshipManager,
) -> bool
    decreases c,
{
    match c {
        DialogueCondition::HasFlag(f) => flag_in(m.story_flags@, f@),
        DialogueCondition::NotHasFlag(f) => !flag_in(m.story_flags@, f@),
        DialogueCondition::HasMoney(a) => cash >= a,
        DialogueCondition::HasItem { item_id, count } => item_keys(u.unlocked_items@).contains(item_id@),
        DialogueCondition::MissionCompleted(id) => status_in(m.mission_states@, id) == StoryMissionStatus::Completed,
        DialogueCondition::RelationshipMin { npc_id, min } => affinity(r.relationships@, npc_id) >= min,
        DialogueCondition::All(v) => forall|i: int|
            0 <= i < v@.len() ==> condition_holds(#[trigger] v@[i], m, cash, u, r),
        DialogueCondition::Any(v) => exists|i: int|
            0 <= i < v@.len() && condition_holds(#[trigger] v@[i], m, cash, u, r),
    }
}

/// Whether a condition holds (see `condition_holds`).
pub fn check_dialogue_condition(
    condition: &DialogueCondition,
    story_manager: &StoryMissionManager,
    wallet: &PlayerWallet,
    unlocks: &UnlockManager,
    relationship: &RelationshipManager,
) -> (b: bool)
    requires
        manager_wf(story_manager),
    ensures
        b == condition_holds(*condition, *story_manager, wallet.cash, *unlocks, *relationship),
    decreases condition,
{
    match condition {
        DialogueCondition::HasFlag(flag) => story_manager.get_flag(flag.as_str()),
        DialogueCondition::NotHasFlag(flag) => !story_manager.get_flag(flag.as_str()),
        DialogueCondition::HasMoney(amount) => wallet.cash >= *amount,
        DialogueCondition::HasItem { item_id, count } => unlocks.is_item_unlocked(item_id.as_str()),
        DialogueCondition::MissionCompleted(mission_id) => story_manager.get_mission_status(*mission_id)
            == StoryMissionStatus::Completed,
        DialogueCondition::RelationshipMin { npc_id, min } => relationship.get_relationship(*npc_id) >= *min,
        DialogueCondition::All(conditions) => {
            let mut i: usize = 0;
            while i < conditions.len()
                invariant
                    0 <= i <= conditions@.len(),
                    manager_wf(story_manager),
                    *condition == DialogueCondition::All(*conditions),
                    forall|j: int| 0 <= j < i ==> condition_holds(
                        #[trigger] conditions@[j],
                        *story_manager,
                        wallet.cash,
                        *unlocks,
                        *relationship,
                    ),
                decreases conditions.len() - i,
            {
                proof {
                    assert(decreases_to!(*condition => condition->All_0));
                    assert(decreases_to!(condition->All_0 => condition->All_0@));
                    assert(decreases_to!(condition->All_0@ => condition->All_0@[i as int]));
                }
                if !check_dialogue_condition(&conditions[i], story_manager, wallet, unlocks, relationship) {
                    assert(!condition_holds(conditions@[i as int], *story_manager, wallet.cash, *unlocks, *relationship));
                    assert(!condition_holds(*condition, *story_manager, wallet.cash, *unlocks, *relationship));
                    return false;
                }
                i = i + 1;
            }
            true
        },
        DialogueCondition::Any(conditions) => {
            let mut i: usize = 0;
            while i < conditions.len()
                invariant
                    0 <= i <= conditions@.len(),
                    manager_wf(story_manager),
                    *condition == DialogueCondition::Any(*conditions),
                    forall|j: int| 0 <= j < i ==> !condition_holds(
                        #[trigger] conditions@[j],
                        *story_manager,
                        wallet.cash,
                        *unlocks,
                        *relationship,
                    ),
                decreases conditions.len() - i,
            {
                proof {
                    assert(decreases_to!(*condition => condition->Any_0));
                    assert(decreases_to!(condition->Any_0 => condition->Any_0@));
                    assert(decreases_to!(condition->Any_0@ => condition->Any_0@[i as int]));
                }
                if check_dialogue_condition(&conditions[i], story_manager, wallet, unlocks, relationship) {
                    assert(condition_holds(conditions@[i as int], *story_manager, wallet.cash, *unlocks, *relationship));
                    assert(condition_holds(*condition, *story_manager, wallet.cash, *unlocks, *relationship));
                    return true;
                }
                i = i + 1;
            }
            false
        },
    }
}

/// The options of a list that the player is offered, in order.
pub open spec fn offered_choices(
    choices: Seq<DialogueChoice>,
    m: StoryMissionManager,
    cash: i32,
    u: UnlockManager,
    r: RelationshipManager,
) -> Seq<DialogueChoice>
    decreases choices.len(),
{
    if choices.len() == 0 {
        Seq::empty()
    } else {
        let rest = offered_choices(choices.drop_last(), m, cash, u, r);
        let c = choices.last();
        if c.condition is None || condition_holds(c.condition->0, m, cash, u, r) {
            rest.push(c)
        } else {
            rest
        }
    }
}

/// The options of a node that the player is offered: those without a
/// condition, and those whose condition holds.
pub fn get_valid_choices<'a>(
    node: &'a DialogueNode,
    story_manager: &StoryMissionManager,
    wallet: &PlayerWallet,
    unlocks: &UnlockManager,
    relationship: &RelationshipManager,
) -> (r: Vec<&'a DialogueChoice>)
    requires
        manager_wf(story_manager),
    ensures
        r@.len() == offered_choices(node.choices@, *story_manager, wallet.cash, *unlocks, *relationship).len(),
        forall|i: int| 0 <= i < r@.len() ==> *r@[i] == offered_choices(
            node.choices@,
            *story_manager,
            wallet.cash,
            *unlocks,
            *relationship,
        )[i],
{
    let mut out: Vec<&DialogueChoice> = Vec::new();
    let mut i: usize = 0;
    while i < node.choices.len()
        invariant
            0 <= i <= node.choices@.len(),
            manager_wf(story_manager),
            out@.len() == offered_choices(node.choices@.take(i as int), *story_manager, wallet.cash, *unlocks, *relationship).len(),
            forall|j: int| 0 <= j < out@.len() ==> *out@[j] == offered_choices(
                node.choices@.take(i as int),
                *story_manager,
                wallet.cash,
                *unlocks,
                *relationship,
            )[j],
        decreases node.choices.len() - i,
    {
        let choice = &node.choices[i];
        assert(node.choices@.take(i as int + 1).drop_last() =~= node.choices@.take(i as int));
        let keep = match &choice.condition {
            None => true,
            Some(c) => check_dialogue_condition(c, story_manager, wallet, unlocks, relationship),
        };
        if keep {
            out.push(choice);
        }
        i = i + 1;
    }
    assert(node.choices@.take(node.choices@.len() as int) =~= node.choices@);
    out
}

/// The state a dialogue consequence works on: the story manager, the
/// wallet, the unlocks and the relationships.
pub type DialogueWorld = (StoryMissionManager, PlayerWallet, UnlockManager, RelationshipManager);

/// Two managers agree on everything but the story flags.
pub open spec fn same_but_flags(a: StoryMissionManager, b: StoryMissionManager) -> bool {
    &&& a.mission_states == b.mission_states
    &&& a.current_mission == b.current_mission
    &&& a.checkpoint == b.checkpoint
    &&& a.current_performance == b.current_performance
    &&& a.mission_ratings == b.mission_ratings
    &&& a.last_completion_result == b.last_completion_result
    &&& same_progress(&a, &b)
}

/// Two managers agree on everything but the mission states.
pub open spec fn same_but_states(a: StoryMissionManager, b: StoryMissionManager) -> bool {
    &&& a.story_flags == b.story_flags
    &&& a.current_mission == b.current_mission
    &&& a.checkpoint == b.checkpoint
    &&& a.current_performance == b.current_performance
    &&& a.mission_ratings == b.mission_ratings
    &&& a.last_completion_result == b.last_completion_result
    &&& same_progress(&a, &b)
}

/// The manager after failing its mission because the player died (see
/// `StoryMissionManager::fail_current_mission`).
pub open spec fn failed_by_death(a: StoryMissionManager, b: StoryMissionManager) -> bool {
    &&& b.current_mission is None
    &&& a.current_mission is None ==> b.mission_states == a.mission_states && b.current_performance
        == a.current_performance
    &&& a.current_mission is Some ==> {
        let id = a.current_mission->0.mission_id;
        &&& a.checkpoint is Some ==> b.mission_states@ == a.mission_states@.insert(id, StoryMissionStatus::Available)
            && b.current_performance == with_death(a.current_performance)
        &&& a.checkpoint is None ==> b.mission_states@ == a.mission_states@.insert(id, StoryMissionStatus::Failed)
            && b.current_performance is None
    }
    &&& b.story_flags == a.story_flags
    &&& b.checkpoint == a.checkpoint
    &&& b.mission_ratings == a.mission_ratings
    &&& b.last_completion_result == a.last_completion_result
    &&& same_progress(&b, &a)
}

/// What one consequence does to the world.
pub open spec fn consequence_step(c: DialogueConsequence, w0: DialogueWorld, w1: DialogueWorld) -> bool {
    match c {
        DialogueConsequence::SetStoryFlag { flag, value } => {
            &&& flag_in(w1.0.story_flags@, flag@) == value
            &&& forall|name: Seq<char>| name != flag@ ==> flag_in(w1.0.story_flags@, name) == flag_in(
                w0.0.story_flags@,
                name,
            )
            &&& same_but_flags(w0.0, w1.0)
            &&& w1.1 == w0.1 && w1.2 == w0.2 && w1.3 == w0.3
        },
        DialogueConsequence::ChangeRelationship { npc_id, delta } => {
            &&& w1.3.relationships@ == w0.3.relationships@.insert(
                npc_id,
                clamp_affinity(affinity(w0.3.relationships@, npc_id) + delta) as i32,
            )
            &&& w1.0 == w0.0 && w1.1 == w0.1 && w1.2 == w0.2
        },
        DialogueConsequence::GiveMoney(amount) => {
            &&& w1.1 == add_cash_post(w0.1, amount)
            &&& w1.0 == w0.0 && w1.2 == w0.2 && w1.3 == w0.3
        },
        DialogueConsequence::GiveItem { item_id, count } => {
            &&& item_keys(w1.2.unlocked_items@) == item_keys(w0.2.unlocked_items@).insert(item_id@)
            &&& w1.2.unlocked_areas == w0.2.unlocked_areas
            &&& w1.0 == w0.0 && w1.1 == w0.1 && w1.3 == w0.3
        },
        DialogueConsequence::UnlockMission(id) => {
            &&& status_in(w0.0.mission_states@, id) == StoryMissionStatus::Locked ==> w1.0.mission_states@
                == w0.0.mission_states@.insert(id, StoryMissionStatus::Available)
            &&& status_in(w0.0.mission_states@, id) != StoryMissionStatus::Locked ==> w1.0.mission_states@
                == w0.0.mission_states@
            &&& same_but_states(w0.0, w1.0)
            &&& w1.1 == w0.1 && w1.2 == w0.2 && w1.3 == w0.3
        },
        DialogueConsequence::FailMission => {
            &&& failed_by_death(w0.0, w1.0)
            &&& w1.1 == w0.1 && w1.2 == w0.2 && w1.3 == w0.3
        },
        _ => w1 == w0,
    }
}

/// `ws` are the worlds passed through when applying `cs` in order: each
/// consequence takes one world to the next.
pub open spec fn steps_through(cs: Seq<DialogueConsequence>, ws: Seq<DialogueWorld>) -> bool {
    &&& ws.len() == cs.len() + 1
    &&& forall|i: int| 0 <= i < cs.len() ==> consequence_step(#[trigger] cs[i], ws[i], ws[i + 1])
}

/// Applying `cs` in order can take the world `w0` to `w1`.
pub open spec fn consequences_chain(cs: Seq<DialogueConsequence>, w0: DialogueWorld, w1: DialogueWorld) -> bool {
    exists|ws: Seq<DialogueWorld>| #[trigger] steps_through(cs, ws) && ws[0] == w0 && ws.last() == w1
}

/// Applies consequences in order: flags set, relationships changed (kept
/// within -100..=100), money given, items unlocked, missions unlocked,
/// the current mission failed; sounds, combat, phase skips and custom
/// events are left to other systems and change nothing here.
pub fn process_dialogue_consequences(
    consequences: &Vec<DialogueConsequence>,
    story_manager: &mut StoryMissionManager,
    wallet: &mut PlayerWallet,
    unlocks: &mut UnlockManager,
    relationship: &mut RelationshipManager,
)
    requires
        manager_wf(old(story_manager)),
        unlocks_wf(*old(unlocks)),
        old(story_manager).current_mission is Some ==> performance_has_room(old(story_manager)),
    ensures
        manager_wf(final(story_manager)),
        unlocks_wf(*final(unlocks)),
        final(story_manager).current_mission is Some ==> performance_has_room(final(story_manager)),
        consequences_chain(
            consequences@,
            (*old(story_manager), *old(wallet), *old(unlocks), *old(relationship)),
            (*final(story_manager), *final(wallet), *final(unlocks), *final(relationship)),
        ),
{
    let ghost w0: DialogueWorld = (*story_manager, *wallet, *unlocks, *relationship);
    let ghost mut ws: Seq<DialogueWorld> = seq![w0];
    let mut i: usize = 0;
    while i < consequences.len()
        invariant
            0 <= i <= consequences@.len(),
            w0 == (*old(story_manager), *old(wallet), *old(unlocks), *old(relationship)),
            manager_wf(story_manager),
            unlocks_wf(*unlocks),
            story_manager.current_mission is Some ==> performance_has_room(story_manager),
            steps_through(consequences@.take(i as int), ws),
            ws[0] == w0,
            ws.last() == (*story_manager, *wallet, *unlocks, *relationship),
        decreases consequences.len() - i,
    {
        let ghost mid: DialogueWorld = (*story_manager, *wallet, *unlocks, *relationship);
        match &consequences[i] {
            DialogueConsequence::SetStoryFlag { flag, value } => {
                story_manager.set_flag(flag.clone(), *value);
            },
            DialogueConsequence::ChangeRelationship { npc_id, delta } => {
                relationship.change_relationship(*npc_id, *delta);
            },
            DialogueConsequence::GiveMoney(amount) => {
                wallet.add_cash(*amount);
            },
            DialogueConsequence::GiveItem { item_id, count } => {
                unlocks.unlock_item(item_id.clone());
            },
            DialogueConsequence::UnlockMission(mission_id) => {
                story_manager.unlock_mission(*mission_id);
            },
            DialogueConsequence::FailMission => {
                story_manager.fail_current_mission(FailCondition::PlayerDeath);
            },
            DialogueConsequence::SkipPhase => {},
            DialogueConsequence::TriggerCombat => {},
            DialogueConsequence::PlaySound(sound) => {},
            DialogueConsequence::CustomEvent(event) => {},
        }
        proof {
            let now: DialogueWorld = (*story_manager, *wallet, *unlocks, *relationship);
            assert(consequence_step(consequences@[i as int], mid, now));
            let ws0 = ws;
            ws = ws.push(now);
            let cs1 = consequences@.take(i as int + 1);
            assert forall|j: int| 0 <= j < cs1.len() implies consequence_step(#[trigger] cs1[j], ws[j], ws[j + 1]) by {
                if j < i {
                    assert(cs1[j] == consequences@.take(i as int)[j]);
                    assert(ws[j] == ws0[j] && ws[j + 1] == ws0[j + 1]);
                } else {
                    assert(ws[j] == mid);
                }
            }
        }
        i = i + 1;
    }
    assert(consequences@.take(consequences@.len() as int) =~= consequences@);
    assert(steps_through(consequences@, ws));
    assert(consequences@.take(consequences@.len() as int) =~= consequences@);
}

/// What `str::replace` gives for a text, a pattern and its replacement.
pub uninterp spec fn replaced(text: Seq<char>, from: Seq<char>, to: Seq<char>) -> Seq<char>;

/// Calls `str::replace`: every match of `from` in `text` replaced by `to`.
/// The contract only names the result; how matches are found is left to
/// the standard library.
#[verifier::external_body]
fn replace_text(text: &str, from: &str, to: &str) -> (r: String)
    ensures
        r@ == replaced(text@, from@, to@),
{
    text.replace(from, to)
}

/// The text after filling in the variables of `ps` in order: each
/// `{name}` replaced by its value.
pub open spec fn substituted(text: Seq<char>, ps: Seq<(String, String)>) -> Seq<char>
    decreases ps.len(),
{
    if ps.len() == 0 {
        text
    } else {
        replaced(substituted(text, ps.drop_last()), seq!['{'] + ps.last().0@ + seq!['}'], ps.last().1@)
    }
}

/// Fills in the variables of a line: each `{name}` becomes its value.
pub fn substitute_variables(text: &str, participants: &Vec<(String, String)>) -> (r: String)
    ensures
        r@ == substituted(text@, participants@),
{
    let mut result = text.to_owned();
    let mut i: usize = 0;
    while i < participants.len()
        invariant
            0 <= i <= participants@.len(),
            result@ == substituted(text@, participants@.take(i as int)),
        decreases participants.len() - i,
    {
        let mut pattern = "{".to_owned();
        pattern.append(participants[i].0.as_str());
        pattern.append("}");
        proof {
            reveal_strlit("{");
            reveal_strlit("}");
            assert(pattern@ =~= seq!['{'] + participants@[i as int].0@ + seq!['}']);
            assert(participants@.take(i as int + 1).drop_last() =~= participants@.take(i as int));
        }
        result = replace_text(result.as_str(), pattern.as_str(), participants[i].1.as_str());
        i = i + 1;
    }
    assert(participants@.take(participants@.len() as int) =~= participants@);
    result
}

/// How many characters of `total` are shown at `progress` thousandths,
/// rounded to the nearest, never more than `total`.
pub open spec fn visible_chars(total: nat, progress: nat) -> nat {
    let v = (total * progress + 500) / 1000;
    if v > total { total } else { v as nat }
}

/// The part of a line shown at `progress` thousandths of typing, with its
/// variables filled in.
pub fn get_displayed_text(text: &str, progress: u32, participants: &Vec<(String, String)>) -> (r: String)
    ensures
        ({
            let full = substituted(text@, participants@);
            r@ == full.take(visible_chars(full.len(), progress as nat) as int)
        }),
{
    let full = substitute_variables(text, participants);
    let total = full.as_str().unicode_len();
    assert(total as u128 * progress as u128 <= 0xffff_ffff_ffff_ffffu128 * 0xffff_ffffu128) by (nonlinear_arith)
        requires
            total <= 0xffff_ffff_ffff_ffffu64,
            progress <= 0xffff_ffffu32,
    ;
    let v: u128 = (total as u128 * progress as u128 + 500) / 1000;
    let visible: usize = if v > total as u128 { total } else { v as usize };
    let shown = full.as_str().substring_char(0, visible);
    proof {
        assert(full@.subrange(0, visible as int) =~= full@.take(visible as int));
    }
    shown.to_owned()
}

/// The dialogue at `node`: its typing restarted and no option picked.
pub open spec fn at_node(a: ActiveDialogue, node: u32) -> ActiveDialogue {
    ActiveDialogue { current_node: node, typing_progress: 0, typing_complete: false, selected_choice: None, ..a }
}

/// Moves the dialogue to a node.
fn handle_go_to_node(active: &mut ActiveDialogue, node_id: u32)
    ensures
        *final(active) == at_node(*old(active), node_id),
{
    active.current_node = node_id;
    active.typing_progress = 0;
    active.typing_complete = false;
    active.selected_choice = None;
}

/// The dialogue just started: at the tree's start node, from time `now`,
/// with the given variables.
pub open spec fn started(a: ActiveDialogue, id: DialogueId, start: u32, now: u64, ps: Seq<(String, String)>) -> bool {
    &&& a.dialogue_id == id
    &&& a.current_node == start
    &&& a.typing_progress == 0
    &&& !a.typing_complete
    &&& a.can_skip
    &&& a.selected_choice is None
    &&& a.start_time == now
    &&& participants_wf(a.participants@)
    &&& forall|k: Seq<char>| #[trigger] participant_value(a.participants@, k) == participant_value(ps, k)
}

/// Starts a dialogue from the database (nothing happens when it is not
/// there).
fn handle_dialogue_start(
    dialogue_id: DialogueId,
    participants: &Vec<(String, String)>,
    dialogue_state: &mut DialogueState,
    database: &DialogueDatabase,
    now: u64,
)
    requires
        participants_wf(participants@),
    ensures
        !database.dialogues@.contains_key(dialogue_id) ==> final(dialogue_state).active_dialogue == old(
            dialogue_state,
        ).active_dialogue,
        database.dialogues@.contains_key(dialogue_id) ==> final(dialogue_state).active_dialogue is Some && started(
            final(dialogue_state).active_dialogue->0,
            dialogue_id,
            database.dialogues@[dialogue_id].start_node,
            now,
            participants@,
        ),
        final(dialogue_state).history == old(dialogue_state).history,
        final(dialogue_state).max_history == old(dialogue_state).max_history,
{
    let tree = match database.get_dialogue(dialogue_id) {
        Some(t) => t,
        None => {
            return;
        },
    };
    let mut active = ActiveDialogue::new(dialogue_id, tree.start_node);
    active.start_time = now;
    let mut i: usize = 0;
    while i < participants.len()
        invariant
            0 <= i <= participants@.len(),
            participants_wf(participants@),
            participants_wf(active.participants@),
            active.dialogue_id == dialogue_id,
            active.current_node == tree.start_node,
            active.typing_progress == 0,
            !active.typing_complete,
            active.can_skip,
            active.selected_choice is None,
            active.start_time == now,
            forall|k: Seq<char>| #[trigger] participant_value(active.participants@, k) == participant_value(
                participants@.take(i as int),
                k,
            ),
        decreases participants.len() - i,
    {
        let ghost before = active.participants@;
        set_participant(&mut active.participants, participants[i].0.as_str(), participants[i].1.as_str());
        proof {
            let t0 = participants@.take(i as int);
            let t1 = participants@.take(i as int + 1);
            let key = participants@[i as int].0@;
            assert(t1[i as int] == participants@[i as int]);
            assert forall|k: Seq<char>| #[trigger] participant_value(active.participants@, k) == participant_value(t1, k) by {
                if k == key {
                    let j = choose|j: int| 0 <= j < t1.len() && (#[trigger] t1[j]).0@ == k;
                    if j != i {
                        assert(t1[j] == participants@[j]);
                        if j < i {
                            assert(participants@[j].0@ != participants@[i as int].0@);
                        }
                    }
                } else {
                    if exists|j: int| 0 <= j < t1.len() && (#[trigger] t1[j]).0@ == k {
                        let j = choose|j: int| 0 <= j < t1.len() && (#[trigger] t1[j]).0@ == k;
                        assert(j < i);
                        assert(t0[j] == t1[j]);
                        let j0 = choose|j: int| 0 <= j < t0.len() && (#[trigger] t0[j]).0@ == k;
                        assert(t1[j0] == t0[j0]);
                        if j0 != j {
                            assert(participants@[j0] == t0[j0] && participants@[j] == t0[j]);
                            if j0 < j {
                                assert(participants@[j0].0@ != participants@[j].0@);
                            } else {
                                assert(participants@[j].0@ != participants@[j0].0@);
                            }
                        }
                    }
                    if exists|j: int| 0 <= j < t0.len() && (#[trigger] t0[j]).0@ == k {
                        let j = choose|j: int| 0 <= j < t0.len() && (#[trigger] t0[j]).0@ == k;
                        assert(t1[j] == t0[j]);
                    }
                }
            }
        }
        i = i + 1;
    }
    assert(participants@.take(participants@.len() as int) =~= participants@);
    dialogue_state.active_dialogue = Some(active);
}

/// Whether an event list starts only dialogues whose variables are named
/// once each.
pub open spec fn events_wf(events: Seq<DialogueEvent>) -> bool {
    forall|i: int| 0 <= i < events.len() ==> match #[trigger] events[i] {
        DialogueEvent::Start { dialogue_id, participants } => participants_wf(participants@),
        _ => true,
    }
}

/// What one event does to the dialogue being played (`now` is the time).
pub open spec fn event_applied(
    a0: Option<ActiveDialogue>,
    a1: Option<ActiveDialogue>,
    e: DialogueEvent,
    dialogues: Map<DialogueId, DialogueTree>,
    now: u64,
) -> bool {
    match e {
        DialogueEvent::Start { dialogue_id, participants } => {
            &&& !dialogues.contains_key(dialogue_id) ==> a1 == a0
            &&& dialogues.contains_key(dialogue_id) ==> a1 is Some && started(
                a1->0,
                dialogue_id,
                dialogues[dialogue_id].start_node,
                now,
                participants@,
            )
        },
        DialogueEvent::GoToNode(n) => match a0 {
            Some(a) => a1 == Some(at_node(a, n)),
            None => a1 is None,
        },
        DialogueEvent::SelectChoice(c) => match a0 {
            Some(a) => a1 == Some(ActiveDialogue { selected_choice: Some(c), ..a }),
            None => a1 is None,
        },
        DialogueEvent::SkipTyping => match a0 {
            Some(a) => a1 == Some(ActiveDialogue { typing_progress: 1000, typing_complete: true, ..a }),
            None => a1 is None,
        },
        DialogueEvent::End => a1 is None,
        DialogueEvent::Completed(id) => a1 == a0,
    }
}

/// Handles the events of a frame in order: starting a dialogue (when it is
/// in the database), moving to a node, picking an option, skipping the
/// typing, ending. The history is not touched.
pub fn dialogue_event_handler(
    events: &Vec<DialogueEvent>,
    dialogue_state: &mut DialogueState,
    database: &DialogueDatabase,
    now: u64,
)
    requires
        events_wf(events@),
    ensures
        exists|states: Seq<Option<ActiveDialogue>>| {
            &&& states.len() == events@.len() + 1
            &&& states[0] == old(dialogue_state).active_dialogue
            &&& states.last() == final(dialogue_state).active_dialogue
            &&& forall|i: int| 0 <= i < events@.len() ==> event_applied(
                #[trigger] states[i],
                states[i + 1],
                events@[i],
                database.dialogues@,
                now,
            )
        },
        final(dialogue_state).history == old(dialogue_state).history,
        final(dialogue_state).max_history == old(dialogue_state).max_history,
{
    let ghost mut states: Seq<Option<ActiveDialogue>> = seq![dialogue_state.active_dialogue];
    let mut i: usize = 0;
    while i < events.len()
        invariant
            0 <= i <= events@.len(),
            events_wf(events@),
            states.len() == i + 1,
            states[0] == old(dialogue_state).active_dialogue,
            states.last() == dialogue_state.active_dialogue,
            forall|j: int| 0 <= j < i ==> event_applied(#[trigger] states[j], states[j + 1], events@[j], database.dialogues@, now),
            dialogue_state.history == old(dialogue_state).history,
            dialogue_state.max_history == old(dialogue_state).max_history,
        decreases events.len() - i,
    {
        let ghost a0 = dialogue_state.active_dialogue;
        match &events[i] {
            DialogueEvent::Start { dialogue_id, participants } => {
                assert(participants_wf(participants@)) by {
                    assert(events@[i as int] matches DialogueEvent::Start { .. });
                }
                handle_dialogue_start(*dialogue_id, participants, dialogue_state, database, now);
            },
            DialogueEvent::GoToNode(node_id) => {
                match dialogue_state.active_dialogue.take() {
                    Some(mut a) => {
                        handle_go_to_node(&mut a, *node_id);
                        dialogue_state.active_dialogue = Some(a);
                    },
                    None => {},
                }
            },
            DialogueEvent::SelectChoice(choice_index) => {
                match dialogue_state.active_dialogue.take() {
                    Some(mut a) => {
                        a.selected_choice = Some(*choice_index);
                        dialogue_state.active_dialogue = Some(a);
                    },
                    None => {},
                }
            },
            DialogueEvent::SkipTyping => {
                match dialogue_state.active_dialogue.take() {
                    Some(mut a) => {
                        a.typing_progress = 1000;
                        a.typing_complete = true;
                        dialogue_state.active_dialogue = Some(a);
                    },
                    None => {},
                }
            },
            DialogueEvent::End => {
                dialogue_state.active_dialogue = None;
            },
            DialogueEvent::Completed(id) => {},
        }
        proof {
            let ghost s0 = states;
            states = states.push(dialogue_state.active_dialogue);
            assert(event_applied(a0, dialogue_state.active_dialogue, events@[i as int], database.dialogues@, now));
            assert forall|j: int| 0 <= j < i + 1 implies event_applied(
                #[trigger] states[j],
                states[j + 1],
                events@[j],
                database.dialogues@,
                now,
            ) by {
                if j < i {
                    assert(states[j] == s0[j] && states[j + 1] == s0[j + 1]);
                }
            }
        }
        i = i + 1;
    }
}

/// The typing progress after `delta` milliseconds at `speed` characters
/// per second on a line of `total` characters (done at once when either
/// is zero), capped at 1000.
pub open spec fn typed_progress(progress: int, speed: int, delta: int, total: int) -> int {
    if total == 0 || speed == 0 {
        1000
    } else if progress + speed * delta / total >= 1000 {
        1000
    } else {
        progress + speed * delta / total
    }
}

/// Runs the typing of the current line by `delta` milliseconds: at the
/// node's typing speed (or the default one), over the line with its
/// variables filled in. Nothing happens without a dialogue, once the line
/// is typed, or when the dialogue or node is missing.
pub fn dialogue_typing_system(
    dialogue_state: &mut DialogueState,
    database: &DialogueDatabase,
    settings: &DialogueSettings,
    delta: u64,
)
    ensures
        final(dialogue_state).history == old(dialogue_state).history,
        final(dialogue_state).max_history == old(dialogue_state).max_history,
        ({
            let a0 = old(dialogue_state).active_dialogue;
            if a0 is None || a0->0.typing_complete || !database.dialogues@.contains_key(a0->0.dialogue_id)
                || !database.dialogues@[a0->0.dialogue_id].nodes@.contains_key(a0->0.current_node) {
                final(dialogue_state).active_dialogue == a0
            } else {
                let a = a0->0;
                let node = database.dialogues@[a.dialogue_id].nodes@[a.current_node];
                let speed = if node.typing_speed > 0 { node.typing_speed } else { settings.default_typing_speed };
                let total = substituted(node.text@, a.participants@).len();
                let p = typed_progress(a.typing_progress as int, speed as int, delta as int, total as int);
                final(dialogue_state).active_dialogue == Some(
                    ActiveDialogue { typing_progress: p as u32, typing_complete: p == 1000, ..a },
                )
            }
        }),
{
    let mut active = match dialogue_state.active_dialogue.take() {
        Some(a) => a,
        None => {
            return;
        },
    };
    if active.typing_complete {
        dialogue_state.active_dialogue = Some(active);
        return;
    }
    let tree = match database.get_dialogue(active.dialogue_id) {
        Some(t) => t,
        None => {
            dialogue_state.active_dialogue = Some(active);
            return;
        },
    };
    let node = match tree.get_node(active.current_node) {
        Some(n) => n,
        None => {
            dialogue_state.active_dialogue = Some(active);
            return;
        },
    };
    let speed: u32 = if node.typing_speed > 0 { node.typing_speed } else { settings.default_typing_speed };
    let text = substitute_variables(node.text.as_str(), &active.participants);
    let total = text.as_str().unicode_len();
    if total == 0 || speed == 0 {
        active.typing_progress = 1000;
        active.typing_complete = true;
        dialogue_state.active_dialogue = Some(active);
        return;
    }
    assert(speed as u128 * delta as u128 <= 0xffff_ffffu128 * 0xffff_ffff_ffff_ffffu128) by (nonlinear_arith)
        requires
            speed <= 0xffff_ffffu32,
            delta <= 0xffff_ffff_ffff_ffffu64,
    ;
    let step: u128 = speed as u128 * delta as u128 / total as u128;
    if active.typing_progress as u128 + step >= 1000 {
        active.typing_progress = 1000;
        active.typing_complete = true;
    } else {
        active.typing_progress = (active.typing_progress as u128 + step) as u32;
    }
    dialogue_state.active_dialogue = Some(active);
}

/// The digit key (1 to 4) that picks option `index`, if any.
pub fn get_choice_key(index: usize) -> (k: Option<u8>)
    ensures
        index < 4 ==> k == Some((index + 1) as u8),
        index >= 4 ==> k is None,
{
    if index < 4 {
        Some((index + 1) as u8)
    } else {
        None
    }
}

/// Whether digit key `d` (1 to 5) was pressed.
pub open spec fn digit_down(keys: PressedKeys, d: int) -> bool {
    if d == 1 {
        keys.digit1
    } else if d == 2 {
        keys.digit2
    } else if d == 3 {
        keys.digit3
    } else if d == 4 {
        keys.digit4
    } else if d == 5 {
        keys.digit5
    } else {
        false
    }
}

fn digit_pressed(keys: &PressedKeys, d: u8) -> (b: bool)
    ensures
        b == digit_down(*keys, d as int),
{
    if d == 1 {
        keys.digit1
    } else if d == 2 {
        keys.digit2
    } else if d == 3 {
        keys.digit3
    } else if d == 4 {
        keys.digit4
    } else if d == 5 {
        keys.digit5
    } else {
        false
    }
}

/// The option picked with the digit keys among `n` offered: the first of
/// the first four whose digit was pressed.
pub open spec fn picked_option(keys: PressedKeys, n: int) -> Option<int> {
    if n > 0 && keys.digit1 {
        Some(0)
    } else if n > 1 && keys.digit2 {
        Some(1)
    } else if n > 2 && keys.digit3 {
        Some(2)
    } else if n > 3 && keys.digit4 {
        Some(3)
    } else {
        None
    }
}

/// The events sent after picking an option: finishing the dialogue, or
/// going to the option's node.
pub open spec fn choice_events(c: DialogueChoice, dialogue_id: DialogueId) -> Seq<DialogueEvent> {
    if c.ends_dialogue {
        seq![DialogueEvent::Completed(dialogue_id), DialogueEvent::End]
    } else if c.next_node is Some {
        seq![DialogueEvent::GoToNode(c.next_node->0)]
    } else {
        Seq::empty()
    }
}

/// The world after picking an option: its consequences, then (when it ends
/// the dialogue) the tree's completion consequences.
pub open spec fn choice_world(c: DialogueChoice, on_complete: Seq<DialogueConsequence>, w0: DialogueWorld, w1: DialogueWorld) -> bool {
    if c.ends_dialogue {
        exists|mid: DialogueWorld| #[trigger] consequences_chain(c.consequences@, w0, mid) && consequences_chain(on_complete, mid, w1)
    } else {
        consequences_chain(c.consequences@, w0, w1)
    }
}

/// What the world must be for consequences to be applied.
pub open spec fn world_ready(m: &StoryMissionManager, u: UnlockManager) -> bool {
    &&& manager_wf(m)
    &&& unlocks_wf(u)
    &&& m.current_mission is Some ==> performance_has_room(m)
}

/// Picks option `choice_index` of the offered ones: applies its
/// consequences and, when it ends the dialogue, the tree's completion
/// consequences, then reports the dialogue finished; otherwise goes to its
/// node. Nothing happens for an index past the options.
fn select_choice(
    choice_index: usize,
    valid_choices: &Vec<&DialogueChoice>,
    story_manager: &mut StoryMissionManager,
    wallet: &mut PlayerWallet,
    unlocks: &mut UnlockManager,
    relationship: &mut RelationshipManager,
    tree: &DialogueTree,
    dialogue_id: DialogueId,
) -> (events: Vec<DialogueEvent>)
    requires
        world_ready(old(story_manager), *old(unlocks)),
    ensures
        world_ready(final(story_manager), *final(unlocks)),
        choice_index >= valid_choices@.len() ==> events@.len() == 0 && *final(story_manager) == *old(story_manager)
            && *final(wallet) == *old(wallet) && *final(unlocks) == *old(unlocks) && *final(relationship) == *old(
            relationship,
        ),
        choice_index < valid_choices@.len() ==> events@ == choice_events(*valid_choices@[choice_index as int], dialogue_id)
            && choice_world(
            *valid_choices@[choice_index as int],
            tree.on_complete@,
            (*old(story_manager), *old(wallet), *old(unlocks), *old(relationship)),
            (*final(story_manager), *final(wallet), *final(unlocks), *final(relationship)),
        ),
{
    let mut events: Vec<DialogueEvent> = Vec::new();
    if choice_index >= valid_choices.len() {
        return events;
    }
    let choice = valid_choices[choice_index];
    process_dialogue_consequences(&choice.consequences, story_manager, wallet, unlocks, relationship);
    if choice.ends_dialogue {
        let ghost mid: DialogueWorld = (*story_manager, *wallet, *unlocks, *relationship);
        process_dialogue_consequences(&tree.on_complete, story_manager, wallet, unlocks, relationship);
        events.push(DialogueEvent::Completed(dialogue_id));
        events.push(DialogueEvent::End);
        proof {
            assert(events@ =~= seq![DialogueEvent::Completed(dialogue_id), DialogueEvent::End]);
        }
    } else {
        match choice.next_node {
            Some(n) => {
                events.push(DialogueEvent::GoToNode(n));
                proof {
                    assert(events@ =~= seq![DialogueEvent::GoToNode(n)]);
                }
            },
            None => {},
        }
    }
    events
}

/// The events sent when a line without options is advanced: going to the
/// next node, or finishing the dialogue.
pub open spec fn advance_events(node: DialogueNode, dialogue_id: DialogueId) -> Seq<DialogueEvent> {
    if node.next_node is Some {
        seq![DialogueEvent::GoToNode(node.next_node->0)]
    } else {
        seq![DialogueEvent::Completed(dialogue_id), DialogueEvent::End]
    }
}

/// Advances a line without options: to the next node, or, at the end,
/// applies the tree's completion consequences and finishes the dialogue.
fn handle_dialogue_advance(
    node: &DialogueNode,
    tree: &DialogueTree,
    dialogue_id: DialogueId,
    story_manager: &mut StoryMissionManager,
    wallet: &mut PlayerWallet,
    unlocks: &mut UnlockManager,
    relationship: &mut RelationshipManager,
) -> (events: Vec<DialogueEvent>)
    requires
        world_ready(old(story_manager), *old(unlocks)),
    ensures
        world_ready(final(story_manager), *final(unlocks)),
        events@ == advance_events(*node, dialogue_id),
        node.next_node is Some ==> *final(story_manager) == *old(story_manager) && *final(wallet) == *old(wallet)
            && *final(unlocks) == *old(unlocks) && *final(relationship) == *old(relationship),
        node.next_node is None ==> consequences_chain(
            tree.on_complete@,
            (*old(story_manager), *old(wallet), *old(unlocks), *old(relationship)),
            (*final(story_manager), *final(wallet), *final(unlocks), *final(relationship)),
        ),
{
    let mut events: Vec<DialogueEvent> = Vec::new();
    match node.next_node {
        Some(n) => {
            events.push(DialogueEvent::GoToNode(n));
            proof {
                assert(events@ =~= seq![DialogueEvent::GoToNode(n)]);
            }
        },
        None => {
            process_dialogue_consequences(&tree.on_complete, story_manager, wallet, unlocks, relationship);
            events.push(DialogueEvent::Completed(dialogue_id));
            events.push(DialogueEvent::End);
            proof {
                assert(events@ =~= seq![DialogueEvent::Completed(dialogue_id), DialogueEvent::End]);
            }
        },
    }
    events
}

/// Picks the option whose digit key was pressed (the first of the first
/// four), if any.
fn handle_choice_selection(
    keys: &PressedKeys,
    valid_choices: &Vec<&DialogueChoice>,
    story_manager: &mut StoryMissionManager,
    wallet: &mut PlayerWallet,
    unlocks: &mut UnlockManager,
    relationship: &mut RelationshipManager,
    tree: &DialogueTree,
    dialogue_id: DialogueId,
) -> (events: Vec<DialogueEvent>)
    requires
        world_ready(old(story_manager), *old(unlocks)),
    ensures
        world_ready(final(story_manager), *final(unlocks)),
        picked_option(*keys, valid_choices@.len() as int) is None ==> events@.len() == 0 && *final(story_manager)
            == *old(story_manager) && *final(wallet) == *old(wallet) && *final(unlocks) == *old(unlocks)
            && *final(relationship) == *old(relationship),
        picked_option(*keys, valid_choices@.len() as int) matches Some(k) ==> events@ == choice_events(
            *valid_choices@[k],
            dialogue_id,
        ) && choice_world(
            *valid_choices@[k],
            tree.on_complete@,
            (*old(story_manager), *old(wallet), *old(unlocks), *old(relationship)),
            (*final(story_manager), *final(wallet), *final(unlocks), *final(relationship)),
        ),
{
    let mut index: usize = 0;
    while index < valid_choices.len()
        invariant
            0 <= index <= valid_choices@.len(),
            picked_option(*keys, index as int) is None,
            *story_manager == *old(story_manager),
            *wallet == *old(wallet),
            *unlocks == *old(unlocks),
            *relationship == *old(relationship),
            world_ready(story_manager, *unlocks),
        decreases valid_choices.len() - index,
    {
        match get_choice_key(index) {
            None => {},
            Some(key) => {
                if digit_pressed(keys, key) {
                    return select_choice(
                        index,
                        valid_choices,
                        story_manager,
                        wallet,
                        unlocks,
                        relationship,
                        tree,
                        dialogue_id,
                    );
                }
            },
        }
        index = index + 1;
    }
    Vec::new()
}

/// Whether the advance input (space, enter or the left mouse button) was
/// given.
pub open spec fn advance_pressed(keys: PressedKeys, mouse_left: bool) -> bool {
    keys.space || keys.enter || mouse_left
}

/// The player's input on the current line: the advance input skips the
/// typing, or advances a typed line without options; on a typed line with
/// options, a digit key picks one of the options offered. Returns the
/// events to send. Nothing happens without a dialogue, or when its
/// dialogue or node is missing.
pub fn dialogue_input_system(
    dialogue_state: &DialogueState,
    story_manager: &mut StoryMissionManager,
    wallet: &mut PlayerWallet,
    unlocks: &mut UnlockManager,
    relationship: &mut RelationshipManager,
    database: &DialogueDatabase,
    keys: &PressedKeys,
    mouse_left: bool,
) -> (events: Vec<DialogueEvent>)
    requires
        world_ready(old(story_manager), *old(unlocks)),
    ensures
        world_ready(final(story_manager), *final(unlocks)),
        ({
            let a = dialogue_state.active_dialogue;
            let w0 = (*old(story_manager), *old(wallet), *old(unlocks), *old(relationship));
            let w1 = (*final(story_manager), *final(wallet), *final(unlocks), *final(relationship));
            if a is None || !database.dialogues@.contains_key(a->0.dialogue_id)
                || !database.dialogues@[a->0.dialogue_id].nodes@.contains_key(a->0.current_node) {
                events@.len() == 0 && w1 == w0
            } else {
                let tree = database.dialogues@[a->0.dialogue_id];
                let node = tree.nodes@[a->0.current_node];
                let offered = offered_choices(node.choices@, *old(story_manager), old(wallet).cash, *old(unlocks), *old(relationship));
                if advance_pressed(*keys, mouse_left) && !a->0.typing_complete {
                    events@ == seq![DialogueEvent::SkipTyping] && w1 == w0
                } else if advance_pressed(*keys, mouse_left) && node.choices@.len() == 0 {
                    events@ == advance_events(node, a->0.dialogue_id) && (node.next_node is Some ==> w1 == w0)
                        && (node.next_node is None ==> consequences_chain(tree.on_complete@, w0, w1))
                } else if a->0.typing_complete && node.choices@.len() > 0 {
                    match picked_option(*keys, offered.len() as int) {
                        None => events@.len() == 0 && w1 == w0,
                        Some(k) => events@ == choice_events(offered[k], a->0.dialogue_id) && choice_world(
                            offered[k],
                            tree.on_complete@,
                            w0,
                            w1,
                        ),
                    }
                } else {
                    events@.len() == 0 && w1 == w0
                }
            }
        }),
{
    let mut events: Vec<DialogueEvent> = Vec::new();
    let active = match &dialogue_state.active_dialogue {
        Some(a) => a,
        None => {
            return events;
        },
    };
    let tree = match database.get_dialogue(active.dialogue_id) {
        Some(t) => t,
        None => {
            return events;
        },
    };
    let node = match tree.get_node(active.current_node) {
        Some(n) => n,
        None => {
            return events;
        },
    };
    let advance = keys.space || keys.enter || mouse_left;
    if advance {
        if !active.typing_complete {
            events.push(DialogueEvent::SkipTyping);
            proof {
                assert(events@ =~= seq![DialogueEvent::SkipTyping]);
            }
            return events;
        } else if node.choices.len() == 0 {
            return handle_dialogue_advance(node, tree, active.dialogue_id, story_manager, wallet, unlocks, relationship);
        }
    }
    if active.typing_complete && node.choices.len() > 0 {
        let valid = get_valid_choices(node, story_manager, wallet, unlocks, relationship);
        let ghost offered = offered_choices(node.choices@, *story_manager, wallet.cash, *unlocks, *relationship);
        let r = handle_choice_selection(keys, &valid, story_manager, wallet, unlocks, relationship, tree, active.dialogue_id);
        proof {
            if picked_option(*keys, offered.len() as int) is Some {
                let k = picked_option(*keys, offered.len() as int)->0;
                assert(*valid@[k] == offered[k]);
            }
        }
        return r;
    }
    events
}

/// The event that moves a dialogue on by itself: to the next node, or the
/// end.
pub fn perform_auto_advance(next_node: Option<u32>) -> (e: DialogueEvent)
    ensures
        next_node matches Some(n) ==> e == DialogueEvent::GoToNode(n),
        next_node is None ==> e == DialogueEvent::End,
{
    match next_node {
        Some(node_id) => DialogueEvent::GoToNode(node_id),
        None => DialogueEvent::End,
    }
}

/// Runs the auto-advance timer by `delta` (saturating); once it reaches
/// `delay` it restarts and the dialogue moves on.
pub fn try_auto_advance(timer: &mut u64, delay: u64, delta: u64, next_node: Option<u32>) -> (e: Option<DialogueEvent>)
    ensures
        ({
            let t = if *old(timer) + delta > u64::MAX { u64::MAX as int } else { *old(timer) + delta };
            &&& t >= delay ==> *final(timer) == 0 && e == Some(
                if next_node is Some { DialogueEvent::GoToNode(next_node->0) } else { DialogueEvent::End },
            )
            &&& t < delay ==> *final(timer) == t && e is None
        }),
{
    *timer = timer.saturating_add(delta);
    if *timer >= delay {
        *timer = 0;
        Some(perform_auto_advance(next_node))
    } else {
        None
    }
}

/// Moves a typed line without options on by itself: after the node's own
/// delay, or, when it has none and auto-advance is on, after the default
/// delay. The timer restarts while nothing is being played or typed.
pub fn dialogue_auto_advance_system(
    dialogue_state: &DialogueState,
    database: &DialogueDatabase,
    settings: &DialogueSettings,
    delta: u64,
    timer: &mut u64,
) -> (e: Option<DialogueEvent>)
    ensures
        ({
            let a = dialogue_state.active_dialogue;
            if a is None || !a->0.typing_complete {
                *final(timer) == 0 && e is None
            } else if !database.dialogues@.contains_key(a->0.dialogue_id)
                || !database.dialogues@[a->0.dialogue_id].nodes@.contains_key(a->0.current_node) {
                *final(timer) == *old(timer) && e is None
            } else {
                let node = database.dialogues@[a->0.dialogue_id].nodes@[a->0.current_node];
                let t = if *old(timer) + delta > u64::MAX { u64::MAX as int } else { *old(timer) + delta };
                let delay: int = if node.auto_advance_delay > 0 {
                    node.auto_advance_delay as int
                } else {
                    settings.auto_advance_delay as int
                };
                if node.choices@.len() > 0 || (node.auto_advance_delay == 0 && !settings.auto_advance) {
                    *final(timer) == *old(timer) && e is None
                } else if t >= delay {
                    *final(timer) == 0 && e == Some(
                        if node.next_node is Some { DialogueEvent::GoToNode(node.next_node->0) } else { DialogueEvent::End },
                    )
                } else {
                    *final(timer) == t && e is None
                }
            }
        }),
{
    let active = match &dialogue_state.active_dialogue {
        Some(a) => a,
        None => {
            *timer = 0;
            return None;
        },
    };
    if !active.typing_complete {
        *timer = 0;
        return None;
    }
    let tree = match database.get_dialogue(active.dialogue_id) {
        Some(t) => t,
        None => {
            return None;
        },
    };
    let node = match tree.get_node(active.current_node) {
        Some(n) => n,
        None => {
            return None;
        },
    };
    if node.choices.len() > 0 {
        return None;
    }
    if node.auto_advance_delay > 0 {
        try_auto_advance(timer, node.auto_advance_delay as u64, delta, node.next_node)
    } else if settings.auto_advance {
        try_auto_advance(timer, settings.auto_advance_delay as u64, delta, node.next_node)
    } else {
        None
    }
}

/// The event that starts a dialogue without variables.
pub fn start_dialogue(dialogue_id: DialogueId) -> (e: DialogueEvent)
    ensures
        e matches DialogueEvent::Start { dialogue_id: id, participants } && id == dialogue_id && participants@.len() == 0,
{
    DialogueEvent::Start { dialogue_id, participants: Vec::new() }
}

/// The event that starts a dialogue with variables.
pub fn start_dialogue_with_participants(dialogue_id: DialogueId, participants: Vec<(String, String)>) -> (e: DialogueEvent)
    ensures
        e == (DialogueEvent::Start { dialogue_id, participants }),
{
    DialogueEvent::Start { dialogue_id, participants }
}

/// Whether a dialogue is being played.
pub fn is_dialogue_active(dialogue_state: &DialogueState) -> (b: bool)
    ensures
        b == dialogue_state.active_dialogue is Some,
{
    dialogue_state.active_dialogue.is_some()
}

/// The node being shown, if a dialogue is played and its node exists.
pub fn get_current_dialogue_node<'a>(dialogue_state: &DialogueState, database: &'a DialogueDatabase) -> (r: Option<
    &'a DialogueNode,
>)
    ensures
        ({
            let a = dialogue_state.active_dialogue;
            if a is Some && database.dialogues@.contains_key(a->0.dialogue_id)
                && database.dialogues@[a->0.dialogue_id].nodes@.contains_key(a->0.current_node) {
                r == Some(&database.dialogues@[a->0.dialogue_id].nodes@[a->0.current_node])
            } else {
                r is None
            }
        }),
{
    let active = match &dialogue_state.active_dialogue {
        Some(a) => a,
        None => {
            return None;
        },
    };
    let tree = match database.get_dialogue(active.dialogue_id) {
        Some(t) => t,
        None => {
            return None;
        },
    };
    tree.get_node(active.current_node)
}

/// The sample NPC Lao Wang.
pub const NPC_LAO_WANG: u32 = 100;

/// The dialogue of mission two.
pub const DIALOGUE_ID_MISSION2: DialogueId = 2;

/// Every node of mission two's briefing 「任務：收債」: speaker, line, mood, next node and options.
pub open spec fn mission2_dialogue_lines(m: Map<u32, DialogueNode>) -> bool {
    let speaker = DialogueSpeaker::Npc(NPC_LAO_WANG);
    &&& node_is(m[0], 0, speaker, "好，來談正事。"@, SpeakerEmotion::Serious, Some(1u32), 0, 0, 0)
    &&& node_is(m[1], 1, speaker, "工業區有個叫阿強的傢伙欠我一大筆錢。我需要你去「提醒」他該還錢了。"@, SpeakerEmotion::Serious, Some(2u32), 0, 0, 0)
    &&& node_is(m[2], 2, speaker, "他躲在倉庫裡，身邊有幾個打手。先解決掉他們，然後把阿強帶到我這來。"@, SpeakerEmotion::Angry, None, 0, 2, 0)
    &&& option_is(m[2].choices@[0], "沒問題"@, Some(3u32), false, 0)
    &&& m[2].choices@[0].condition is None
    &&& option_is(m[2].choices@[1], "報酬呢？"@, Some(4u32), false, 0)
    &&& m[2].choices@[1].condition is None
    &&& node_is(m[3], 3, speaker, "好，地點我發到你手機了。記住，我要活的。"@, SpeakerEmotion::Neutral, None, 0, 1, 0)
    &&& option_is(m[3].choices@[0], "出發"@, None, true, 0)
    &&& m[3].choices@[0].condition is None
    &&& node_is(m[4], 4, speaker, "事成之後，500 塊現金，加上我欠你一個人情。這個人情在這座島上可值不少。"@, SpeakerEmotion::Smirk, None, 0, 1, 0)
    &&& option_is(m[4].choices@[0], "成交"@, Some(3u32), false, 0)
    &&& m[4].choices@[0].condition is None
}

/// The briefing of mission two (dialogue 2): collecting a debt.
fn create_mission2_dialogue() -> (t: DialogueTree)
    ensures
        t.id == DIALOGUE_ID_MISSION2,
        t.name@ == "任務：收債"@,
        t.start_node == 0,
        t.nodes@.dom() == Set::new(|k: u32| k < 5),
        t.on_complete@.len() == 0,
        tree_closed(&t),
        mission2_dialogue_lines(t.nodes@),
        end_reachable(&t),
        has_branch(&t),
{
    let mut tree = DialogueTree::new(DIALOGUE_ID_MISSION2, "任務：收債");
    let speaker = DialogueSpeaker::Npc(NPC_LAO_WANG);

    tree.add_node(
        DialogueNode::new(0, speaker, "好，來談正事。")
            .with_emotion(SpeakerEmotion::Serious)
            .with_next_node(1),
    );

    tree.add_node(
        DialogueNode::new(
            1,
            speaker,
            "工業區有個叫阿強的傢伙欠我一大筆錢。我需要你去「提醒」他該還錢了。",
        )
        .with_emotion(SpeakerEmotion::Serious)
        .with_next_node(2),
    );

    tree.add_node(
        DialogueNode::new(
            2,
            speaker,
            "他躲在倉庫裡，身邊有幾個打手。先解決掉他們，然後把阿強帶到我這來。",
        )
        .with_emotion(SpeakerEmotion::Angry)
        .with_choice(DialogueChoice::simple("沒問題", 3))
        .with_choice(DialogueChoice::simple("報酬呢？", 4)),
    );

    tree.add_node(
        DialogueNode::new(
            3,
            speaker,
            "好，地點我發到你手機了。記住，我要活的。",
        )
        .with_emotion(SpeakerEmotion::Neutral)
        .with_choice(DialogueChoice::end("出發")),
    );

    tree.add_node(
        DialogueNode::new(
            4,
            speaker,
            "事成之後，500 塊現金，加上我欠你一個人情。這個人情在這座島上可值不少。",
        )
        .with_emotion(SpeakerEmotion::Smirk)
        .with_choice(DialogueChoice::simple("成交", 3)),
    );

    assert(tree.nodes@.dom() =~= Set::new(|k: u32| k < 5));
    proof {
        let m = tree.nodes@;
        assert(m[3].choices@[0].ends_dialogue);
        assert(reaches_end(m, 3, 0));
        assert(m[2].choices@[0].next_node == Some(3u32));
        assert(reaches_end(m, 2, 1));
        assert(reaches_end(m, 1, 2));
        assert(reaches_end(m, 0, 3));
        assert(m.contains_key(2));
    }
    tree
}

/// Registers the sample dialogues (1 and 2), Lao Wang and the side-mission
/// dialogues and NPCs. Dialogues 1, 2 and 200 to 211 are then registered,
/// each with every node as its builder writes it, starting on one of its
/// nodes, never jumping outside itself and able to reach an end from its
/// start.
pub fn setup_sample_dialogues(database: &mut DialogueDatabase)
    ensures
        forall|id: u32| (id == 1 || id == 2 || 200 <= id <= 211) ==> #[trigger] final(database).dialogues@.contains_key(id)
            && final(database).dialogues@[id].id == id && tree_closed(&final(database).dialogues@[id])
            && end_reachable(&final(database).dialogues@[id]) && (id == 1 ==> sample_dialogue_lines(
            final(database).dialogues@[id].nodes@,
        )) && (id == 2 ==> mission2_dialogue_lines(final(database).dialogues@[id].nodes@)) && (200 <= id <= 211
            ==> side_dialogue_lines(id, final(database).dialogues@[id].nodes@)),
        final(database).npcs@.contains_key(NPC_LAO_WANG),
        final(database).npcs@[NPC_LAO_WANG].name@ == "老王"@,
        forall|id: u32| 200 <= id <= 205 ==> #[trigger] final(database).npcs@.contains_key(id),
{
    database.register_dialogue(create_sample_dialogue());
    database.register_dialogue(create_mission2_dialogue());
    database.register_npc(
        NpcDialogueData { id: NPC_LAO_WANG, name: "老王".to_owned(), portrait: String::new(), voice_style: None },
    );
    let ghost lao_wang = database.npcs@[NPC_LAO_WANG];
    register_side_dialogues(database);
    assert(database.npcs@.contains_key(NPC_LAO_WANG) && database.npcs@[NPC_LAO_WANG] == lao_wang);
}

/// Most lines kept in the history when no limit is set.
pub const DEFAULT_MAX_HISTORY: usize = 50;

/// The name shown for a node's speaker: the node's own, or the speaker's
/// (an NPC's from the database, "NPC" and its id when unknown).
pub open spec fn speaker_label(node: DialogueNode, npcs: Map<u32, NpcDialogueData>) -> Seq<char> {
    if node.speaker_name is Some {
        node.speaker_name->0@
    } else {
        match node.speaker {
            DialogueSpeaker::Player => "玩家"@,
            DialogueSpeaker::Npc(id) => if npcs.contains_key(id) {
                npcs[id].name@
            } else {
                "NPC "@ + decimal(id as nat)
            },
            DialogueSpeaker::Narrator => "旁白"@,
            DialogueSpeaker::Radio => "電台"@,
            DialogueSpeaker::System => "系統"@,
        }
    }
}

/// The history after recording a line: the newest `max` lines kept.
pub open spec fn history_after(h: Seq<DialogueHistoryEntry>, e: DialogueHistoryEntry, max: int) -> Seq<DialogueHistoryEntry> {
    let h2 = h.push(e);
    if h2.len() > max { h2.skip(h2.len() - max) } else { h2 }
}

/// Records the current line in the history once it is typed (once per
/// line): the speaker's name, the text with its variables filled in and
/// the time; only the newest lines are kept (the set limit, or 50).
pub fn dialogue_history_system(
    dialogue_state: &mut DialogueState,
    database: &DialogueDatabase,
    now: u64,
    last_recorded_node: &mut Option<(DialogueId, u32)>,
)
    ensures
        final(dialogue_state).active_dialogue == old(dialogue_state).active_dialogue,
        final(dialogue_state).max_history == old(dialogue_state).max_history,
        ({
            let a = old(dialogue_state).active_dialogue;
            if a is None {
                *final(last_recorded_node) is None && final(dialogue_state).history == old(dialogue_state).history
            } else if !a->0.typing_complete || *old(last_recorded_node) == Some((a->0.dialogue_id, a->0.current_node)) {
                *final(last_recorded_node) == *old(last_recorded_node) && final(dialogue_state).history == old(
                    dialogue_state,
                ).history
            } else {
                &&& *final(last_recorded_node) == Some((a->0.dialogue_id, a->0.current_node))
                &&& if !database.dialogues@.contains_key(a->0.dialogue_id)
                    || !database.dialogues@[a->0.dialogue_id].nodes@.contains_key(a->0.current_node) {
                    final(dialogue_state).history == old(dialogue_state).history
                } else {
                    let node = database.dialogues@[a->0.dialogue_id].nodes@[a->0.current_node];
                    let max = if old(dialogue_state).max_history > 0 {
                        old(dialogue_state).max_history as int
                    } else {
                        DEFAULT_MAX_HISTORY as int
                    };
                    let h = final(dialogue_state).history@;
                    let h0 = old(dialogue_state).history@;
                    &&& h.len() > 0
                    &&& h.last().speaker_name@ == speaker_label(node, database.npcs@)
                    &&& h.last().text@ == substituted(node.text@, a->0.participants@)
                    &&& h.last().timestamp == now
                    &&& h == history_after(h0, h.last(), max)
                }
            }
        }),
{
    let active = match &dialogue_state.active_dialogue {
        Some(a) => a,
        None => {
            *last_recorded_node = None;
            return;
        },
    };
    if !active.typing_complete {
        return;
    }
    let current_key = (active.dialogue_id, active.current_node);
    if *last_recorded_node == Some(current_key) {
        return;
    }
    *last_recorded_node = Some(current_key);
    let tree = match database.get_dialogue(active.dialogue_id) {
        Some(t) => t,
        None => {
            return;
        },
    };
    let node = match tree.get_node(active.current_node) {
        Some(n) => n,
        None => {
            return;
        },
    };
    let speaker_name = match &node.speaker_name {
        Some(name) => name.clone(),
        None => match node.speaker {
            DialogueSpeaker::Player => "玩家".to_owned(),
            DialogueSpeaker::Npc(npc_id) => match database.get_npc(npc_id) {
                Some(npc) => npc.name.clone(),
                None => {
                    let mut n = "NPC ".to_owned();
                    push_decimal(&mut n, npc_id);
                    n
                },
            },
            DialogueSpeaker::Narrator => "旁白".to_owned(),
            DialogueSpeaker::Radio => "電台".to_owned(),
            DialogueSpeaker::System => "系統".to_owned(),
        },
    };
    let text = substitute_variables(node.text.as_str(), &active.participants);
    let entry = DialogueHistoryEntry { speaker_name, text, timestamp: now };
    let ghost e = entry;
    let ghost h0 = dialogue_state.history@;
    dialogue_state.history.push_back(entry);
    let max_history: usize = if dialogue_state.max_history > 0 {
        dialogue_state.max_history
    } else {
        DEFAULT_MAX_HISTORY
    };
    let ghost h1 = dialogue_state.history@;
    while dialogue_state.history.len() > max_history
        invariant
            max_history > 0,
            dialogue_state.active_dialogue == old(dialogue_state).active_dialogue,
            dialogue_state.max_history == old(dialogue_state).max_history,
            h1 == h0.push(e),
            dialogue_state.history@.len() >= max_history || dialogue_state.history@ == h1,
            dialogue_state.history@.len() <= h1.len(),
            dialogue_state.history@ == h1.skip(h1.len() - dialogue_state.history@.len()),
        decreases dialogue_state.history.len(),
    {
        let ghost before = dialogue_state.history@;
        dialogue_state.history.pop_front();
        assert(dialogue_state.history@ =~= h1.skip(h1.len() - dialogue_state.history@.len()));
    }
    proof {
        let h = dialogue_state.history@;
        assert(h.last() == e);
        assert(history_after(h0, e, max_history as int) =~= h);
    }
}

} // verus!
