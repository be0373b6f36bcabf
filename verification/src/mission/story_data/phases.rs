//! Mission phases: a stage of a story mission with its objectives.
use vstd::prelude::*;
use crate::mission::story_data::types::{CutsceneId, DialogueId, NpcId, Position, StoryMissionType};
use crate::mission::story_data::objectives::{MissionObjective, objective_done};
use crate::mission::story_data::conditions::FailCondition;

verus! {

/// An NPC placed by a phase.
#[derive(Clone, Debug)]
pub struct NpcSpawnData {
    pub npc_id: NpcId,
    pub position: Position,
    pub model: String,
    pub name: String,
    pub is_invulnerable: bool,
    pub follow_player: bool,
    pub dialogue_tree: Option<DialogueId>,
}

/// One stage of a story mission.
#[derive(Clone, Debug)]
pub struct MissionPhase {
    pub id: u32,
    pub phase_type: StoryMissionType,
    pub description: String,
    pub objectives: Vec<MissionObjective>,
    /// Dialogue played when the phase starts.
    pub start_dialogue: Option<DialogueId>,
    /// Dialogue played when the phase ends.
    pub end_dialogue: Option<DialogueId>,
    /// Cutscene played when the phase starts.
    pub cutscene: Option<CutsceneId>,
    pub spawn_npcs: Vec<NpcSpawnData>,
    pub waypoints: Vec<Position>,
    /// Time limit in milliseconds.
    pub time_limit: Option<u64>,
    pub fail_conditions: Vec<FailCondition>,
}

/// Every objective that is not optional is done.
pub open spec fn all_required_done(s: Seq<MissionObjective>) -> bool {
    forall|i: int| 0 <= i < s.len() && !(#[trigger] s[i]).is_optional ==> objective_done(s[i])
}

/// Whether every required objective of a list is done.
pub fn required_objectives_done(objectives: &Vec<MissionObjective>) -> (b: bool)
    ensures
        b == all_required_done(objectives@),
{
    let mut i: usize = 0;
    while i < objectives.len()
        invariant
            0 <= i <= objectives.len(),
            forall|j: int| 0 <= j < i && !(#[trigger] objectives@[j]).is_optional ==> objective_done(objectives@[j]),
        decreases objectives.len() - i,
    {
        if !objectives[i].is_optional && !objectives[i].check_completion() {
            return false;
        }
        i = i + 1;
    }
    true
}

/// A phase with the given id, kind, description, dialogues and time limit,
/// `objectives` objectives and `fails` fail conditions, and no cutscene,
/// NPCs or waypoints.
pub open spec fn phase_is(
    p: MissionPhase,
    id: u32,
    phase_type: StoryMissionType,
    description: Seq<char>,
    start_dialogue: Option<DialogueId>,
    end_dialogue: Option<DialogueId>,
    time_limit: Option<u64>,
    objectives: int,
    fails: int,
) -> bool {
    &&& p.id == id
    &&& p.phase_type == phase_type
    &&& p.description@ == description
    &&& p.start_dialogue == start_dialogue
    &&& p.end_dialogue == end_dialogue
    &&& p.cutscene is None
    &&& p.spawn_npcs@.len() == 0
    &&& p.waypoints@.len() == 0
    &&& p.time_limit == time_limit
    &&& p.objectives@.len() == objectives
    &&& p.fail_conditions@.len() == fails
}

impl MissionPhase {
    /// A phase with no objectives, dialogues or limits.
    pub fn new(id: u32, phase_type: StoryMissionType, description: &str) -> (p: MissionPhase)
        ensures
            p.id == id,
            p.phase_type == phase_type,
            p.description@ == description@,
            p.objectives@.len() == 0,
            p.start_dialogue is None,
            p.end_dialogue is None,
            p.cutscene is None,
            p.spawn_npcs@.len() == 0,
            p.waypoints@.len() == 0,
            p.time_limit is None,
            p.fail_conditions@.len() == 0,
    {
        MissionPhase {
            id,
            phase_type,
            description: description.to_owned(),
            objectives: Vec::new(),
            start_dialogue: None,
            end_dialogue: None,
            cutscene: None,
            spawn_npcs: Vec::new(),
            waypoints: Vec::new(),
            time_limit: None,
            fail_conditions: Vec::new(),
        }
    }

    /// Adds an objective.
    pub fn with_objective(self, objective: MissionObjective) -> (p: MissionPhase)
        ensures
            p == (MissionPhase { objectives: p.objectives, ..self }),
            p.objectives@ == self.objectives@.push(objective),
    {
        let mut p = self;
        p.objectives.push(objective);
        p
    }

    /// Sets a time limit (milliseconds), which also makes running out of
    /// time a fail condition.
    pub fn with_time_limit(self, millis: u64) -> (p: MissionPhase)
        ensures
            p == (MissionPhase { time_limit: Some(millis), fail_conditions: p.fail_conditions, ..self }),
            p.fail_conditions@ == self.fail_conditions@.push(FailCondition::TimeExpired),
    {
        let mut p = self;
        p.time_limit = Some(millis);
        p.fail_conditions.push(FailCondition::TimeExpired);
        p
    }

    /// Sets the dialogue played at the start.
    pub fn with_start_dialogue(self, dialogue_id: DialogueId) -> (p: MissionPhase)
        ensures
            p == (MissionPhase { start_dialogue: Some(dialogue_id), ..self }),
    {
        let mut p = self;
        p.start_dialogue = Some(dialogue_id);
        p
    }

    /// Sets the cutscene played at the start.
    pub fn with_cutscene(self, cutscene_id: CutsceneId) -> (p: MissionPhase)
        ensures
            p == (MissionPhase { cutscene: Some(cutscene_id), ..self }),
    {
        let mut p = self;
        p.cutscene = Some(cutscene_id);
        p
    }

    /// Adds a fail condition.
    pub fn with_fail_condition(self, condition: FailCondition) -> (p: MissionPhase)
        ensures
            p == (MissionPhase { fail_conditions: p.fail_conditions, ..self }),
            p.fail_conditions@ == self.fail_conditions@.push(condition),
    {
        let mut p = self;
        p.fail_conditions.push(condition);
        p
    }

    /// Sets the dialogue played at the end.
    pub fn with_end_dialogue(self, dialogue_id: DialogueId) -> (p: MissionPhase)
        ensures
            p == (MissionPhase { end_dialogue: Some(dialogue_id), ..self }),
    {
        let mut p = self;
        p.end_dialogue = Some(dialogue_id);
        p
    }

    /// Whether every required objective is done (optional ones do not count).
    pub fn is_complete(&self) -> (b: bool)
        ensures
            b == all_required_done(self.objectives@),
    {
        required_objectives_done(&self.objectives)
    }
}

/// Optional objectives never hold a phase back: adding one does not change
/// whether the phase is complete.
pub proof fn optional_objectives_do_not_block(s: Seq<MissionObjective>, o: MissionObjective)
    requires
        o.is_optional,
    ensures
        all_required_done(s.push(o)) == all_required_done(s),
{
    if all_required_done(s) {
        assert forall|i: int| 0 <= i < s.push(o).len() && !(#[trigger] s.push(o)[i]).is_optional implies objective_done(
            s.push(o)[i],
        ) by {
            assert(i < s.len());
            assert(s.push(o)[i] == s[i]);
        }
    }
    if all_required_done(s.push(o)) {
        assert forall|i: int| 0 <= i < s.len() && !(#[trigger] s[i]).is_optional implies objective_done(s[i]) by {
            assert(s.push(o)[i] == s[i]);
        }
    }
}

} // verus!
