//! Story mission definitions and the mission being played.
use vstd::prelude::*;
use crate::mission::story_data::types::{CutsceneId, NpcId, Position, StoryMissionId};
use crate::mission::story_data::objectives::{MissionObjective, copy_objectives, objective_done};
use crate::mission::story_data::conditions::UnlockCondition;
use crate::mission::story_data::phases::{MissionPhase, all_required_done, required_objectives_done};
use crate::mission::story_data::rewards::{Difficulty, MissionRewards, money_only};

verus! {

/// A story mission: its phases, what unlocks it and what it gives.
#[derive(Clone, Debug)]
pub struct StoryMission {
    pub id: StoryMissionId,
    pub title: String,
    pub description: String,
    pub chapter: u32,
    /// The NPC who gives the mission.
    pub quest_giver: Option<NpcId>,
    /// Where the mission is started.
    pub trigger_location: Option<Position>,
    /// Radius of the start trigger, in centimetres.
    pub trigger_radius: u32,
    pub unlock_conditions: Vec<UnlockCondition>,
    pub phases: Vec<MissionPhase>,
    pub rewards: MissionRewards,
    pub difficulty: Difficulty,
    /// Expected playing time, in seconds.
    pub estimated_time: u32,
    pub intro_cutscene: Option<CutsceneId>,
    pub outro_cutscene: Option<CutsceneId>,
}

impl StoryMission {
    /// A chapter-one mission of normal difficulty, expected to take ten
    /// minutes, with no phases, conditions or rewards.
    pub fn new(id: StoryMissionId, title: &str, description: &str) -> (m: StoryMission)
        ensures
            m.id == id,
            m.title@ == title@,
            m.description@ == description@,
            m.chapter == 1,
            m.quest_giver is None,
            m.trigger_location is None,
            m.trigger_radius == 500,
            m.unlock_conditions@.len() == 0,
            m.phases@.len() == 0,
            money_only(m.rewards, 0),
            m.difficulty == Difficulty::Normal,
            m.estimated_time == 600,
            m.intro_cutscene is None,
            m.outro_cutscene is None,
    {
        StoryMission {
            id,
            title: title.to_owned(),
            description: description.to_owned(),
            chapter: 1,
            quest_giver: None,
            trigger_location: None,
            trigger_radius: 500,
            unlock_conditions: Vec::new(),
            phases: Vec::new(),
            rewards: MissionRewards::money(0),
            difficulty: Difficulty::Normal,
            estimated_time: 600,
            intro_cutscene: None,
            outro_cutscene: None,
        }
    }

    /// Sets the chapter.
    pub fn chapter(self, chapter: u32) -> (m: StoryMission)
        ensures
            m == (StoryMission { chapter, ..self }),
    {
        let mut m = self;
        m.chapter = chapter;
        m
    }

    /// Sets where the mission is started.
    pub fn at_location(self, position: Position) -> (m: StoryMission)
        ensures
            m == (StoryMission { trigger_location: Some(position), ..self }),
    {
        let mut m = self;
        m.trigger_location = Some(position);
        m
    }

    /// Sets who gives the mission.
    pub fn with_quest_giver(self, npc_id: NpcId) -> (m: StoryMission)
        ensures
            m == (StoryMission { quest_giver: Some(npc_id), ..self }),
    {
        let mut m = self;
        m.quest_giver = Some(npc_id);
        m
    }

    /// Adds a phase.
    pub fn with_phase(self, phase: MissionPhase) -> (m: StoryMission)
        ensures
            m == (StoryMission { phases: m.phases, ..self }),
            m.phases@ == self.phases@.push(phase),
    {
        let mut m = self;
        m.phases.push(phase);
        m
    }

    /// Sets the rewards.
    pub fn with_rewards(self, rewards: MissionRewards) -> (m: StoryMission)
        ensures
            m == (StoryMission { rewards, ..self }),
    {
        let mut m = self;
        m.rewards = rewards;
        m
    }

    /// Requires another mission to be completed first.
    pub fn requires_mission(self, mission_id: StoryMissionId) -> (m: StoryMission)
        ensures
            m == (StoryMission { unlock_conditions: m.unlock_conditions, ..self }),
            m.unlock_conditions@ == self.unlock_conditions@.push(UnlockCondition::CompleteMission(mission_id)),
    {
        let mut m = self;
        m.unlock_conditions.push(UnlockCondition::CompleteMission(mission_id));
        m
    }

    /// Requires a story flag.
    pub fn requires_flag(self, flag: &str) -> (m: StoryMission)
        ensures
            m == (StoryMission { unlock_conditions: m.unlock_conditions, ..self }),
            m.unlock_conditions@.len() == self.unlock_conditions@.len() + 1,
            m.unlock_conditions@.drop_last() == self.unlock_conditions@,
            m.unlock_conditions@.last() matches UnlockCondition::HasFlag(f) && f@ == flag@,
    {
        let mut m = self;
        m.unlock_conditions.push(UnlockCondition::HasFlag(flag.to_owned()));
        assert(m.unlock_conditions@.drop_last() =~= self.unlock_conditions@);
        m
    }

    /// Sets the difficulty.
    pub fn difficulty(self, difficulty: Difficulty) -> (m: StoryMission)
        ensures
            m == (StoryMission { difficulty, ..self }),
    {
        let mut m = self;
        m.difficulty = difficulty;
        m
    }

    /// Number of phases.
    pub fn phase_count(&self) -> (n: usize)
        ensures
            n == self.phases@.len(),
    {
        self.phases.len()
    }

    /// The phase at `index`, if there is one.
    pub fn get_phase(&self, index: usize) -> (p: Option<&MissionPhase>)
        ensures
            index < self.phases@.len() ==> p == Some(&self.phases@[index as int]),
            index >= self.phases@.len() ==> p is None,
    {
        if index < self.phases.len() {
            Some(&self.phases[index])
        } else {
            None
        }
    }
}

/// The mission being played.
#[derive(Clone, Debug)]
pub struct ActiveStoryMission {
    pub mission_id: StoryMissionId,
    /// Index of the current phase.
    pub current_phase: usize,
    /// Time spent in the current phase, in milliseconds.
    pub phase_timer: u64,
    /// The current phase's objectives, as played so far.
    pub objectives: Vec<MissionObjective>,
    pub checkpoint_position: Option<Position>,
    pub checkpoint_phase: usize,
    /// Entities spawned for the mission, to clean up at the end.
    pub spawned_entities: Vec<u64>,
}

/// `k` is the first position of an objective with this id.
pub open spec fn first_with_id(s: Seq<MissionObjective>, id: u32, k: int) -> bool {
    &&& 0 <= k < s.len()
    &&& s[k].id == id
    &&& forall|j: int| 0 <= j < k ==> (#[trigger] s[j]).id != id
}

/// No objective has this id.
pub open spec fn no_objective_with_id(s: Seq<MissionObjective>, id: u32) -> bool {
    forall|j: int| 0 <= j < s.len() ==> (#[trigger] s[j]).id != id
}

/// An objective whose count was set to `count`.
pub open spec fn counted(o: MissionObjective, count: u32) -> MissionObjective {
    MissionObjective { current_count: count, is_completed: o.is_completed || count >= o.target_count, ..o }
}

/// An objective marked done.
pub open spec fn finished(o: MissionObjective) -> MissionObjective {
    MissionObjective { current_count: o.target_count, is_completed: true, ..o }
}

/// Position of the first objective with `id`, if any.
fn find_objective(objectives: &Vec<MissionObjective>, id: u32) -> (r: Option<usize>)
    ensures
        r matches Some(k) ==> first_with_id(objectives@, id, k as int),
        r is None ==> no_objective_with_id(objectives@, id),
{
    let mut i: usize = 0;
    while i < objectives.len()
        invariant
            0 <= i <= objectives.len(),
            forall|j: int| 0 <= j < i ==> (#[trigger] objectives@[j]).id != id,
        decreases objectives.len() - i,
    {
        if objectives[i].id == id {
            return Some(i);
        }
        i = i + 1;
    }
    None
}

impl ActiveStoryMission {
    /// The mission at its first phase, with that phase's objectives.
    pub fn new(mission_id: StoryMissionId, first_phase: &MissionPhase) -> (a: ActiveStoryMission)
        ensures
            a.mission_id == mission_id,
            a.current_phase == 0,
            a.phase_timer == 0,
            a.objectives@ == first_phase.objectives@,
            a.checkpoint_position is None,
            a.checkpoint_phase == 0,
            a.spawned_entities@.len() == 0,
    {
        ActiveStoryMission {
            mission_id,
            current_phase: 0,
            phase_timer: 0,
            objectives: copy_objectives(&first_phase.objectives),
            checkpoint_position: None,
            checkpoint_phase: 0,
            spawned_entities: Vec::new(),
        }
    }

    /// Runs the phase timer by `delta` milliseconds.
    pub fn tick(&mut self, delta: u64)
        requires
            old(self).phase_timer + delta <= u64::MAX,
        ensures
            *final(self) == (ActiveStoryMission { phase_timer: (old(self).phase_timer + delta) as u64, ..*old(self) }),
    {
        self.phase_timer = self.phase_timer + delta;
    }

    /// Records a checkpoint at `position` in the current phase.
    pub fn set_checkpoint(&mut self, position: Position)
        ensures
            *final(self) == (ActiveStoryMission {
                checkpoint_position: Some(position),
                checkpoint_phase: old(self).current_phase,
                ..*old(self)
            }),
    {
        self.checkpoint_position = Some(position);
        self.checkpoint_phase = self.current_phase;
    }

    /// Moves to the next phase: its objectives, a fresh timer.
    pub fn advance_phase(&mut self, next_phase: &MissionPhase)
        requires
            old(self).current_phase < usize::MAX,
        ensures
            final(self).current_phase == old(self).current_phase + 1,
            final(self).phase_timer == 0,
            final(self).objectives@ == next_phase.objectives@,
            final(self).mission_id == old(self).mission_id,
            final(self).checkpoint_position == old(self).checkpoint_position,
            final(self).checkpoint_phase == old(self).checkpoint_phase,
            final(self).spawned_entities == old(self).spawned_entities,
    {
        self.current_phase = self.current_phase + 1;
        self.phase_timer = 0;
        self.objectives = copy_objectives(&next_phase.objectives);
    }

    /// Whether every required objective of the phase is done.
    pub fn is_phase_complete(&self) -> (b: bool)
        ensures
            b == all_required_done(self.objectives@),
    {
        required_objectives_done(&self.objectives)
    }

    /// Sets the count of the first objective with this id; reaching its
    /// target marks it done. Nothing happens when no objective has the id.
    pub fn update_objective(&mut self, objective_id: u32, count: u32)
        ensures
            final(self).mission_id == old(self).mission_id,
            final(self).current_phase == old(self).current_phase,
            final(self).phase_timer == old(self).phase_timer,
            final(self).checkpoint_position == old(self).checkpoint_position,
            final(self).checkpoint_phase == old(self).checkpoint_phase,
            final(self).spawned_entities == old(self).spawned_entities,
            no_objective_with_id(old(self).objectives@, objective_id) ==> final(self).objectives@
                == old(self).objectives@,
            forall|k: int| first_with_id(old(self).objectives@, objective_id, k) ==> final(self).objectives@
                == old(self).objectives@.update(k, counted(old(self).objectives@[k], count)),
    {
        match find_objective(&self.objectives, objective_id) {
            Some(k) => {
                let ghost before = self.objectives@;
                let mut o = self.objectives.remove(k);
                o.current_count = count;
                if o.current_count >= o.target_count {
                    o.is_completed = true;
                }
                self.objectives.insert(k, o);
                assert(self.objectives@ =~= before.update(k as int, counted(before[k as int], count)));
            },
            None => {},
        }
    }

    /// Marks the first objective with this id done (its count set to the
    /// target). Nothing happens when no objective has the id.
    pub fn complete_objective(&mut self, objective_id: u32)
        ensures
            final(self).mission_id == old(self).mission_id,
            final(self).current_phase == old(self).current_phase,
            final(self).phase_timer == old(self).phase_timer,
            final(self).checkpoint_position == old(self).checkpoint_position,
            final(self).checkpoint_phase == old(self).checkpoint_phase,
            final(self).spawned_entities == old(self).spawned_entities,
            no_objective_with_id(old(self).objectives@, objective_id) ==> final(self).objectives@
                == old(self).objectives@,
            forall|k: int| first_with_id(old(self).objectives@, objective_id, k) ==> final(self).objectives@
                == old(self).objectives@.update(k, finished(old(self).objectives@[k])),
    {
        match find_objective(&self.objectives, objective_id) {
            Some(k) => {
                let ghost before = self.objectives@;
                let mut o = self.objectives.remove(k);
                o.is_completed = true;
                o.current_count = o.target_count;
                self.objectives.insert(k, o);
                assert(self.objectives@ =~= before.update(k as int, finished(before[k as int])));
            },
            None => {},
        }
    }
}

/// There is at most one first objective with an id.
pub proof fn first_with_id_unique(s: Seq<MissionObjective>, id: u32, k1: int, k2: int)
    requires
        first_with_id(s, id, k1),
        first_with_id(s, id, k2),
    ensures
        k1 == k2,
{
    if k1 < k2 {
        assert(s[k1].id != id);
    } else if k2 < k1 {
        assert(s[k2].id != id);
    }
}

/// Marking an objective done makes it count as done, and a count at or
/// past the target does too.
pub proof fn completing_an_objective_finishes_it(o: MissionObjective, count: u32)
    ensures
        objective_done(finished(o)),
        count >= o.target_count ==> objective_done(counted(o, count)),
{
}

} // verus!
