//! The story mission manager: mission states, the mission being played,
//! story flags, checkpoints and ratings; and the database of missions.
//!
//! Play time is in milliseconds; the time of day in hundredths of an hour.
use vstd::prelude::*;
use std::collections::HashMap;
use vstd::std_specs::iter::IteratorSpec;
use crate::economy::wallet::{PlayerWallet, add_cash_post, clamp_i32};
use crate::mission::economy::{RespectManager, respect_after};
use crate::mission::unlocks::{UnlockManager, unlocks_wf, item_keys};
use crate::mission::story_data::types::{AreaId, Position, StoryMissionId, StoryMissionStatus};
use crate::mission::story_data::objectives::{MissionObjective, copy_objectives};
use crate::mission::story_data::conditions::{FailCondition, UnlockCondition};
use crate::mission::story_data::mission::{ActiveStoryMission, StoryMission};
use crate::mission::story_data::rewards::MissionRewards;
use crate::mission::story_data::performance::{
    MissionCompletionResult, MissionPerformance, StoryMissionRating, rating_stars, rating_bonus_percent,
    rating_for_score, performance_score,
};
use crate::text::{push_decimal, decimal};

verus! {

broadcast use vstd::std_specs::hash::group_hash_axioms;

/// A saved point of the mission being played.
#[derive(Clone, Debug)]
pub struct CheckpointData {
    pub mission_id: StoryMissionId,
    /// Phase index.
    pub phase: u32,
    pub player_position: Position,
    /// Play time when it was saved.
    pub timestamp: u64,
    pub objectives_state: Vec<MissionObjective>,
}

impl CheckpointData {
    /// An equal copy.
    pub fn duplicate(&self) -> (c: CheckpointData)
        ensures
            c.mission_id == self.mission_id,
            c.phase == self.phase,
            c.player_position == self.player_position,
            c.timestamp == self.timestamp,
            c.objectives_state@ == self.objectives_state@,
    {
        CheckpointData {
            mission_id: self.mission_id,
            phase: self.phase,
            player_position: self.player_position,
            timestamp: self.timestamp,
            objectives_state: copy_objectives(&self.objectives_state),
        }
    }
}

/// Why a checkpoint cannot be loaded.
#[derive(Clone, Copy, Debug, PartialEq, Eq, Structural)]
pub enum CheckpointError {
    /// There is no checkpoint.
    NoCheckpoint,
    /// The checkpoint's mission is not in the database.
    MissionNotFound(StoryMissionId),
    /// The mission has no such phase.
    InvalidPhase { mission_id: StoryMissionId, phase: u32 },
    /// The checkpoint was saved after the current play time.
    InvalidTimestamp,
}

/// Something that happened to a story mission.
#[derive(Clone, Debug)]
pub enum StoryMissionEvent {
    Started(StoryMissionId),
    Completed { mission_id: StoryMissionId, rewards: MissionRewards },
    Failed { mission_id: StoryMissionId, reason: FailCondition },
    Abandoned(StoryMissionId),
    PhaseChanged { mission_id: StoryMissionId, new_phase: u32 },
    ObjectiveCompleted { mission_id: StoryMissionId, objective_index: usize },
    ObjectiveUpdated { mission_id: StoryMissionId, objective_index: usize, progress: u32, total: u32 },
    CheckpointReached { mission_id: StoryMissionId, phase: u32 },
    MissionUnlocked(StoryMissionId),
    MoneyChanged { old: i32, new: i32 },
    RespectChanged { old: i32, new: i32 },
}

/// The story missions as the player has them.
pub struct StoryMissionManager {
    pub mission_states: HashMap<StoryMissionId, StoryMissionStatus>,
    pub current_mission: Option<ActiveStoryMission>,
    pub current_chapter: u32,
    /// Story flags, each name listed once.
    pub story_flags: Vec<(String, bool)>,
    pub completed_count: u32,
    /// Total play time.
    pub total_play_time: u64,
    pub checkpoint: Option<CheckpointData>,
    pub current_performance: Option<MissionPerformance>,
    /// Best rating earned on each mission.
    pub mission_ratings: HashMap<StoryMissionId, StoryMissionRating>,
    pub last_completion_result: Option<MissionCompletionResult>,
}

/// Status of a mission in a state table (locked when absent).
pub open spec fn status_in(m: Map<StoryMissionId, StoryMissionStatus>, id: StoryMissionId) -> StoryMissionStatus {
    if m.contains_key(id) { m[id] } else { StoryMissionStatus::Locked }
}

/// Best rating in a table (none when absent).
pub open spec fn best_in(m: Map<StoryMissionId, StoryMissionRating>, id: StoryMissionId) -> StoryMissionRating {
    if m.contains_key(id) { m[id] } else { StoryMissionRating::NoStars }
}

/// Value of a flag in a flag list (false when absent).
pub open spec fn flag_in(flags: Seq<(String, bool)>, name: Seq<char>) -> bool {
    exists|i: int| 0 <= i < flags.len() && (#[trigger] flags[i]).0@ == name && flags[i].1
}

/// No flag name is listed twice.
pub open spec fn flags_wf(flags: Seq<(String, bool)>) -> bool {
    forall|i: int, j: int| 0 <= i < j < flags.len() ==> (#[trigger] flags[i]).0@ != (#[trigger] flags[j]).0@
}

/// The manager is well formed: each flag listed once.
pub open spec fn manager_wf(m: &StoryMissionManager) -> bool {
    flags_wf(m.story_flags@)
}

/// Every counter of the running performance can still be increased.
pub open spec fn performance_has_room(m: &StoryMissionManager) -> bool {
    m.current_performance matches Some(p) ==> {
        &&& p.player_deaths < u32::MAX
        &&& p.checkpoint_retries < u32::MAX
        &&& p.shots_fired < u32::MAX
        &&& p.shots_hit < u32::MAX
        &&& p.headshots < u32::MAX
        &&& p.enemies_killed < u32::MAX
        &&& p.times_detected < u32::MAX
    }
}

/// The variant name of a status.
pub open spec fn status_name(s: StoryMissionStatus) -> Seq<char> {
    match s {
        StoryMissionStatus::Locked => "Locked"@,
        StoryMissionStatus::Available => "Available"@,
        StoryMissionStatus::InProgress => "InProgress"@,
        StoryMissionStatus::Completed => "Completed"@,
        StoryMissionStatus::Failed => "Failed"@,
    }
}

fn status_label(s: StoryMissionStatus) -> (r: &'static str)
    ensures
        r@ == status_name(s),
{
    match s {
        StoryMissionStatus::Locked => "Locked",
        StoryMissionStatus::Available => "Available",
        StoryMissionStatus::InProgress => "InProgress",
        StoryMissionStatus::Completed => "Completed",
        StoryMissionStatus::Failed => "Failed",
    }
}

/// Whether one unlock condition holds, for the manager's state, the
/// player's cash and the time of day.
pub open spec fn unlock_condition_met(
    m: &StoryMissionManager,
    c: UnlockCondition,
    cash: i32,
    hour: u32,
) -> bool {
    match c {
        UnlockCondition::CompleteMission(id) => status_in(m.mission_states@, id) == StoryMissionStatus::Completed,
        UnlockCondition::ChapterReached(ch) => m.current_chapter >= ch,
        UnlockCondition::MoneyAmount(min) => cash >= min as i32,
        UnlockCondition::TimeOfDay(start, end) => {
            if start == end {
                true
            } else if start < end {
                start <= hour && hour < end
            } else {
                hour >= start || hour < end
            }
        },
        UnlockCondition::HasFlag(f) => flag_in(m.story_flags@, f@),
        UnlockCondition::Unconditional => true,
    }
}

/// Whether every unlock condition of a list holds.
pub open spec fn unlock_conditions_met(
    m: &StoryMissionManager,
    cs: Seq<UnlockCondition>,
    cash: i32,
    hour: u32,
) -> bool {
    forall|i: int| 0 <= i < cs.len() ==> unlock_condition_met(m, #[trigger] cs[i], cash, hour)
}

/// The manager's state apart from the mission tables and flags.
pub open spec fn same_progress(a: &StoryMissionManager, b: &StoryMissionManager) -> bool {
    &&& a.current_chapter == b.current_chapter
    &&& a.completed_count == b.completed_count
    &&& a.total_play_time == b.total_play_time
}

impl Default for StoryMissionManager {
    fn default() -> (m: StoryMissionManager)
        ensures
            manager_wf(&m),
            m.mission_states@ == Map::<StoryMissionId, StoryMissionStatus>::empty(),
            m.current_mission is None,
            m.current_chapter == 1,
            m.story_flags@.len() == 0,
            m.completed_count == 0,
            m.total_play_time == 0,
            m.checkpoint is None,
            m.current_performance is None,
            m.mission_ratings@ == Map::<StoryMissionId, StoryMissionRating>::empty(),
            m.last_completion_result is None,
    {
        StoryMissionManager::new()
    }
}

impl StoryMissionManager {
    /// A fresh manager: nothing unlocked, chapter one.
    pub fn new() -> (m: StoryMissionManager)
        ensures
            manager_wf(&m),
            m.mission_states@ == Map::<StoryMissionId, StoryMissionStatus>::empty(),
            m.current_mission is None,
            m.current_chapter == 1,
            m.story_flags@.len() == 0,
            m.completed_count == 0,
            m.total_play_time == 0,
            m.checkpoint is None,
            m.current_performance is None,
            m.mission_ratings@ == Map::<StoryMissionId, StoryMissionRating>::empty(),
            m.last_completion_result is None,
    {
        StoryMissionManager {
            mission_states: HashMap::new(),
            current_mission: None,
            current_chapter: 1,
            story_flags: Vec::new(),
            completed_count: 0,
            total_play_time: 0,
            checkpoint: None,
            current_performance: None,
            mission_ratings: HashMap::new(),
            last_completion_result: None,
        }
    }

    /// Status of a mission (locked when never set).
    pub fn get_mission_status(&self, mission_id: StoryMissionId) -> (s: StoryMissionStatus)
        ensures
            s == status_in(self.mission_states@, mission_id),
    {
        match self.mission_states.get(&mission_id) {
            Some(s) => *s,
            None => StoryMissionStatus::Locked,
        }
    }

    /// Sets a mission's status.
    pub fn set_mission_status(&mut self, mission_id: StoryMissionId, status: StoryMissionStatus)
        ensures
            final(self).mission_states@ == old(self).mission_states@.insert(mission_id, status),
            final(self).current_mission == old(self).current_mission,
            final(self).story_flags == old(self).story_flags,
            final(self).checkpoint == old(self).checkpoint,
            final(self).current_performance == old(self).current_performance,
            final(self).mission_ratings == old(self).mission_ratings,
            final(self).last_completion_result == old(self).last_completion_result,
            same_progress(final(self), old(self)),
    {
        self.mission_states.insert(mission_id, status);
    }

    /// Unlocks a mission: a locked mission becomes available; any other
    /// status is kept.
    pub fn unlock_mission(&mut self, mission_id: StoryMissionId)
        ensures
            status_in(old(self).mission_states@, mission_id) == StoryMissionStatus::Locked ==> final(self).mission_states@
                == old(self).mission_states@.insert(mission_id, StoryMissionStatus::Available),
            status_in(old(self).mission_states@, mission_id) != StoryMissionStatus::Locked ==> final(self).mission_states@
                == old(self).mission_states@,
            final(self).current_mission == old(self).current_mission,
            final(self).story_flags == old(self).story_flags,
            final(self).checkpoint == old(self).checkpoint,
            final(self).current_performance == old(self).current_performance,
            final(self).mission_ratings == old(self).mission_ratings,
            final(self).last_completion_result == old(self).last_completion_result,
            same_progress(final(self), old(self)),
    {
        if self.get_mission_status(mission_id) == StoryMissionStatus::Locked {
            self.set_mission_status(mission_id, StoryMissionStatus::Available);
        }
    }

    /// Value of a story flag (false when never set).
    pub fn get_flag(&self, flag: &str) -> (b: bool)
        requires
            manager_wf(self),
        ensures
            b == flag_in(self.story_flags@, flag@),
    {
        match self.find_flag(flag) {
            Some(i) => self.story_flags[i].1,
            None => false,
        }
    }

    fn find_flag(&self, flag: &str) -> (r: Option<usize>)
        requires
            manager_wf(self),
        ensures
            r matches Some(i) ==> i < self.story_flags@.len() && self.story_flags@[i as int].0@ == flag@,
            r is None ==> forall|j: int| 0 <= j < self.story_flags@.len() ==> (#[trigger] self.story_flags@[j]).0@ != flag@,
    {
        let key = flag.to_owned();
        let mut i: usize = 0;
        while i < self.story_flags.len()
            invariant
                0 <= i <= self.story_flags@.len(),
                key@ == flag@,
                forall|j: int| 0 <= j < i ==> (#[trigger] self.story_flags@[j]).0@ != flag@,
            decreases self.story_flags.len() - i,
        {
            if self.story_flags[i].0 == key {
                return Some(i);
            }
            i = i + 1;
        }
        None
    }

    /// Sets a story flag.
    pub fn set_flag(&mut self, flag: String, value: bool)
        requires
            manager_wf(old(self)),
        ensures
            manager_wf(final(self)),
            flag_in(final(self).story_flags@, flag@) == value,
            forall|name: Seq<char>| name != flag@ ==> flag_in(final(self).story_flags@, name) == flag_in(
                old(self).story_flags@,
                name,
            ),
            final(self).mission_states == old(self).mission_states,
            final(self).current_mission == old(self).current_mission,
            final(self).checkpoint == old(self).checkpoint,
            final(self).current_performance == old(self).current_performance,
            final(self).mission_ratings == old(self).mission_ratings,
            final(self).last_completion_result == old(self).last_completion_result,
            same_progress(final(self), old(self)),
    {
        let ghost before = self.story_flags@;
        match self.find_flag(flag.as_str()) {
            Some(i) => {
                let ghost name = flag@;
                self.story_flags.set(i, (flag, value));
                assert forall|n: Seq<char>| n != name implies flag_in(self.story_flags@, n) == flag_in(before, n) by {
                    if flag_in(before, n) {
                        let k = choose|k: int| 0 <= k < before.len() && (#[trigger] before[k]).0@ == n && before[k].1;
                        assert(k != i);
                        assert(self.story_flags@[k] == before[k]);
                    }
                    if flag_in(self.story_flags@, n) {
                        let k = choose|k: int| 0 <= k < self.story_flags@.len() && (#[trigger] self.story_flags@[k]).0@ == n
                            && self.story_flags@[k].1;
                        assert(k != i);
                        assert(self.story_flags@[k] == before[k]);
                    }
                }
                proof {
                    if flag_in(self.story_flags@, name) {
                        let k = choose|k: int| 0 <= k < self.story_flags@.len() && (#[trigger] self.story_flags@[k]).0@ == name
                            && self.story_flags@[k].1;
                        if k != i {
                            assert(before[k].0@ == before[i as int].0@);
                        }
                    }
                }
                assert(self.story_flags@[i as int].0@ == name);
            },
            None => {
                let ghost name = flag@;
                self.story_flags.push((flag, value));
                assert(self.story_flags@[before.len() as int].0@ == name);
                assert forall|n: Seq<char>| n != name implies flag_in(self.story_flags@, n) == flag_in(before, n) by {
                    if flag_in(before, n) {
                        let k = choose|k: int| 0 <= k < before.len() && (#[trigger] before[k]).0@ == n && before[k].1;
                        assert(self.story_flags@[k] == before[k]);
                    }
                    if flag_in(self.story_flags@, n) {
                        let k = choose|k: int| 0 <= k < self.story_flags@.len() && (#[trigger] self.story_flags@[k]).0@ == n
                            && self.story_flags@[k].1;
                        assert(k < before.len());
                        assert(self.story_flags@[k] == before[k]);
                    }
                }
                proof {
                    if flag_in(self.story_flags@, name) {
                        let k = choose|k: int| 0 <= k < self.story_flags@.len() && (#[trigger] self.story_flags@[k]).0@ == name
                            && self.story_flags@[k].1;
                        if k < before.len() {
                            assert(before[k].0@ == name);
                        }
                    }
                }
            },
        }
    }

    /// Flips a story flag.
    pub fn toggle_flag(&mut self, flag: &str)
        requires
            manager_wf(old(self)),
        ensures
            manager_wf(final(self)),
            flag_in(final(self).story_flags@, flag@) == !flag_in(old(self).story_flags@, flag@),
            forall|name: Seq<char>| name != flag@ ==> flag_in(final(self).story_flags@, name) == flag_in(
                old(self).story_flags@,
                name,
            ),
            final(self).mission_states == old(self).mission_states,
            final(self).current_mission == old(self).current_mission,
            final(self).checkpoint == old(self).checkpoint,
            final(self).current_performance == old(self).current_performance,
            final(self).mission_ratings == old(self).mission_ratings,
            same_progress(final(self), old(self)),
    {
        let current = self.get_flag(flag);
        self.set_flag(flag.to_owned(), !current);
    }
}

/// Whether a mission can be started: no mission is being played, the
/// mission is available, its unlock conditions hold and it has a phase.
pub open spec fn can_start(m: &StoryMissionManager, mission: StoryMission, cash: i32, hour: u32) -> bool {
    &&& m.current_mission is None
    &&& status_in(m.mission_states@, mission.id) == StoryMissionStatus::Available
    &&& unlock_conditions_met(m, mission.unlock_conditions@, cash, hour)
    &&& mission.phases@.len() > 0
}

/// `new_m` is `old_m` with `mission` started: in progress from its first
/// phase, with its performance tracked from the current play time.
pub open spec fn started(old_m: &StoryMissionManager, new_m: &StoryMissionManager, mission: StoryMission) -> bool {
    &&& new_m.mission_states@ == old_m.mission_states@.insert(mission.id, StoryMissionStatus::InProgress)
    &&& new_m.current_mission is Some
    &&& new_m.current_mission->0.mission_id == mission.id
    &&& new_m.current_mission->0.current_phase == 0
    &&& new_m.current_mission->0.phase_timer == 0
    &&& new_m.current_mission->0.objectives@ == mission.phases@[0].objectives@
    &&& new_m.current_mission->0.checkpoint_position is None
    &&& new_m.current_mission->0.checkpoint_phase == 0
    &&& new_m.current_mission->0.spawned_entities@.len() == 0
    &&& new_m.current_performance == Some(
        MissionPerformance { start_time: old_m.total_play_time, ..MissionPerformance::zero() },
    )
    &&& new_m.story_flags == old_m.story_flags
    &&& new_m.checkpoint == old_m.checkpoint
    &&& new_m.mission_ratings == old_m.mission_ratings
    &&& new_m.last_completion_result == old_m.last_completion_result
    &&& same_progress(new_m, old_m)
}

impl StoryMissionManager {
    /// Whether one unlock condition holds. `hour` is the time of day in
    /// hundredths of an hour.
    pub fn check_unlock_condition(
        &self,
        condition: &UnlockCondition,
        wallet: &PlayerWallet,
        respect: &RespectManager,
        unlocks: &UnlockManager,
        hour: u32,
    ) -> (b: bool)
        requires
            manager_wf(self),
        ensures
            b == unlock_condition_met(self, *condition, wallet.cash, hour),
    {
        match condition {
            UnlockCondition::CompleteMission(id) => self.get_mission_status(*id) == StoryMissionStatus::Completed,
            UnlockCondition::ChapterReached(chapter) => self.current_chapter >= *chapter,
            UnlockCondition::MoneyAmount(min) => wallet.cash >= *min as i32,
            UnlockCondition::TimeOfDay(start, end) => {
                if *start == *end {
                    true
                } else if *start < *end {
                    *start <= hour && hour < *end
                } else {
                    hour >= *start || hour < *end
                }
            },
            UnlockCondition::HasFlag(flag) => self.get_flag(flag.as_str()),
            UnlockCondition::Unconditional => true,
        }
    }

    /// Whether every unlock condition of a list holds.
    pub fn check_unlock_conditions(
        &self,
        conditions: &Vec<UnlockCondition>,
        wallet: &PlayerWallet,
        respect: &RespectManager,
        unlocks: &UnlockManager,
        hour: u32,
    ) -> (b: bool)
        requires
            manager_wf(self),
        ensures
            b == unlock_conditions_met(self, conditions@, wallet.cash, hour),
    {
        let mut i: usize = 0;
        while i < conditions.len()
            invariant
                0 <= i <= conditions@.len(),
                manager_wf(self),
                forall|j: int| 0 <= j < i ==> unlock_condition_met(self, #[trigger] conditions@[j], wallet.cash, hour),
            decreases conditions.len() - i,
        {
            if !self.check_unlock_condition(&conditions[i], wallet, respect, unlocks, hour) {
                return false;
            }
            i = i + 1;
        }
        true
    }

    /// Starts a mission. Refused, in this order, when a mission is already
    /// being played, when the mission is not available, when its unlock
    /// conditions do not hold, or when it has no phase. On success the
    /// mission is in progress from its first phase, and its performance is
    /// tracked from the current play time.
    pub fn start_mission(
        &mut self,
        mission: &StoryMission,
        wallet: &PlayerWallet,
        respect: &RespectManager,
        unlocks: &UnlockManager,
        hour: u32,
    ) -> (r: Result<(), String>)
        requires
            manager_wf(old(self)),
        ensures
            manager_wf(final(self)),
            old(self).current_mission is Some ==> (r is Err && r->Err_0@ == "已有進行中的任務"@),
            old(self).current_mission is None && status_in(old(self).mission_states@, mission.id)
                != StoryMissionStatus::Available ==> (r is Err && r->Err_0@ == "任務狀態不可用: "@ + status_name(
                status_in(old(self).mission_states@, mission.id),
            )),
            old(self).current_mission is None && status_in(old(self).mission_states@, mission.id)
                == StoryMissionStatus::Available && !unlock_conditions_met(
                old(self),
                mission.unlock_conditions@,
                wallet.cash,
                hour,
            ) ==> (r is Err && r->Err_0@ == "不滿足解鎖條件"@),
            old(self).current_mission is None && status_in(old(self).mission_states@, mission.id)
                == StoryMissionStatus::Available && unlock_conditions_met(
                old(self),
                mission.unlock_conditions@,
                wallet.cash,
                hour,
            ) && mission.phases@.len() == 0 ==> (r is Err && r->Err_0@ == "任務沒有階段"@),
            r is Err ==> *final(self) == *old(self),
            r is Ok <==> can_start(old(self), *mission, wallet.cash, hour),
            r is Ok ==> started(old(self), final(self), *mission),
{
        if self.current_mission.is_some() {
            return Err("已有進行中的任務".to_owned());
        }
        let status = self.get_mission_status(mission.id);
        if status != StoryMissionStatus::Available {
            let mut msg = "任務狀態不可用: ".to_owned();
            msg.append(status_label(status));
            return Err(msg);
        }
        if !self.check_unlock_conditions(&mission.unlock_conditions, wallet, respect, unlocks, hour) {
            return Err("不滿足解鎖條件".to_owned());
        }
        if mission.phases.len() == 0 {
            return Err("任務沒有階段".to_owned());
        }
        let active = ActiveStoryMission::new(mission.id, &mission.phases[0]);
        self.current_mission = Some(active);
        self.current_performance = Some(MissionPerformance::starting_at(self.total_play_time));
        self.set_mission_status(mission.id, StoryMissionStatus::InProgress);
        Ok(())
    }
}

/// Every mission definition, and the missions of each chapter.
pub struct StoryMissionDatabase {
    pub missions: HashMap<StoryMissionId, StoryMission>,
    /// Mission ids by chapter, in registration order.
    pub chapters: HashMap<u32, Vec<StoryMissionId>>,
}

/// The ids listed for a chapter (none when absent).
pub open spec fn chapter_ids(m: Map<u32, Vec<StoryMissionId>>, chapter: u32) -> Seq<StoryMissionId> {
    if m.contains_key(chapter) { m[chapter]@ } else { Seq::empty() }
}

/// The missions of `ids` that the table has, in order.
pub open spec fn present_missions(m: Map<StoryMissionId, StoryMission>, ids: Seq<StoryMissionId>) -> Seq<StoryMission>
    decreases ids.len(),
{
    if ids.len() == 0 {
        Seq::empty()
    } else {
        let rest = present_missions(m, ids.drop_last());
        if m.contains_key(ids.last()) { rest.push(m[ids.last()]) } else { rest }
    }
}

impl Default for StoryMissionDatabase {
    fn default() -> (d: StoryMissionDatabase)
        ensures
            d.missions@ == Map::<StoryMissionId, StoryMission>::empty(),
            d.chapters@ == Map::<u32, Vec<StoryMissionId>>::empty(),
    {
        StoryMissionDatabase { missions: HashMap::new(), chapters: HashMap::new() }
    }
}

impl StoryMissionDatabase {
    /// Registers a mission (replacing one with the same id) and lists it
    /// under its chapter.
    pub fn register(&mut self, mission: StoryMission)
        ensures
            final(self).missions@ == old(self).missions@.insert(mission.id, mission),
            final(self).chapters@.contains_key(mission.chapter),
            chapter_ids(final(self).chapters@, mission.chapter) == chapter_ids(old(self).chapters@, mission.chapter).push(
                mission.id,
            ),
            final(self).chapters@.remove(mission.chapter) == old(self).chapters@.remove(mission.chapter),
    {
        let id = mission.id;
        let chapter = mission.chapter;
        self.missions.insert(id, mission);
        let mut ids = match self.chapters.remove(&chapter) {
            Some(v) => v,
            None => Vec::new(),
        };
        ids.push(id);
        self.chapters.insert(chapter, ids);
        assert(self.chapters@.remove(chapter) =~= old(self).chapters@.remove(chapter));
    }

    /// The mission with this id, if registered.
    pub fn get(&self, id: StoryMissionId) -> (r: Option<&StoryMission>)
        ensures
            self.missions@.contains_key(id) ==> r == Some(&self.missions@[id]),
            !self.missions@.contains_key(id) ==> r is None,
    {
        self.missions.get(&id)
    }

    /// The registered missions of a chapter, in registration order.
    pub fn get_chapter_missions(&self, chapter: u32) -> (r: Vec<&StoryMission>)
        ensures
            r@.len() == present_missions(self.missions@, chapter_ids(self.chapters@, chapter)).len(),
            forall|i: int| 0 <= i < r@.len() ==> *r@[i] == present_missions(
                self.missions@,
                chapter_ids(self.chapters@, chapter),
            )[i],
    {
        let mut out: Vec<&StoryMission> = Vec::new();
        match self.chapters.get(&chapter) {
            None => {
                return out;
            },
            Some(ids) => {
                let mut i: usize = 0;
                while i < ids.len()
                    invariant
                        0 <= i <= ids@.len(),
                        ids@ == chapter_ids(self.chapters@, chapter),
                        out@.len() == present_missions(self.missions@, ids@.take(i as int)).len(),
                        forall|j: int| 0 <= j < out@.len() ==> *out@[j] == present_missions(
                            self.missions@,
                            ids@.take(i as int),
                        )[j],
                    decreases ids.len() - i,
                {
                    assert(ids@.take(i as int + 1).drop_last() =~= ids@.take(i as int));
                    match self.missions.get(&ids[i]) {
                        Some(m) => {
                            out.push(m);
                        },
                        None => {},
                    }
                    i = i + 1;
                }
                assert(ids@.take(ids@.len() as int) =~= ids@);
                out
            },
        }
    }

    /// Number of registered missions.
    pub fn total_count(&self) -> (n: usize)
        ensures
            n == self.missions@.len(),
    {
        self.missions.len()
    }
}

/// Two rewards give the same things.
pub open spec fn same_rewards(a: MissionRewards, b: MissionRewards) -> bool {
    &&& a.money == b.money
    &&& a.respect == b.respect
    &&& a.unlock_weapons@ == b.unlock_weapons@
    &&& a.unlock_vehicles@ == b.unlock_vehicles@
    &&& a.unlock_areas@ == b.unlock_areas@
    &&& a.unlock_missions@ == b.unlock_missions@
    &&& a.set_flags@ == b.set_flags@
}

impl MissionRewards {
    /// An equal copy.
    pub fn duplicate(&self) -> (r: MissionRewards)
        ensures
            same_rewards(r, *self),
    {
        MissionRewards {
            money: self.money,
            respect: self.respect,
            unlock_weapons: copy_strings(&self.unlock_weapons),
            unlock_vehicles: copy_strings(&self.unlock_vehicles),
            unlock_areas: copy_ids(&self.unlock_areas),
            unlock_missions: copy_ids(&self.unlock_missions),
            set_flags: copy_strings(&self.set_flags),
        }
    }
}

/// An equal copy of a list of strings.
pub fn copy_strings(v: &Vec<String>) -> (r: Vec<String>)
    ensures
        r@ == v@,
{
    let mut r: Vec<String> = Vec::new();
    let mut i: usize = 0;
    while i < v.len()
        invariant
            0 <= i <= v.len(),
            r@ == v@.take(i as int),
        decreases v.len() - i,
    {
        r.push(v[i].clone());
        i = i + 1;
        assert(r@ =~= v@.take(i as int));
    }
    assert(v@.take(v@.len() as int) =~= v@);
    r
}

/// An equal copy of a list of ids.
pub fn copy_ids(v: &Vec<u32>) -> (r: Vec<u32>)
    ensures
        r@ == v@,
{
    let mut r: Vec<u32> = Vec::new();
    let mut i: usize = 0;
    while i < v.len()
        invariant
            0 <= i <= v.len(),
            r@ == v@.take(i as int),
        decreases v.len() - i,
    {
        r.push(v[i]);
        i = i + 1;
        assert(r@ =~= v@.take(i as int));
    }
    assert(v@.take(v@.len() as int) =~= v@);
    r
}

/// Target time of a mission, in milliseconds: its expected time, or five
/// minutes when it is not in the database.
pub open spec fn target_time_for(missions: Map<StoryMissionId, StoryMission>, id: StoryMissionId) -> u64 {
    if missions.contains_key(id) { (missions[id].estimated_time * 1000) as u64 } else { 300_000 }
}

/// Base reward of a mission: its money reward (as `i32`), or 1000 when it is
/// not in the database.
pub open spec fn base_reward_for(missions: Map<StoryMissionId, StoryMission>, id: StoryMissionId) -> i32 {
    if missions.contains_key(id) { missions[id].rewards.money as i32 } else { 1000 }
}

/// `a / b` rounded toward zero, for positive `b`.
pub open spec fn quotient_toward_zero(a: int, b: int) -> int {
    if a >= 0 { a / b } else { -((-a) / b) }
}

/// The base reward times the rating's multiplier, rounded toward zero and
/// kept within `i32`.
pub open spec fn final_reward_for(base: i32, r: StoryMissionRating) -> i32 {
    clamp_i32(quotient_toward_zero(base * rating_bonus_percent(r), 100)) as i32
}

/// Name shown for a mission: its title, or "任務 " and its id when it is not
/// in the database.
pub open spec fn mission_name_for(missions: Map<StoryMissionId, StoryMission>, id: StoryMissionId) -> Seq<char> {
    if missions.contains_key(id) { missions[id].title@ } else { "任務 "@ + decimal(id as nat) }
}

/// The performance of the attempt as finished at play time `now`.
pub open spec fn finished_performance(p: MissionPerformance, now: u64) -> MissionPerformance {
    MissionPerformance {
        completion_time: if now >= p.start_time { (now - p.start_time) as u64 } else { 0 },
        ..p
    }
}

/// What the manager looks like after completing its mission `a` with
/// performance `p`, against the database `missions`.
pub open spec fn completion_recorded(
    old_m: &StoryMissionManager,
    new_m: &StoryMissionManager,
    missions: Map<StoryMissionId, StoryMission>,
    a: ActiveStoryMission,
    p: MissionPerformance,
) -> bool {
    let id = a.mission_id;
    let perf = finished_performance(p, old_m.total_play_time);
    let rating = rating_for_score(performance_score(perf, target_time_for(missions, id)));
    let base = base_reward_for(missions, id);
    &&& new_m.current_performance is None
    &&& rating_stars(rating) > rating_stars(best_in(old_m.mission_ratings@, id)) ==> new_m.mission_ratings@
        == old_m.mission_ratings@.insert(id, rating)
    &&& rating_stars(rating) <= rating_stars(best_in(old_m.mission_ratings@, id)) ==> new_m.mission_ratings@
        == old_m.mission_ratings@
    &&& new_m.last_completion_result is Some
    &&& ({
        let res = new_m.last_completion_result->0;
        &&& res.mission_id == id
        &&& res.mission_name@ == mission_name_for(missions, id)
        &&& res.rating == rating
        &&& res.performance == perf
        &&& res.base_reward == base
        &&& res.final_reward == final_reward_for(base, rating)
        &&& missions.contains_key(id) ==> res.unlocked_items@ == missions[id].rewards.unlock_weapons@
            + missions[id].rewards.unlock_vehicles@ && res.unlocked_missions@ == missions[id].rewards.unlock_missions@
        &&& !missions.contains_key(id) ==> res.unlocked_items@.len() == 0 && res.unlocked_missions@.len() == 0
    })
}

impl StoryMissionManager {
    /// Completes the mission being played: it is marked completed and
    /// counted; when its performance was tracked, the attempt is rated
    /// (against the mission's expected time), the best rating kept, and
    /// the result stored for display. Returns the mission id and the
    /// entities to clean up; `None` when no mission is being played.
    pub fn complete_current_mission(&mut self, database: &StoryMissionDatabase) -> (r: Option<(StoryMissionId, Vec<u64>)>)
        requires
            manager_wf(old(self)),
            old(self).completed_count < u32::MAX,
        ensures
            manager_wf(final(self)),
            old(self).current_mission is None ==> r is None && final(self).mission_states == old(self).mission_states
                && final(self).current_performance == old(self).current_performance && final(self).mission_ratings
                == old(self).mission_ratings && final(self).last_completion_result == old(self).last_completion_result
                && final(self).completed_count == old(self).completed_count,
            old(self).current_mission is Some ==> ({
                let a = old(self).current_mission->0;
                &&& r is Some && (r->0).0 == a.mission_id && (r->0).1@ == a.spawned_entities@
                &&& final(self).mission_states@ == old(self).mission_states@.insert(
                    a.mission_id,
                    StoryMissionStatus::Completed,
                )
                &&& final(self).completed_count == old(self).completed_count + 1
                &&& old(self).current_performance is None ==> final(self).current_performance is None
                    && final(self).mission_ratings == old(self).mission_ratings && final(self).last_completion_result
                    == old(self).last_completion_result
                &&& old(self).current_performance is Some ==> completion_recorded(
                    old(self),
                    final(self),
                    database.missions@,
                    a,
                    old(self).current_performance->0,
                )
            }),
            final(self).current_mission is None,
            final(self).story_flags == old(self).story_flags,
            final(self).checkpoint == old(self).checkpoint,
            final(self).current_chapter == old(self).current_chapter,
            final(self).total_play_time == old(self).total_play_time,
    {
        let active = match self.current_mission.take() {
            Some(a) => a,
            None => {
                return None;
            },
        };
        let mission_id = active.mission_id;
        let mission = database.get(mission_id);
        match self.current_performance.take() {
            Some(p) => {
                let mut performance = p;
                performance.completion_time = if self.total_play_time >= performance.start_time {
                    self.total_play_time - performance.start_time
                } else {
                    0
                };
                let target_time: u64 = match mission {
                    Some(m) => m.estimated_time as u64 * 1000,
                    None => 300_000,
                };
                let rating = performance.calculate_rating(target_time);
                let current_best = self.get_best_rating(mission_id);
                if rating.stars() > current_best.stars() {
                    self.mission_ratings.insert(mission_id, rating);
                }
                let base_reward: i32 = match mission {
                    Some(m) => m.rewards.money as i32,
                    None => 1000,
                };
                let scaled: i64 = base_reward as i64 * rating.bonus_multiplier() as i64;
                let q: i64 = if scaled >= 0 { scaled / 100 } else { -((-scaled) / 100) };
                let final_reward: i32 = if q > i32::MAX as i64 {
                    i32::MAX
                } else if q < i32::MIN as i64 {
                    i32::MIN
                } else {
                    q as i32
                };
                let mission_name = match mission {
                    Some(m) => m.title.clone(),
                    None => {
                        let mut n = "任務 ".to_owned();
                        push_decimal(&mut n, mission_id);
                        n
                    },
                };
                let (unlocked_items, unlocked_missions) = match mission {
                    Some(m) => {
                        let mut items = copy_strings(&m.rewards.unlock_weapons);
                        let mut vehicles = copy_strings(&m.rewards.unlock_vehicles);
                        items.append(&mut vehicles);
                        (items, copy_ids(&m.rewards.unlock_missions))
                    },
                    None => (Vec::new(), Vec::new()),
                };
                self.last_completion_result = Some(
                    MissionCompletionResult {
                        mission_id,
                        mission_name,
                        rating,
                        performance,
                        base_reward,
                        final_reward,
                        unlocked_items,
                        unlocked_missions,
                    },
                );
            },
            None => {},
        }
        self.set_mission_status(mission_id, StoryMissionStatus::Completed);
        self.completed_count = self.completed_count + 1;
        Some((mission_id, active.spawned_entities))
    }

    /// Best rating earned on a mission (none when never completed with
    /// tracking).
    pub fn get_best_rating(&self, mission_id: StoryMissionId) -> (r: StoryMissionRating)
        ensures
            r == best_in(self.mission_ratings@, mission_id),
    {
        match self.mission_ratings.get(&mission_id) {
            Some(r) => *r,
            None => StoryMissionRating::NoStars,
        }
    }

    /// Forgets the last completion result (once shown).
    pub fn clear_completion_result(&mut self)
        ensures
            final(self).last_completion_result is None,
            final(self).mission_states == old(self).mission_states,
            final(self).current_mission == old(self).current_mission,
            final(self).story_flags == old(self).story_flags,
            final(self).checkpoint == old(self).checkpoint,
            final(self).current_performance == old(self).current_performance,
            final(self).mission_ratings == old(self).mission_ratings,
            same_progress(final(self), old(self)),
    {
        self.last_completion_result = None;
    }
}

/// The performance after counting a death (when tracked).
pub open spec fn with_death(p: Option<MissionPerformance>) -> Option<MissionPerformance> {
    match p {
        Some(q) => Some(MissionPerformance { player_deaths: (q.player_deaths + 1) as u32, ..q }),
        None => None,
    }
}

/// The performance after counting a checkpoint retry (when tracked).
pub open spec fn with_retry(p: Option<MissionPerformance>) -> Option<MissionPerformance> {
    match p {
        Some(q) => Some(MissionPerformance { checkpoint_retries: (q.checkpoint_retries + 1) as u32, ..q }),
        None => None,
    }
}

/// `new_m` after the mission being played in `old_m` fails for `reason`,
/// with `despawn` the entities to clean up: a player death is counted;
/// with a checkpoint the mission stays available (and its performance is
/// kept), without one it is marked failed and its performance dropped.
pub open spec fn mission_failed(
    old_m: &StoryMissionManager,
    new_m: &StoryMissionManager,
    reason: FailCondition,
    despawn: Seq<u64>,
) -> bool {
    let a = old_m.current_mission->0;
    let perf = if reason is PlayerDeath {
        with_death(old_m.current_performance)
    } else {
        old_m.current_performance
    };
    &&& despawn == a.spawned_entities@
    &&& new_m.current_mission is None
    &&& old_m.checkpoint is Some ==> new_m.mission_states@ == old_m.mission_states@.insert(
        a.mission_id,
        StoryMissionStatus::Available,
    ) && new_m.current_performance == perf
    &&& old_m.checkpoint is None ==> new_m.mission_states@ == old_m.mission_states@.insert(
        a.mission_id,
        StoryMissionStatus::Failed,
    ) && new_m.current_performance is None
    &&& new_m.story_flags == old_m.story_flags
    &&& new_m.checkpoint == old_m.checkpoint
    &&& new_m.mission_ratings == old_m.mission_ratings
    &&& new_m.last_completion_result == old_m.last_completion_result
    &&& same_progress(new_m, old_m)
}

impl StoryMissionManager {
    /// Fails the mission being played. A player death is counted in the
    /// performance. With a checkpoint the mission stays available for a
    /// retry (and its performance is kept); without one it is marked
    /// failed and its performance dropped. Returns the entities to clean
    /// up (none when no mission is being played, and then nothing changes).
    pub fn fail_current_mission(&mut self, reason: FailCondition) -> (r: Vec<u64>)
        requires
            old(self).current_mission is Some ==> performance_has_room(old(self)),
        ensures
            old(self).current_mission is None ==> r@.len() == 0 && *final(self) == *old(self),
            old(self).current_mission is Some ==> mission_failed(old(self), final(self), reason, r@),
    {
        let active = match self.current_mission.take() {
            Some(a) => a,
            None => {
                return Vec::new();
            },
        };
        let mission_id = active.mission_id;
        if let FailCondition::PlayerDeath = reason {
            self.record_player_death();
        }
        if self.checkpoint.is_some() {
            self.set_mission_status(mission_id, StoryMissionStatus::Available);
        } else {
            self.set_mission_status(mission_id, StoryMissionStatus::Failed);
            self.current_performance = None;
        }
        active.spawned_entities
    }

}

/// `new_m` and the result `r` after restarting from the checkpoint of
/// `old_m`: refused when there is no checkpoint or its mission is unknown
/// (nothing changes); otherwise the retry is counted and, when the mission
/// has the checkpoint's phase, the mission is in progress again from that
/// phase and the player resumes at the checkpoint; else it is refused.
pub open spec fn retried(
    old_m: &StoryMissionManager,
    new_m: &StoryMissionManager,
    missions: Map<StoryMissionId, StoryMission>,
    r: Result<Position, String>,
) -> bool {
    &&& old_m.checkpoint is None ==> (r is Err && r->Err_0@ == "沒有可用的檢查點"@)
    &&& old_m.checkpoint is Some && !missions.contains_key(old_m.checkpoint->0.mission_id) ==> (r is Err
        && r->Err_0@ == "找不到任務資料"@)
    &&& old_m.checkpoint is Some && missions.contains_key(old_m.checkpoint->0.mission_id) ==> ({
        let c = old_m.checkpoint->0;
        let m = missions[c.mission_id];
        &&& new_m.current_performance == with_retry(old_m.current_performance)
        &&& c.phase < m.phases@.len() ==> {
            &&& r == Ok::<Position, String>(c.player_position)
            &&& new_m.mission_states@ == old_m.mission_states@.insert(c.mission_id, StoryMissionStatus::InProgress)
            &&& new_m.current_mission is Some
            &&& new_m.current_mission->0.mission_id == c.mission_id
            &&& new_m.current_mission->0.current_phase == c.phase
            &&& new_m.current_mission->0.phase_timer == 0
            &&& new_m.current_mission->0.objectives@ == m.phases@[c.phase as int].objectives@
        }
        &&& c.phase >= m.phases@.len() ==> (r is Err && r->Err_0@ == "檢查點階段無效"@) && new_m.mission_states
            == old_m.mission_states && new_m.current_mission == old_m.current_mission
    })
    &&& r is Err && (old_m.checkpoint is None || !missions.contains_key(old_m.checkpoint->0.mission_id))
        ==> new_m.current_performance == old_m.current_performance && new_m.mission_states == old_m.mission_states
        && new_m.current_mission == old_m.current_mission
    &&& new_m.story_flags == old_m.story_flags
    &&& new_m.checkpoint == old_m.checkpoint
    &&& new_m.mission_ratings == old_m.mission_ratings
    &&& new_m.last_completion_result == old_m.last_completion_result
    &&& same_progress(new_m, old_m)
}

impl StoryMissionManager {
    /// Restarts the mission of the checkpoint at the checkpoint's phase
    /// and returns where the player resumes. Refused when there is no
    /// checkpoint, when its mission is not in the database, or (after
    /// counting the retry) when the mission has no such phase.
    pub fn retry_from_checkpoint(&mut self, database: &StoryMissionDatabase) -> (r: Result<Position, String>)
        requires
            performance_has_room(old(self)),
        ensures
            retried(old(self), final(self), database.missions@, r),
    {
        let (mission_id, phase, position) = match &self.checkpoint {
            Some(c) => (c.mission_id, c.phase, c.player_position),
            None => {
                return Err("沒有可用的檢查點".to_owned());
            },
        };
        let mission = match database.get(mission_id) {
            Some(m) => m,
            None => {
                return Err("找不到任務資料".to_owned());
            },
        };
        self.record_checkpoint_retry();
        match mission.get_phase(phase as usize) {
            Some(p) => {
                let mut active = ActiveStoryMission::new(mission_id, p);
                active.current_phase = phase as usize;
                self.current_mission = Some(active);
                self.set_mission_status(mission_id, StoryMissionStatus::InProgress);
                Ok(position)
            },
            None => Err("檢查點階段無效".to_owned()),
        }
    }

    /// Abandons the mission being played: it becomes available again and
    /// its performance is dropped. Returns the entities to clean up (none,
    /// and no change, when no mission is being played).
    pub fn abandon_current_mission(&mut self) -> (r: Vec<u64>)
        ensures
            final(self).current_mission is None,
            old(self).current_mission is None ==> r@.len() == 0 && final(self).mission_states
                == old(self).mission_states && final(self).current_performance == old(self).current_performance,
            old(self).current_mission is Some ==> r@ == old(self).current_mission->0.spawned_entities@
                && final(self).mission_states@ == old(self).mission_states@.insert(
                old(self).current_mission->0.mission_id,
                StoryMissionStatus::Available,
            ) && final(self).current_performance is None,
            final(self).story_flags == old(self).story_flags,
            final(self).checkpoint == old(self).checkpoint,
            final(self).mission_ratings == old(self).mission_ratings,
            final(self).last_completion_result == old(self).last_completion_result,
            same_progress(final(self), old(self)),
    {
        let active = match self.current_mission.take() {
            Some(a) => a,
            None => {
                return Vec::new();
            },
        };
        self.set_mission_status(active.mission_id, StoryMissionStatus::Available);
        self.current_performance = None;
        active.spawned_entities
    }

    /// Counts a death in the tracked performance.
    pub fn record_player_death(&mut self)
        requires
            performance_has_room(old(self)),
        ensures
            final(self).current_performance == with_death(old(self).current_performance),
            final(self).mission_states == old(self).mission_states,
            final(self).current_mission == old(self).current_mission,
            final(self).story_flags == old(self).story_flags,
            final(self).checkpoint == old(self).checkpoint,
            final(self).mission_ratings == old(self).mission_ratings,
            final(self).last_completion_result == old(self).last_completion_result,
            same_progress(final(self), old(self)),
    {
        if let Some(p) = &mut self.current_performance {
            p.record_death();
        }
    }

    /// Counts a checkpoint retry in the tracked performance.
    pub fn record_checkpoint_retry(&mut self)
        requires
            performance_has_room(old(self)),
        ensures
            final(self).current_performance == with_retry(old(self).current_performance),
            final(self).mission_states == old(self).mission_states,
            final(self).current_mission == old(self).current_mission,
            final(self).story_flags == old(self).story_flags,
            final(self).checkpoint == old(self).checkpoint,
            final(self).mission_ratings == old(self).mission_ratings,
            final(self).last_completion_result == old(self).last_completion_result,
            same_progress(final(self), old(self)),
    {
        if let Some(p) = &mut self.current_performance {
            p.record_retry();
        }
    }

    /// Counts a shot in the tracked performance.
    pub fn record_shot(&mut self, hit: bool, headshot: bool)
        requires
            performance_has_room(old(self)),
        ensures
            old(self).current_performance is None ==> final(self).current_performance is None,
            old(self).current_performance is Some ==> final(self).current_performance == Some(
                MissionPerformance {
                    shots_fired: (old(self).current_performance->0.shots_fired + 1) as u32,
                    shots_hit: (old(self).current_performance->0.shots_hit + if hit { 1int } else { 0int }) as u32,
                    headshots: (old(self).current_performance->0.headshots + if headshot { 1int } else { 0int }) as u32,
                    ..old(self).current_performance->0
                },
            ),
            final(self).mission_states == old(self).mission_states,
            final(self).current_mission == old(self).current_mission,
            final(self).story_flags == old(self).story_flags,
            final(self).checkpoint == old(self).checkpoint,
            final(self).mission_ratings == old(self).mission_ratings,
            final(self).last_completion_result == old(self).last_completion_result,
            same_progress(final(self), old(self)),
    {
        if let Some(p) = &mut self.current_performance {
            p.record_shot(hit, headshot);
        }
    }

    /// Counts a kill in the tracked performance.
    pub fn record_kill(&mut self)
        requires
            performance_has_room(old(self)),
        ensures
            old(self).current_performance is None ==> final(self).current_performance is None,
            old(self).current_performance is Some ==> final(self).current_performance == Some(
                MissionPerformance {
                    enemies_killed: (old(self).current_performance->0.enemies_killed + 1) as u32,
                    ..old(self).current_performance->0
                },
            ),
            final(self).mission_states == old(self).mission_states,
            final(self).current_mission == old(self).current_mission,
            final(self).story_flags == old(self).story_flags,
            final(self).checkpoint == old(self).checkpoint,
            final(self).mission_ratings == old(self).mission_ratings,
            final(self).last_completion_result == old(self).last_completion_result,
            same_progress(final(self), old(self)),
    {
        if let Some(p) = &mut self.current_performance {
            p.record_kill();
        }
    }

    /// Counts a detection in the tracked performance.
    pub fn record_detection(&mut self)
        requires
            performance_has_room(old(self)),
        ensures
            old(self).current_performance is None ==> final(self).current_performance is None,
            old(self).current_performance is Some ==> final(self).current_performance == Some(
                MissionPerformance {
                    times_detected: (old(self).current_performance->0.times_detected + 1) as u32,
                    ..old(self).current_performance->0
                },
            ),
            final(self).mission_states == old(self).mission_states,
            final(self).current_mission == old(self).current_mission,
            final(self).story_flags == old(self).story_flags,
            final(self).checkpoint == old(self).checkpoint,
            final(self).mission_ratings == old(self).mission_ratings,
            final(self).last_completion_result == old(self).last_completion_result,
            same_progress(final(self), old(self)),
    {
        if let Some(p) = &mut self.current_performance {
            p.record_detection();
        }
    }
}

/// The status table after unlocking every mission of `ids`: each locked one
/// becomes available.
pub open spec fn unlocked_all(
    old_states: Map<StoryMissionId, StoryMissionStatus>,
    ids: Seq<StoryMissionId>,
    id: StoryMissionId,
) -> StoryMissionStatus {
    if ids.contains(id) && status_in(old_states, id) == StoryMissionStatus::Locked {
        StoryMissionStatus::Available
    } else {
        status_in(old_states, id)
    }
}

/// Whether a name is among a list of flag names.
pub open spec fn named_in(flags: Seq<String>, name: Seq<char>) -> bool {
    exists|i: int| 0 <= i < flags.len() && (#[trigger] flags[i])@ == name
}

/// The item keys of a list of strings.
pub open spec fn keys_of(v: Seq<String>) -> Set<Seq<char>> {
    item_keys(v)
}

/// `new_m` and the player's wallet, respect and unlocks after a mission's
/// rewards are given: the money added to the wallet, the respect added,
/// the weapons, vehicles and areas unlocked, locked missions of the reward
/// made available and the reward's story flags set; nothing else of the
/// manager changes.
pub open spec fn rewards_granted(
    old_m: &StoryMissionManager,
    new_m: &StoryMissionManager,
    rewards: MissionRewards,
    w0: PlayerWallet,
    w1: PlayerWallet,
    r0: RespectManager,
    r1: RespectManager,
    u0: UnlockManager,
    u1: UnlockManager,
) -> bool {
    &&& w1 == add_cash_post(w0, rewards.money as i32)
    &&& r1.respect == respect_after(r0.respect as int, (rewards.respect as i32) as int)
    &&& item_keys(u1.unlocked_items@) == item_keys(u0.unlocked_items@).union(keys_of(rewards.unlock_weapons@)).union(
        keys_of(rewards.unlock_vehicles@),
    )
    &&& u1.unlocked_areas@.to_set() == u0.unlocked_areas@.to_set().union(rewards.unlock_areas@.to_set())
    &&& forall|id: StoryMissionId| #[trigger] status_in(new_m.mission_states@, id) == unlocked_all(
        old_m.mission_states@,
        rewards.unlock_missions@,
        id,
    )
    &&& forall|name: Seq<char>| #[trigger] flag_in(new_m.story_flags@, name) == (named_in(rewards.set_flags@, name)
        || flag_in(old_m.story_flags@, name))
    &&& new_m.current_mission == old_m.current_mission
    &&& new_m.checkpoint == old_m.checkpoint
    &&& new_m.current_performance == old_m.current_performance
    &&& new_m.mission_ratings == old_m.mission_ratings
    &&& new_m.last_completion_result == old_m.last_completion_result
    &&& same_progress(new_m, old_m)
}

impl StoryMissionManager {
    /// Gives a mission's rewards: money to the wallet, respect, unlocked
    /// weapons, vehicles and areas, unlocked missions (locked ones become
    /// available) and story flags set.
    pub fn grant_rewards(
        &mut self,
        rewards: &MissionRewards,
        wallet: &mut PlayerWallet,
        respect: &mut RespectManager,
        unlocks: &mut UnlockManager,
    )
        requires
            manager_wf(old(self)),
            unlocks_wf(*old(unlocks)),
            old(respect).respect + (rewards.respect as i32) <= i32::MAX,
            old(respect).respect + (rewards.respect as i32) >= i32::MIN,
        ensures
            manager_wf(final(self)),
            unlocks_wf(*final(unlocks)),
            rewards_granted(
                old(self),
                final(self),
                *rewards,
                *old(wallet),
                *final(wallet),
                *old(respect),
                *final(respect),
                *old(unlocks),
                *final(unlocks),
            ),
    {
        wallet.add_cash(rewards.money as i32);
        respect.add_respect(rewards.respect as i32);
        let ghost items0 = item_keys(unlocks.unlocked_items@);
        let mut i: usize = 0;
        while i < rewards.unlock_weapons.len()
            invariant
                0 <= i <= rewards.unlock_weapons@.len(),
                unlocks_wf(*unlocks),
                unlocks.unlocked_areas == old(unlocks).unlocked_areas,
                item_keys(unlocks.unlocked_items@) == items0.union(item_keys(rewards.unlock_weapons@.take(i as int))),
            decreases rewards.unlock_weapons.len() - i,
        {
            unlocks.unlock_item(rewards.unlock_weapons[i].clone());
            proof {
                assert(item_keys(rewards.unlock_weapons@.take(i + 1)) =~= item_keys(rewards.unlock_weapons@.take(i as int)).insert(
                    rewards.unlock_weapons@[i as int]@,
                )) by {
                    let t0 = rewards.unlock_weapons@.take(i as int);
                    let t1 = rewards.unlock_weapons@.take(i + 1);
                    assert forall|k: Seq<char>| item_keys(t1).contains(k) implies item_keys(t0).insert(
                        rewards.unlock_weapons@[i as int]@,
                    ).contains(k) by {
                        let j = choose|j: int| 0 <= j < t1.len() && (#[trigger] t1[j])@ == k;
                        if j < i {
                            assert(t0[j] == t1[j]);
                        }
                    }
                    assert forall|k: Seq<char>| item_keys(t0).insert(rewards.unlock_weapons@[i as int]@).contains(k) implies item_keys(
                        t1,
                    ).contains(k) by {
                        if k == rewards.unlock_weapons@[i as int]@ {
                            assert(t1[i as int]@ == k);
                        } else {
                            let j = choose|j: int| 0 <= j < t0.len() && (#[trigger] t0[j])@ == k;
                            assert(t1[j] == t0[j]);
                        }
                    }
                }
            }
            i = i + 1;
            assert(item_keys(unlocks.unlocked_items@) =~= items0.union(item_keys(rewards.unlock_weapons@.take(i as int))));
        }
        assert(rewards.unlock_weapons@.take(i as int) =~= rewards.unlock_weapons@);
        let ghost items1 = item_keys(unlocks.unlocked_items@);
        let mut i: usize = 0;
        while i < rewards.unlock_vehicles.len()
            invariant
                0 <= i <= rewards.unlock_vehicles@.len(),
                unlocks_wf(*unlocks),
                unlocks.unlocked_areas == old(unlocks).unlocked_areas,
                item_keys(unlocks.unlocked_items@) == items1.union(item_keys(rewards.unlock_vehicles@.take(i as int))),
            decreases rewards.unlock_vehicles.len() - i,
        {
            unlocks.unlock_item(rewards.unlock_vehicles[i].clone());
            proof {
                assert(item_keys(rewards.unlock_vehicles@.take(i + 1)) =~= item_keys(rewards.unlock_vehicles@.take(i as int)).insert(
                    rewards.unlock_vehicles@[i as int]@,
                )) by {
                    let t0 = rewards.unlock_vehicles@.take(i as int);
                    let t1 = rewards.unlock_vehicles@.take(i + 1);
                    assert forall|k: Seq<char>| item_keys(t1).contains(k) implies item_keys(t0).insert(
                        rewards.unlock_vehicles@[i as int]@,
                    ).contains(k) by {
                        let j = choose|j: int| 0 <= j < t1.len() && (#[trigger] t1[j])@ == k;
                        if j < i {
                            assert(t0[j] == t1[j]);
                        }
                    }
                    assert forall|k: Seq<char>| item_keys(t0).insert(rewards.unlock_vehicles@[i as int]@).contains(k) implies item_keys(
                        t1,
                    ).contains(k) by {
                        if k == rewards.unlock_vehicles@[i as int]@ {
                            assert(t1[i as int]@ == k);
                        } else {
                            let j = choose|j: int| 0 <= j < t0.len() && (#[trigger] t0[j])@ == k;
                            assert(t1[j] == t0[j]);
                        }
                    }
                }
            }
            i = i + 1;
            assert(item_keys(unlocks.unlocked_items@) =~= items1.union(item_keys(rewards.unlock_vehicles@.take(i as int))));
        }
        assert(rewards.unlock_vehicles@.take(i as int) =~= rewards.unlock_vehicles@);
        let ghost areas0 = unlocks.unlocked_areas@.to_set();
        let mut i: usize = 0;
        while i < rewards.unlock_areas.len()
            invariant
                0 <= i <= rewards.unlock_areas@.len(),
                unlocks_wf(*unlocks),
                item_keys(unlocks.unlocked_items@) == items1.union(keys_of(rewards.unlock_vehicles@)),
                unlocks.unlocked_areas@.to_set() == areas0.union(rewards.unlock_areas@.take(i as int).to_set()),
            decreases rewards.unlock_areas.len() - i,
        {
            let a = rewards.unlock_areas[i];
            unlocks.unlock_area(a);
            proof {
                let t0 = rewards.unlock_areas@.take(i as int);
                let t1 = rewards.unlock_areas@.take(i + 1);
                assert(t1.to_set() =~= t0.to_set().insert(a)) by {
                    assert forall|x: AreaId| t1.to_set().contains(x) implies t0.to_set().insert(a).contains(x) by {
                        let j = choose|j: int| 0 <= j < t1.len() && t1[j] == x;
                        if j < i {
                            assert(t0[j] == x);
                        }
                    }
                    assert forall|x: AreaId| t0.to_set().insert(a).contains(x) implies t1.to_set().contains(x) by {
                        if x == a {
                            assert(t1[i as int] == x);
                        } else {
                            let j = choose|j: int| 0 <= j < t0.len() && t0[j] == x;
                            assert(t1[j] == x);
                        }
                    }
                }
            }
            i = i + 1;
            assert(unlocks.unlocked_areas@.to_set() =~= areas0.union(rewards.unlock_areas@.take(i as int).to_set()));
        }
        assert(rewards.unlock_areas@.take(i as int) =~= rewards.unlock_areas@);
        let ghost states0 = self.mission_states@;
        let mut i: usize = 0;
        while i < rewards.unlock_missions.len()
            invariant
                0 <= i <= rewards.unlock_missions@.len(),
                manager_wf(self),
                self.story_flags == old(self).story_flags,
                self.current_mission == old(self).current_mission,
                self.checkpoint == old(self).checkpoint,
                self.current_performance == old(self).current_performance,
                self.mission_ratings == old(self).mission_ratings,
                self.last_completion_result == old(self).last_completion_result,
                same_progress(self, old(self)),
                states0 == old(self).mission_states@,
                forall|id: StoryMissionId| #[trigger] status_in(self.mission_states@, id) == unlocked_all(
                    states0,
                    rewards.unlock_missions@.take(i as int),
                    id,
                ),
            decreases rewards.unlock_missions.len() - i,
        {
            let id = rewards.unlock_missions[i];
            let ghost mid = self.mission_states@;
            self.unlock_mission(id);
            proof {
                let t0 = rewards.unlock_missions@.take(i as int);
                let t1 = rewards.unlock_missions@.take(i + 1);
                assert forall|x: StoryMissionId| #[trigger] status_in(self.mission_states@, x) == unlocked_all(states0, t1, x) by {
                    assert(status_in(mid, x) == unlocked_all(states0, t0, x));
                    if t1.contains(x) && x != id {
                        let j = choose|j: int| 0 <= j < t1.len() && t1[j] == x;
                        assert(j < i);
                        assert(t0[j] == x);
                    }
                    if t0.contains(x) {
                        let j = choose|j: int| 0 <= j < t0.len() && t0[j] == x;
                        assert(t1[j] == x);
                    }
                    if x == id {
                        assert(t1[i as int] == x);
                    }
                }
            }
            i = i + 1;
        }
        assert(rewards.unlock_missions@.take(i as int) =~= rewards.unlock_missions@);
        let ghost flags0 = self.story_flags@;
        let mut i: usize = 0;
        while i < rewards.set_flags.len()
            invariant
                0 <= i <= rewards.set_flags@.len(),
                manager_wf(self),
                self.current_mission == old(self).current_mission,
                self.checkpoint == old(self).checkpoint,
                self.current_performance == old(self).current_performance,
                self.mission_ratings == old(self).mission_ratings,
                self.last_completion_result == old(self).last_completion_result,
                same_progress(self, old(self)),
                flags0 == old(self).story_flags@,
                forall|id: StoryMissionId| #[trigger] status_in(self.mission_states@, id) == unlocked_all(
                    states0,
                    rewards.unlock_missions@,
                    id,
                ),
                forall|name: Seq<char>| #[trigger] flag_in(self.story_flags@, name) == (named_in(
                    rewards.set_flags@.take(i as int),
                    name,
                ) || flag_in(flags0, name)),
            decreases rewards.set_flags.len() - i,
        {
            let ghost t0 = rewards.set_flags@.take(i as int);
            let ghost t1 = rewards.set_flags@.take(i + 1);
            self.set_flag(rewards.set_flags[i].clone(), true);
            assert forall|name: Seq<char>| #[trigger] flag_in(self.story_flags@, name) == (named_in(t1, name)
                || flag_in(flags0, name)) by {
                if named_in(t1, name) {
                    let j = choose|j: int| 0 <= j < t1.len() && (#[trigger] t1[j])@ == name;
                    if j < i {
                        assert(t0[j] == t1[j]);
                    }
                }
                if named_in(t0, name) {
                    let j = choose|j: int| 0 <= j < t0.len() && (#[trigger] t0[j])@ == name;
                    assert(t1[j] == t0[j]);
                }
                if name == rewards.set_flags@[i as int]@ {
                    assert(t1[i as int]@ == name);
                }
            }
            i = i + 1;
        }
        assert(rewards.set_flags@.take(i as int) =~= rewards.set_flags@);
    }

    /// Saves a checkpoint of the mission being played at `position` and
    /// phase `phase`, with the current play time and objectives; nothing
    /// happens when no mission is being played.
    pub fn create_checkpoint(&mut self, position: Position, phase: u32)
        ensures
            old(self).current_mission is None ==> final(self).checkpoint == old(self).checkpoint,
            old(self).current_mission is Some ==> ({
                let a = old(self).current_mission->0;
                &&& final(self).checkpoint is Some
                &&& final(self).checkpoint->0.mission_id == a.mission_id
                &&& final(self).checkpoint->0.phase == phase
                &&& final(self).checkpoint->0.player_position == position
                &&& final(self).checkpoint->0.timestamp == old(self).total_play_time
                &&& final(self).checkpoint->0.objectives_state@ == a.objectives@
            }),
            final(self).mission_states == old(self).mission_states,
            final(self).current_mission == old(self).current_mission,
            final(self).story_flags == old(self).story_flags,
            final(self).current_performance == old(self).current_performance,
            final(self).mission_ratings == old(self).mission_ratings,
            final(self).last_completion_result == old(self).last_completion_result,
            same_progress(final(self), old(self)),
    {
        let cp = match &self.current_mission {
            Some(active) => CheckpointData {
                mission_id: active.mission_id,
                phase,
                player_position: position,
                timestamp: self.total_play_time,
                objectives_state: copy_objectives(&active.objectives),
            },
            None => {
                return;
            },
        };
        self.checkpoint = Some(cp);
    }

    /// The saved checkpoint, if any.
    pub fn load_checkpoint(&self) -> (r: Option<&CheckpointData>)
        ensures
            r == match self.checkpoint {
                Some(c) => Some(&c),
                None => None::<&CheckpointData>,
            },
    {
        match &self.checkpoint {
            Some(c) => Some(c),
            None => None,
        }
    }

    /// Checks the saved checkpoint against the database and returns a copy:
    /// refused, in this order, when there is none, when its mission is not
    /// registered, when the mission has no such phase, or when it was saved
    /// after the current play time.
    pub fn validate_and_load_checkpoint(&self, database: &StoryMissionDatabase) -> (r: Result<CheckpointData, CheckpointError>)
        ensures
            self.checkpoint is None ==> r == Err::<CheckpointData, CheckpointError>(CheckpointError::NoCheckpoint),
            self.checkpoint is Some ==> ({
                let c = self.checkpoint->0;
                &&& !database.missions@.contains_key(c.mission_id) ==> r == Err::<CheckpointData, CheckpointError>(
                    CheckpointError::MissionNotFound(c.mission_id),
                )
                &&& database.missions@.contains_key(c.mission_id) && c.phase >= database.missions@[c.mission_id].phases@.len()
                    ==> r == Err::<CheckpointData, CheckpointError>(
                    CheckpointError::InvalidPhase { mission_id: c.mission_id, phase: c.phase },
                )
                &&& database.missions@.contains_key(c.mission_id) && c.phase < database.missions@[c.mission_id].phases@.len()
                    && c.timestamp > self.total_play_time ==> r == Err::<CheckpointData, CheckpointError>(
                    CheckpointError::InvalidTimestamp,
                )
                &&& database.missions@.contains_key(c.mission_id) && c.phase < database.missions@[c.mission_id].phases@.len()
                    && c.timestamp <= self.total_play_time ==> r is Ok && r->Ok_0.mission_id == c.mission_id
                    && r->Ok_0.phase == c.phase && r->Ok_0.player_position == c.player_position && r->Ok_0.timestamp
                    == c.timestamp && r->Ok_0.objectives_state@ == c.objectives_state@
            }),
    {
        let checkpoint = match &self.checkpoint {
            Some(c) => c,
            None => {
                return Err(CheckpointError::NoCheckpoint);
            },
        };
        let mission = match database.get(checkpoint.mission_id) {
            Some(m) => m,
            None => {
                return Err(CheckpointError::MissionNotFound(checkpoint.mission_id));
            },
        };
        if mission.get_phase(checkpoint.phase as usize).is_none() {
            return Err(CheckpointError::InvalidPhase { mission_id: checkpoint.mission_id, phase: checkpoint.phase });
        }
        if checkpoint.timestamp > self.total_play_time {
            return Err(CheckpointError::InvalidTimestamp);
        }
        Ok(checkpoint.duplicate())
    }

    /// Forgets the checkpoint.
    pub fn clear_checkpoint(&mut self)
        ensures
            final(self).checkpoint is None,
            final(self).mission_states == old(self).mission_states,
            final(self).current_mission == old(self).current_mission,
            final(self).story_flags == old(self).story_flags,
            final(self).current_performance == old(self).current_performance,
            final(self).mission_ratings == old(self).mission_ratings,
            final(self).last_completion_result == old(self).last_completion_result,
            same_progress(final(self), old(self)),
    {
        self.checkpoint = None;
    }

    /// Share of `total_missions` completed, in hundredths of a percent,
    /// rounded down (0 when there are none).
    pub fn completion_percentage(&self, total_missions: usize) -> (p: u64)
        ensures
            total_missions == 0 ==> p == 0,
            total_missions > 0 ==> p as int == (self.completed_count * 10000) as int / total_missions as int,
    {
        if total_missions == 0 {
            return 0;
        }
        (self.completed_count as u64 * 10000) / total_missions as u64
    }
}

impl StoryMissionManager {
    /// The missions with a given status, each once, in the table's order.
    fn missions_with_status(&self, wanted: StoryMissionStatus) -> (r: Vec<StoryMissionId>)
        ensures
            r@.no_duplicates(),
            forall|id: StoryMissionId| r@.contains(id) <==> (self.mission_states@.contains_key(id)
                && self.mission_states@[id] == wanted),
    {
        let mut out: Vec<StoryMissionId> = Vec::new();
        let ghost m = self.mission_states@;
        let ghost v = vstd::std_specs::hash::spec_hash_map_iter(&self.mission_states).remaining();
        proof {
            assert(v.len() == m.dom().len());
        }
        for entry in it: self.mission_states.iter()
            invariant
                m == self.mission_states@,
                v == vstd::std_specs::hash::spec_hash_map_iter(&self.mission_states).remaining(),
                it.seq() == v,
                v.no_duplicates(),
                out@.no_duplicates(),
                forall|id: StoryMissionId| out@.contains(id) ==> m.contains_key(id) && m[id] == wanted
                    && exists|j: int| 0 <= j < it.index() && *v[j].0 == id,
                forall|j: int| 0 <= j < it.index() && *(#[trigger] v[j]).1 == wanted ==> out@.contains(*v[j].0),
        {
            let ghost k = it.index();
            let (id, status) = entry;
            proof {
                assert(m.contains_key(*v[k].0) && m[*v[k].0] == *v[k].1);
                assert(*id == *v[k].0 && *status == *v[k].1);
            }
            if *status == wanted {
                proof {
                    if out@.contains(*id) {
                        let j = choose|j: int| 0 <= j < k && *v[j].0 == *id;
                        assert(m.contains_key(*v[j].0) && m[*v[j].0] == *v[j].1);
                        assert(v[j] == v[k]);
                    }
                }
                let ghost out0 = out@;
                out.push(*id);
                proof {
                    assert forall|j: int| 0 <= j <= k && *(#[trigger] v[j]).1 == wanted implies out@.contains(*v[j].0) by {
                        if j < k {
                            let i = choose|i: int| 0 <= i < out0.len() && out0[i] == *v[j].0;
                            assert(out@[i] == *v[j].0);
                        } else {
                            assert(out@[out0.len() as int] == *v[j].0);
                        }
                    }
                    assert forall|x: StoryMissionId| out@.contains(x) implies m.contains_key(x) && m[x] == wanted
                        && exists|j: int| 0 <= j < k + 1 && *v[j].0 == x by {
                        let i = choose|i: int| 0 <= i < out@.len() && out@[i] == x;
                        if i < out0.len() {
                            assert(out0[i] == x);
                        }
                    }
                }
            }
        }
        proof {
            assert forall|id: StoryMissionId| m.contains_key(id) && m[id] == wanted implies out@.contains(id) by {
                assert(v.contains((&id, &m[id])));
                let j = choose|j: int| 0 <= j < v.len() && v[j] == (&id, &m[id]);
                assert(*v[j].1 == wanted);
            }
        }
        out
    }

    /// The missions that can be started.
    pub fn get_available_missions(&self) -> (r: Vec<StoryMissionId>)
        ensures
            r@.no_duplicates(),
            forall|id: StoryMissionId| r@.contains(id) <==> status_in(self.mission_states@, id) == StoryMissionStatus::Available,
    {
        self.missions_with_status(StoryMissionStatus::Available)
    }

    /// The missions completed.
    pub fn get_completed_missions(&self) -> (r: Vec<StoryMissionId>)
        ensures
            r@.no_duplicates(),
            forall|id: StoryMissionId| r@.contains(id) <==> status_in(self.mission_states@, id) == StoryMissionStatus::Completed,
    {
        self.missions_with_status(StoryMissionStatus::Completed)
    }
}

/// Toggling a flag twice gives every flag back its value.
pub proof fn toggle_twice_restores(
    f0: Seq<(String, bool)>,
    f1: Seq<(String, bool)>,
    f2: Seq<(String, bool)>,
    flag: Seq<char>,
)
    requires
        flag_in(f1, flag) == !flag_in(f0, flag),
        forall|name: Seq<char>| name != flag ==> flag_in(f1, name) == flag_in(f0, name),
        flag_in(f2, flag) == !flag_in(f1, flag),
        forall|name: Seq<char>| name != flag ==> flag_in(f2, name) == flag_in(f1, name),
    ensures
        forall|name: Seq<char>| flag_in(f2, name) == flag_in(f0, name),
{
}

/// The best rating of a mission never goes down when a completion is
/// recorded.
pub proof fn best_rating_never_decreases(
    old_ratings: Map<StoryMissionId, StoryMissionRating>,
    new_ratings: Map<StoryMissionId, StoryMissionRating>,
    id: StoryMissionId,
    rating: StoryMissionRating,
    other: StoryMissionId,
)
    requires
        rating_stars(rating) > rating_stars(best_in(old_ratings, id)) ==> new_ratings == old_ratings.insert(id, rating),
        rating_stars(rating) <= rating_stars(best_in(old_ratings, id)) ==> new_ratings == old_ratings,
    ensures
        rating_stars(best_in(new_ratings, id)) >= rating_stars(best_in(old_ratings, id)),
        rating_stars(best_in(new_ratings, id)) >= rating_stars(rating),
        other != id ==> best_in(new_ratings, other) == best_in(old_ratings, other),
{
}

/// Unlocking never changes a mission that is not locked: a completed,
/// failed or running mission keeps its status.
pub proof fn unlocking_keeps_progress(
    old_states: Map<StoryMissionId, StoryMissionStatus>,
    ids: Seq<StoryMissionId>,
    id: StoryMissionId,
)
    ensures
        status_in(old_states, id) != StoryMissionStatus::Locked ==> unlocked_all(old_states, ids, id) == status_in(
            old_states,
            id,
        ),
        unlocked_all(old_states, ids, id) != StoryMissionStatus::Locked || !ids.contains(id),
{
}

} // verus!
