//! The story missions of chapter one (ids 1 to 5).
use vstd::prelude::*;
use crate::mission::story_data::types::{Position, StoryMissionType};
use crate::mission::story_data::conditions::{FailCondition, UnlockCondition};
use crate::mission::story_data::objectives::{
    MissionObjective, ObjectiveType, collects, follows, kills_marked, objective_is, talks_to,
};
use crate::mission::story_data::phases::{MissionPhase, phase_is};
use crate::mission::story_data::rewards::{Difficulty, MissionRewards};
use crate::mission::story_data::mission::StoryMission;
use crate::mission::story_manager::{StoryMissionDatabase, chapter_ids};

verus! {

/// Title of story mission `id` of chapter one.
pub open spec fn chapter_one_title(id: int) -> Seq<char> {
    if id == 1 {
        "初來乍到"@
    } else if id == 2 {
        "收債"@
    } else if id == 3 {
        "追蹤線索"@
    } else if id == 4 {
        "夜間行動"@
    } else {
        "清算日"@
    }
}

/// The rest of story mission 1 of chapter one: description, difficulty,
/// every phase with its objectives, and the story flags and unlocks of its
/// reward.
pub open spec fn mission1_details(m: StoryMission) -> bool {
    &&& m.description@ == "在酒吧與神秘人交談，了解這座島嶼的情況"@
    &&& m.difficulty == Difficulty::Normal
    &&& m.trigger_radius == 500 && m.estimated_time == 600
    &&& m.intro_cutscene is None && m.outro_cutscene is None
    &&& m.phases@.len() == 2
    &&& phase_is(m.phases@[0], 1, StoryMissionType::Dialogue, "找到神秘人"@, Some(1u32), None, None, 1, 0)
    &&& objective_is(m.phases@[0].objectives@[0], 1, "前往酒吧"@, 1)
    &&& m.phases@[0].objectives@[0].objective_type == ObjectiveType::ReachLocation(Position { x: 5500i64, y: 0i64, z: 5500i64 }, 300)
    &&& phase_is(m.phases@[1], 2, StoryMissionType::Dialogue, "與老王交談"@, None, None, None, 1, 0)
    &&& objective_is(m.phases@[1].objectives@[0], 2, "與神秘人交談"@, 1)
    &&& talks_to(m.phases@[1].objectives@[0].objective_type, "mysterious_man"@)
    &&& m.rewards.set_flags@.len() == 0
    &&& m.rewards.unlock_weapons@.len() == 0
    &&& m.rewards.unlock_vehicles@.len() == 0 && m.rewards.unlock_areas@.len() == 0
}

/// The rest of story mission 2 of chapter one: description, difficulty,
/// every phase with its objectives, and the story flags and unlocks of its
/// reward.
pub open spec fn mission2_details(m: StoryMission) -> bool {
    &&& m.description@ == "幫老王去向一個欠錢的人討債"@
    &&& m.difficulty == Difficulty::Normal
    &&& m.trigger_radius == 500 && m.estimated_time == 600
    &&& m.intro_cutscene is None && m.outro_cutscene is None
    &&& m.phases@.len() == 3
    &&& phase_is(m.phases@[0], 1, StoryMissionType::Dialogue, "前往目標地點"@, Some(2u32), None, None, 1, 0)
    &&& objective_is(m.phases@[0].objectives@[0], 1, "前往工業區倉庫"@, 1)
    &&& m.phases@[0].objectives@[0].objective_type == ObjectiveType::ReachLocation(Position { x: 15000i64, y: 0i64, z: 12000i64 }, 500)
    &&& phase_is(m.phases@[1], 2, StoryMissionType::Elimination, "消滅守衛"@, None, None, Some(180000u64), 1, 1)
    &&& m.phases@[1].fail_conditions@[0] == FailCondition::TimeExpired
    &&& objective_is(m.phases@[1].objectives@[0], 2, "消滅守衛"@, 3)
    &&& m.phases@[1].objectives@[0].objective_type == ObjectiveType::KillCount(3)
    &&& phase_is(m.phases@[2], 3, StoryMissionType::Dialogue, "找到目標"@, None, None, None, 1, 0)
    &&& objective_is(m.phases@[2].objectives@[0], 3, "找到欠債人"@, 1)
    &&& talks_to(m.phases@[2].objectives@[0].objective_type, "debtor"@)
    &&& m.rewards.set_flags@.len() == 0
    &&& m.rewards.unlock_weapons@.len() == 0
    &&& m.rewards.unlock_vehicles@.len() == 0 && m.rewards.unlock_areas@.len() == 0
}

/// The rest of story mission 3 of chapter one: description, difficulty,
/// every phase with its objectives, and the story flags and unlocks of its
/// reward.
pub open spec fn mission3_details(m: StoryMission) -> bool {
    &&& m.description@ == "追蹤一輛可疑車輛，找出幕後老闆"@
    &&& m.difficulty == Difficulty::Normal
    &&& m.trigger_radius == 500 && m.estimated_time == 600
    &&& m.intro_cutscene is None && m.outro_cutscene is None
    &&& m.phases@.len() == 3
    &&& phase_is(m.phases@[0], 1, StoryMissionType::Chase, "等待目標出現"@, Some(3u32), None, None, 1, 0)
    &&& objective_is(m.phases@[0].objectives@[0], 1, "前往監視點"@, 1)
    &&& m.phases@[0].objectives@[0].objective_type == ObjectiveType::ReachLocation(Position { x: 10000i64, y: 0i64, z: -8000i64 }, 500)
    &&& phase_is(m.phases@[1], 2, StoryMissionType::Chase, "追蹤可疑車輛"@, None, None, Some(120000u64), 1, 2)
    &&& m.phases@[1].fail_conditions@[0] == FailCondition::TimeExpired
    &&& m.phases@[1].fail_conditions@[1] == FailCondition::TargetEscaped
    &&& objective_is(m.phases@[1].objectives@[0], 2, "追蹤車輛"@, 1)
    &&& follows(m.phases@[1].objectives@[0].objective_type, "suspect_vehicle"@, 5000)
    &&& phase_is(m.phases@[2], 3, StoryMissionType::Dialogue, "記下地點"@, None, None, None, 1, 0)
    &&& objective_is(m.phases@[2].objectives@[0], 3, "到達目的地"@, 1)
    &&& m.phases@[2].objectives@[0].objective_type == ObjectiveType::ReachLocation(Position { x: 20000i64, y: 0i64, z: -15000i64 }, 500)
    &&& m.rewards.set_flags@.len() == 1
    &&& m.rewards.set_flags@[0]@ == "found_hideout"@
    &&& m.rewards.unlock_weapons@.len() == 0
    &&& m.rewards.unlock_vehicles@.len() == 0 && m.rewards.unlock_areas@.len() == 0
}

/// The rest of story mission 4 of chapter one: description, difficulty,
/// every phase with its objectives, and the story flags and unlocks of its
/// reward.
pub open spec fn mission4_details(m: StoryMission) -> bool {
    &&& m.description@ == "潛入老闆的秘密據點，取得證據"@
    &&& m.difficulty == Difficulty::Hard
    &&& m.trigger_radius == 500 && m.estimated_time == 600
    &&& m.intro_cutscene is None && m.outro_cutscene is None
    &&& m.phases@.len() == 3
    &&& phase_is(m.phases@[0], 1, StoryMissionType::Stealth, "潛入大樓"@, Some(4u32), None, None, 1, 1)
    &&& m.phases@[0].fail_conditions@[0] == FailCondition::Detected
    &&& objective_is(m.phases@[0].objectives@[0], 1, "找到側門入口"@, 1)
    &&& m.phases@[0].objectives@[0].objective_type == ObjectiveType::ReachLocation(Position { x: 21000i64, y: 0i64, z: -16000i64 }, 300)
    &&& phase_is(m.phases@[1], 2, StoryMissionType::Retrieve, "取得證據"@, None, None, None, 2, 0)
    &&& objective_is(m.phases@[1].objectives@[0], 2, "找到機密文件"@, 1)
    &&& collects(m.phases@[1].objectives@[0].objective_type, "evidence_files"@)
    &&& objective_is(m.phases@[1].objectives@[1], 3, "找到財務記錄"@, 1)
    &&& collects(m.phases@[1].objectives@[1].objective_type, "financial_records"@)
    &&& phase_is(m.phases@[2], 3, StoryMissionType::Stealth, "離開建築"@, None, None, None, 1, 1)
    &&& m.phases@[2].fail_conditions@[0] == FailCondition::Detected
    &&& objective_is(m.phases@[2].objectives@[0], 4, "安全撤離"@, 1)
    &&& m.phases@[2].objectives@[0].objective_type == ObjectiveType::ReachLocation(Position { x: 18000i64, y: 0i64, z: -14000i64 }, 500)
    &&& m.rewards.set_flags@.len() == 1
    &&& m.rewards.set_flags@[0]@ == "has_evidence"@
    &&& m.rewards.unlock_weapons@.len() == 0
    &&& m.rewards.unlock_vehicles@.len() == 0 && m.rewards.unlock_areas@.len() == 0
}

/// The rest of story mission 5 of chapter one: description, difficulty,
/// every phase with its objectives, and the story flags and unlocks of its
/// reward.
pub open spec fn mission5_details(m: StoryMission) -> bool {
    &&& m.description@ == "帶著證據找老闆算帳，結束這一切"@
    &&& m.difficulty == Difficulty::Hard
    &&& m.trigger_radius == 500 && m.estimated_time == 600
    &&& m.intro_cutscene is None && m.outro_cutscene is None
    &&& m.phases@.len() == 3
    &&& phase_is(m.phases@[0], 1, StoryMissionType::Elimination, "殺進去"@, Some(5u32), None, None, 1, 0)
    &&& objective_is(m.phases@[0].objectives@[0], 1, "消滅門衛"@, 5)
    &&& m.phases@[0].objectives@[0].objective_type == ObjectiveType::KillCount(5)
    &&& phase_is(m.phases@[1], 2, StoryMissionType::Assassination, "找到老闆"@, None, None, Some(300000u64), 1, 1)
    &&& m.phases@[1].fail_conditions@[0] == FailCondition::TimeExpired
    &&& objective_is(m.phases@[1].objectives@[0], 2, "消滅老闆"@, 1)
    &&& kills_marked(m.phases@[1].objectives@[0].objective_type, "boss"@)
    &&& phase_is(m.phases@[2], 3, StoryMissionType::Dialogue, "任務完成"@, None, Some(6u32), None, 1, 0)
    &&& objective_is(m.phases@[2].objectives@[0], 3, "回去向老王回報"@, 1)
    &&& m.phases@[2].objectives@[0].objective_type == ObjectiveType::ReachLocation(Position { x: 5000i64, y: 0i64, z: 5000i64 }, 500)
    &&& m.rewards.set_flags@.len() == 1
    &&& m.rewards.set_flags@[0]@ == "chapter1_complete"@
    &&& m.rewards.unlock_weapons@.len() == 1
    &&& m.rewards.unlock_weapons@[0]@ == "rifle"@
    &&& m.rewards.unlock_vehicles@.len() == 0 && m.rewards.unlock_areas@.len() == 0
}

/// The rest of story mission `id` of chapter one (1 to 5).
pub open spec fn chapter_one_details(id: int, m: StoryMission) -> bool {
    if id == 1 {
        mission1_details(m)
    } else if id == 2 {
        mission2_details(m)
    } else if id == 3 {
        mission3_details(m)
    } else if id == 4 {
        mission4_details(m)
    } else {
        mission5_details(m)
    }
}

/// Money given by story mission `id` of chapter one.
pub open spec fn chapter_one_money(id: int) -> u32 {
    if id == 1 {
        100
    } else if id == 2 {
        500
    } else if id == 3 {
        300
    } else if id == 4 {
        800
    } else {
        2000
    }
}

/// Respect given by story mission `id` of chapter one.
pub open spec fn chapter_one_respect(id: int) -> u32 {
    if id == 1 {
        10
    } else if id == 2 {
        25
    } else if id == 3 {
        20
    } else if id == 4 {
        40
    } else {
        100
    }
}

/// Registers the five missions of chapter one (ids 1 to 5), each with
/// phases; from the second on, each needs the one before completed, and
/// each but the last unlocks the next. The fourth and fifth also need a
/// story flag that the one before sets.
pub fn create_sample_missions(database: &mut StoryMissionDatabase)
    ensures
        forall|id: u32| 1 <= id <= 5 ==> {
            &&& #[trigger] final(database).missions@.contains_key(id)
            &&& final(database).missions@[id].id == id
            &&& final(database).missions@[id].title@ == chapter_one_title(id as int)
            &&& final(database).missions@[id].chapter == 1
            &&& final(database).missions@[id].phases@.len() == if id == 1 { 2int } else { 3int }
            &&& final(database).missions@[id].quest_giver == Some(100u32)
            &&& final(database).missions@[id].unlock_conditions@.len() == if id == 1 {
                0int
            } else if id <= 3 {
                1int
            } else {
                2int
            }
            &&& id >= 2 ==> final(database).missions@[id].unlock_conditions@[0] == UnlockCondition::CompleteMission(
                (id - 1) as u32,
            )
            &&& id <= 4 ==> final(database).missions@[id].rewards.unlock_missions@ == seq![(id + 1) as u32]
            &&& id == 5 ==> final(database).missions@[id].rewards.unlock_missions@.len() == 0
            &&& final(database).missions@[id].rewards.money == chapter_one_money(id as int)
            &&& final(database).missions@[id].rewards.respect == chapter_one_respect(id as int)
            &&& chapter_one_details(id as int, final(database).missions@[id])
        },
        final(database).missions@[4].unlock_conditions@[1] matches UnlockCondition::HasFlag(f) && f@
            == "found_hideout"@,
        final(database).missions@[5].unlock_conditions@[1] matches UnlockCondition::HasFlag(f) && f@
            == "has_evidence"@,
        forall|id: u32| !(1 <= id <= 5) ==> (#[trigger] final(database).missions@.contains_key(id)
            == old(database).missions@.contains_key(id)) && (old(database).missions@.contains_key(id)
            ==> final(database).missions@[id] == old(database).missions@[id]),
        chapter_ids(final(database).chapters@, 1) == chapter_ids(old(database).chapters@, 1) + seq![1u32, 2, 3, 4, 5],
{

    let mission1 = StoryMission::new(1, "初來乍到", "在酒吧與神秘人交談，了解這座島嶼的情況")
        .chapter(1)
        .with_quest_giver(100)
        .at_location(Position::new(5000, 0, 5000))
        .with_phase(
            MissionPhase::new(1, StoryMissionType::Dialogue, "找到神秘人")
                .with_objective(MissionObjective::new(
                    1,
                    ObjectiveType::ReachLocation(Position::new(5500, 0, 5500), 300),
                    "前往酒吧",
                ))
                .with_start_dialogue(1),
        )
        .with_phase(
            MissionPhase::new(2, StoryMissionType::Dialogue, "與老王交談").with_objective(
                MissionObjective::new(
                    2,
                    ObjectiveType::TalkToNpc("mysterious_man".to_owned()),
                    "與神秘人交談",
                ),
            ),
        )
        .with_rewards(
            MissionRewards::money(100)
                .with_respect(10)
                .unlock_mission(2),
        );


    let mission2 = StoryMission::new(2, "收債", "幫老王去向一個欠錢的人討債")
        .chapter(1)
        .with_quest_giver(100)
        .at_location(Position::new(10000, 0, 10000))
        .requires_mission(1)
        .difficulty(Difficulty::Normal)
        .with_phase(
            MissionPhase::new(1, StoryMissionType::Dialogue, "前往目標地點")
                .with_objective(MissionObjective::new(
                    1,
                    ObjectiveType::ReachLocation(Position::new(15000, 0, 12000), 500),
                    "前往工業區倉庫",
                ))
                .with_start_dialogue(2),
        )
        .with_phase(
            MissionPhase::new(2, StoryMissionType::Elimination, "消滅守衛")
                .with_objective(
                    MissionObjective::new(2, ObjectiveType::KillCount(3), "消滅守衛").with_count(3),
                )
                .with_time_limit(180000),
        )
        .with_phase(
            MissionPhase::new(3, StoryMissionType::Dialogue, "找到目標").with_objective(
                MissionObjective::new(
                    3,
                    ObjectiveType::TalkToNpc("debtor".to_owned()),
                    "找到欠債人",
                ),
            ),
        )
        .with_rewards(
            MissionRewards::money(500)
                .with_respect(25)
                .unlock_mission(3),
        );


    let mission3 = StoryMission::new(3, "追蹤線索", "追蹤一輛可疑車輛，找出幕後老闆")
        .chapter(1)
        .with_quest_giver(100)
        .at_location(Position::new(8000, 0, -5000))
        .requires_mission(2)
        .difficulty(Difficulty::Normal)
        .with_phase(
            MissionPhase::new(1, StoryMissionType::Chase, "等待目標出現")
                .with_objective(MissionObjective::new(
                    1,
                    ObjectiveType::ReachLocation(Position::new(10000, 0, -8000), 500),
                    "前往監視點",
                ))
                .with_start_dialogue(3),
        )
        .with_phase(
            MissionPhase::new(2, StoryMissionType::Chase, "追蹤可疑車輛")
                .with_objective(MissionObjective::new(
                    2,
                    ObjectiveType::FollowTarget("suspect_vehicle".to_owned(), 5000),
                    "追蹤車輛",
                ))
                .with_time_limit(120000)
                .with_fail_condition(FailCondition::TargetEscaped),
        )
        .with_phase(
            MissionPhase::new(3, StoryMissionType::Dialogue, "記下地點").with_objective(
                MissionObjective::new(
                    3,
                    ObjectiveType::ReachLocation(Position::new(20000, 0, -15000), 500),
                    "到達目的地",
                ),
            ),
        )
        .with_rewards(
            MissionRewards::money(300)
                .with_respect(20)
                .unlock_mission(4)
                .set_flag("found_hideout".to_owned()),
        );


    let mission4 = StoryMission::new(4, "夜間行動", "潛入老闆的秘密據點，取得證據")
        .chapter(1)
        .with_quest_giver(100)
        .at_location(Position::new(20000, 0, -15000))
        .requires_mission(3)
        .requires_flag("found_hideout")
        .difficulty(Difficulty::Hard)
        .with_phase(
            MissionPhase::new(1, StoryMissionType::Stealth, "潛入大樓")
                .with_objective(MissionObjective::new(
                    1,
                    ObjectiveType::ReachLocation(Position::new(21000, 0, -16000), 300),
                    "找到側門入口",
                ))
                .with_start_dialogue(4)
                .with_fail_condition(FailCondition::Detected),
        )
        .with_phase(
            MissionPhase::new(2, StoryMissionType::Retrieve, "取得證據")
                .with_objective(MissionObjective::new(
                    2,
                    ObjectiveType::CollectItem("evidence_files".to_owned()),
                    "找到機密文件",
                ))
                .with_objective(MissionObjective::new(
                    3,
                    ObjectiveType::CollectItem("financial_records".to_owned()),
                    "找到財務記錄",
                )),
        )
        .with_phase(
            MissionPhase::new(3, StoryMissionType::Stealth, "離開建築")
                .with_objective(MissionObjective::new(
                    4,
                    ObjectiveType::ReachLocation(Position::new(18000, 0, -14000), 500),
                    "安全撤離",
                ))
                .with_fail_condition(FailCondition::Detected),
        )
        .with_rewards(
            MissionRewards::money(800)
                .with_respect(40)
                .unlock_mission(5)
                .set_flag("has_evidence".to_owned()),
        );


    let mission5 = StoryMission::new(5, "清算日", "帶著證據找老闆算帳，結束這一切")
        .chapter(1)
        .with_quest_giver(100)
        .at_location(Position::new(0, 0, 20000))
        .requires_mission(4)
        .requires_flag("has_evidence")
        .difficulty(Difficulty::Hard)
        .with_phase(
            MissionPhase::new(1, StoryMissionType::Elimination, "殺進去")
                .with_objective(
                    MissionObjective::new(1, ObjectiveType::KillCount(5), "消滅門衛").with_count(5),
                )
                .with_start_dialogue(5),
        )
        .with_phase(
            MissionPhase::new(2, StoryMissionType::Assassination, "找到老闆")
                .with_objective(MissionObjective::new(
                    2,
                    ObjectiveType::KillTarget("boss".to_owned()),
                    "消滅老闆",
                ))
                .with_time_limit(300000),
        )
        .with_phase(
            MissionPhase::new(3, StoryMissionType::Dialogue, "任務完成")
                .with_objective(MissionObjective::new(
                    3,
                    ObjectiveType::ReachLocation(Position::new(5000, 0, 5000), 500),
                    "回去向老王回報",
                ))
                .with_end_dialogue(6),
        )
        .with_rewards(
            MissionRewards::money(2000)
                .with_respect(100)
                .unlock_weapon("rifle")
                .set_flag("chapter1_complete".to_owned()),
        );

    proof {
        assert(mission1.rewards.unlock_missions@ =~= seq![2u32]);
        assert(mission2.rewards.unlock_missions@ =~= seq![3u32]);
        assert(mission3.rewards.unlock_missions@ =~= seq![4u32]);
        assert(mission4.rewards.unlock_missions@ =~= seq![5u32]);
        assert(mission4.unlock_conditions@.drop_last()[0] == UnlockCondition::CompleteMission(3u32));
        assert(mission4.unlock_conditions@[0] == UnlockCondition::CompleteMission(3u32));
        assert(mission5.unlock_conditions@.drop_last()[0] == UnlockCondition::CompleteMission(4u32));
        assert(mission5.unlock_conditions@[0] == UnlockCondition::CompleteMission(4u32));
    }
    database.register(mission1);
    database.register(mission2);
    database.register(mission3);
    database.register(mission4);
    database.register(mission5);}

} // verus!
