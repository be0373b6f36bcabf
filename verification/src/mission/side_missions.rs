//! The six side missions ("strangers and freaks"), ids 100 to 105,
//! outside the main chapters, each started from a spot of its own.
use vstd::prelude::*;
use crate::mission::story_data::types::{Position, StoryMissionId, StoryMissionType};
use crate::mission::story_data::objectives::{
    MissionObjective, ObjectiveType, objective_is, talks_to,
};
use crate::mission::story_data::phases::{MissionPhase, phase_is};
use crate::mission::story_data::conditions::FailCondition;
use crate::mission::story_data::rewards::{Difficulty, MissionRewards};
use crate::mission::story_data::mission::StoryMission;
use crate::mission::story_manager::{StoryMissionDatabase, chapter_ids};
use crate::mission::data::distance_squared;

verus! {

/// First side mission id (the main story uses 1 to 99).
pub const SIDE_MISSION_ID_START: StoryMissionId = 100;

/// Chapter of the side missions (0: no main chapter).
pub const SIDE_MISSION_CHAPTER: u32 = 0;

/// The rest of side mission 100, 「檳榔西施的煩惱」: description, difficulty,
/// every phase with its objectives, and the story flags and unlocks of its
/// reward.
pub open spec fn betel_nut_beauty_details(m: StoryMission) -> bool {
    &&& m.description@ == "路邊檳榔攤的西施姐姐被流氓騷擾，幫她趕走那些人"@
    &&& m.difficulty == Difficulty::Easy
    &&& m.trigger_radius == 500 && m.estimated_time == 600
    &&& m.intro_cutscene is None && m.outro_cutscene is None
    &&& m.phases@.len() == 3
    &&& phase_is(m.phases@[0], 1, StoryMissionType::Dialogue, "聽取請求"@, Some(200u32), None, None, 1, 0)
    &&& objective_is(m.phases@[0].objectives@[0], 1, "與檳榔西施交談"@, 1)
    &&& talks_to(m.phases@[0].objectives@[0].objective_type, "betel_nut_beauty"@)
    &&& phase_is(m.phases@[1], 2, StoryMissionType::Elimination, "趕走流氓"@, None, None, Some(120000u64), 1, 1)
    &&& m.phases@[1].fail_conditions@[0] == FailCondition::TimeExpired
    &&& objective_is(m.phases@[1].objectives@[0], 2, "教訓騷擾的流氓"@, 3)
    &&& m.phases@[1].objectives@[0].objective_type == ObjectiveType::KillCount(3)
    &&& phase_is(m.phases@[2], 3, StoryMissionType::Dialogue, "回報"@, None, Some(201u32), None, 1, 0)
    &&& objective_is(m.phases@[2].objectives@[0], 3, "回去找西施姐姐"@, 1)
    &&& talks_to(m.phases@[2].objectives@[0].objective_type, "betel_nut_beauty"@)
    &&& m.rewards.set_flags@.len() == 1
    &&& m.rewards.set_flags@[0]@ == "helped_betel_nut_beauty"@
    &&& m.rewards.unlock_weapons@.len() == 0
    &&& m.rewards.unlock_vehicles@.len() == 0 && m.rewards.unlock_areas@.len() == 0
}

/// Side mission 100, 「檳榔西施的煩惱」.
fn create_betel_nut_beauty() -> (m: StoryMission)
    ensures
        m.id == 100,
        m.title@ == "檳榔西施的煩惱"@,
        m.chapter == SIDE_MISSION_CHAPTER,
        m.quest_giver == Some(200u32),
        m.trigger_location == Some(Position { x: -6000i64, y: 0i64, z: 3000i64 }),
        m.unlock_conditions@.len() == 0,
        m.phases@.len() == 3,
        m.rewards.money == 800,
        m.rewards.respect == 15,
        betel_nut_beauty_details(m),
{
    StoryMission::new(
        100,
        "檳榔西施的煩惱",
        "路邊檳榔攤的西施姐姐被流氓騷擾，幫她趕走那些人",
    )
    .chapter(SIDE_MISSION_CHAPTER)
    .with_quest_giver(200)
    .at_location(Position::new(-6000, 0, 3000))
    .difficulty(Difficulty::Easy)
    .with_phase(
        MissionPhase::new(1, StoryMissionType::Dialogue, "聽取請求")
            .with_objective(MissionObjective::new(
                1,
                ObjectiveType::TalkToNpc("betel_nut_beauty".to_owned()),
                "與檳榔西施交談",
            ))
            .with_start_dialogue(200),
    )
    .with_phase(
        MissionPhase::new(2, StoryMissionType::Elimination, "趕走流氓")
            .with_objective(
                MissionObjective::new(2, ObjectiveType::KillCount(3), "教訓騷擾的流氓")
                    .with_count(3),
            )
            .with_time_limit(120000),
    )
    .with_phase(
        MissionPhase::new(3, StoryMissionType::Dialogue, "回報")
            .with_objective(MissionObjective::new(
                3,
                ObjectiveType::TalkToNpc("betel_nut_beauty".to_owned()),
                "回去找西施姐姐",
            ))
            .with_end_dialogue(201),
    )
    .with_rewards(
        MissionRewards::money(800)
            .with_respect(15)
            .set_flag("helped_betel_nut_beauty".to_owned()),
    )
}

/// The rest of side mission 101, 「廟公的籤詩」: description, difficulty,
/// every phase with its objectives, and the story flags and unlocks of its
/// reward.
pub open spec fn temple_fortune_details(m: StoryMission) -> bool {
    &&& m.description@ == "土地公廟的廟公說你有劫數，要你去三個地方化解"@
    &&& m.difficulty == Difficulty::Normal
    &&& m.trigger_radius == 500 && m.estimated_time == 600
    &&& m.intro_cutscene is None && m.outro_cutscene is None
    &&& m.phases@.len() == 3
    &&& phase_is(m.phases@[0], 1, StoryMissionType::Dialogue, "求籤"@, Some(202u32), None, None, 1, 0)
    &&& objective_is(m.phases@[0].objectives@[0], 1, "向廟公求籤"@, 1)
    &&& talks_to(m.phases@[0].objectives@[0].objective_type, "temple_keeper"@)
    &&& phase_is(m.phases@[1], 2, StoryMissionType::Retrieve, "化解劫數"@, None, None, None, 3, 0)
    &&& objective_is(m.phases@[1].objectives@[0], 2, "前往東方水源地淨身"@, 1)
    &&& m.phases@[1].objectives@[0].objective_type == ObjectiveType::ReachLocation(Position { x: 8000i64, y: 0i64, z: 6000i64 }, 500)
    &&& objective_is(m.phases@[1].objectives@[1], 3, "前往西方大榕樹祈福"@, 1)
    &&& m.phases@[1].objectives@[1].objective_type == ObjectiveType::ReachLocation(Position { x: -4000i64, y: 0i64, z: -8000i64 }, 500)
    &&& objective_is(m.phases@[1].objectives@[2], 4, "前往南方山頂拜拜"@, 1)
    &&& m.phases@[1].objectives@[2].objective_type == ObjectiveType::ReachLocation(Position { x: 16000i64, y: 0i64, z: 10000i64 }, 500)
    &&& phase_is(m.phases@[2], 3, StoryMissionType::Dialogue, "回報廟公"@, None, Some(203u32), None, 1, 0)
    &&& objective_is(m.phases@[2].objectives@[0], 5, "回去找廟公"@, 1)
    &&& talks_to(m.phases@[2].objectives@[0].objective_type, "temple_keeper"@)
    &&& m.rewards.set_flags@.len() == 1
    &&& m.rewards.set_flags@[0]@ == "temple_fortune_done"@
    &&& m.rewards.unlock_weapons@.len() == 0
    &&& m.rewards.unlock_vehicles@.len() == 0 && m.rewards.unlock_areas@.len() == 0
}

/// Side mission 101, 「廟公的籤詩」.
fn create_temple_fortune() -> (m: StoryMission)
    ensures
        m.id == 101,
        m.title@ == "廟公的籤詩"@,
        m.chapter == SIDE_MISSION_CHAPTER,
        m.quest_giver == Some(201u32),
        m.trigger_location == Some(Position { x: 12000i64, y: 0i64, z: -3000i64 }),
        m.unlock_conditions@.len() == 0,
        m.phases@.len() == 3,
        m.rewards.money == 500,
        m.rewards.respect == 20,
        temple_fortune_details(m),
{
    StoryMission::new(
        101,
        "廟公的籤詩",
        "土地公廟的廟公說你有劫數，要你去三個地方化解",
    )
    .chapter(SIDE_MISSION_CHAPTER)
    .with_quest_giver(201)
    .at_location(Position::new(12000, 0, -3000))
    .difficulty(Difficulty::Normal)
    .with_phase(
        MissionPhase::new(1, StoryMissionType::Dialogue, "求籤")
            .with_objective(MissionObjective::new(
                1,
                ObjectiveType::TalkToNpc("temple_keeper".to_owned()),
                "向廟公求籤",
            ))
            .with_start_dialogue(202),
    )
    .with_phase(
        MissionPhase::new(2, StoryMissionType::Retrieve, "化解劫數")
            .with_objective(MissionObjective::new(
                2,
                ObjectiveType::ReachLocation(Position::new(8000, 0, 6000), 500),
                "前往東方水源地淨身",
            ))
            .with_objective(MissionObjective::new(
                3,
                ObjectiveType::ReachLocation(Position::new(-4000, 0, -8000), 500),
                "前往西方大榕樹祈福",
            ))
            .with_objective(MissionObjective::new(
                4,
                ObjectiveType::ReachLocation(Position::new(16000, 0, 10000), 500),
                "前往南方山頂拜拜",
            )),
    )
    .with_phase(
        MissionPhase::new(3, StoryMissionType::Dialogue, "回報廟公")
            .with_objective(MissionObjective::new(
                5,
                ObjectiveType::TalkToNpc("temple_keeper".to_owned()),
                "回去找廟公",
            ))
            .with_end_dialogue(203),
    )
    .with_rewards(
        MissionRewards::money(500)
            .with_respect(20)
            .set_flag("temple_fortune_done".to_owned()),
    )
}

/// The rest of side mission 102, 「夜市大廚的挑戰」: description, difficulty,
/// every phase with its objectives, and the story flags and unlocks of its
/// reward.
pub open spec fn night_market_chef_details(m: StoryMission) -> bool {
    &&& m.description@ == "夜市蚵仔煎名店的老闆需要緊急送貨到三個地點"@
    &&& m.difficulty == Difficulty::Normal
    &&& m.trigger_radius == 500 && m.estimated_time == 600
    &&& m.intro_cutscene is None && m.outro_cutscene is None
    &&& m.phases@.len() == 3
    &&& phase_is(m.phases@[0], 1, StoryMissionType::Dialogue, "接受任務"@, Some(204u32), None, None, 1, 0)
    &&& objective_is(m.phases@[0].objectives@[0], 1, "與夜市老闆交談"@, 1)
    &&& talks_to(m.phases@[0].objectives@[0].objective_type, "night_market_chef"@)
    &&& phase_is(m.phases@[1], 2, StoryMissionType::Retrieve, "送貨"@, None, None, Some(180000u64), 3, 1)
    &&& m.phases@[1].fail_conditions@[0] == FailCondition::TimeExpired
    &&& objective_is(m.phases@[1].objectives@[0], 2, "送到第一個客人"@, 1)
    &&& m.phases@[1].objectives@[0].objective_type == ObjectiveType::ReachLocation(Position { x: 7000i64, y: 0i64, z: -4000i64 }, 500)
    &&& objective_is(m.phases@[1].objectives@[1], 3, "送到第二個客人"@, 1)
    &&& m.phases@[1].objectives@[1].objective_type == ObjectiveType::ReachLocation(Position { x: -3000i64, y: 0i64, z: 5000i64 }, 500)
    &&& objective_is(m.phases@[1].objectives@[2], 4, "送到第三個客人"@, 1)
    &&& m.phases@[1].objectives@[2].objective_type == ObjectiveType::ReachLocation(Position { x: 10000i64, y: 0i64, z: 8000i64 }, 500)
    &&& phase_is(m.phases@[2], 3, StoryMissionType::Dialogue, "回報"@, None, Some(205u32), None, 1, 0)
    &&& objective_is(m.phases@[2].objectives@[0], 5, "回去找夜市老闆"@, 1)
    &&& talks_to(m.phases@[2].objectives@[0].objective_type, "night_market_chef"@)
    &&& m.rewards.set_flags@.len() == 1
    &&& m.rewards.set_flags@[0]@ == "night_market_chef_done"@
    &&& m.rewards.unlock_weapons@.len() == 0
    &&& m.rewards.unlock_vehicles@.len() == 0 && m.rewards.unlock_areas@.len() == 0
}

/// Side mission 102, 「夜市大廚的挑戰」.
fn create_night_market_chef() -> (m: StoryMission)
    ensures
        m.id == 102,
        m.title@ == "夜市大廚的挑戰"@,
        m.chapter == SIDE_MISSION_CHAPTER,
        m.quest_giver == Some(202u32),
        m.trigger_location == Some(Position { x: 1000i64, y: 0i64, z: -6000i64 }),
        m.unlock_conditions@.len() == 0,
        m.phases@.len() == 3,
        m.rewards.money == 600,
        m.rewards.respect == 15,
        night_market_chef_details(m),
{
    StoryMission::new(
        102,
        "夜市大廚的挑戰",
        "夜市蚵仔煎名店的老闆需要緊急送貨到三個地點",
    )
    .chapter(SIDE_MISSION_CHAPTER)
    .with_quest_giver(202)
    .at_location(Position::new(1000, 0, -6000))
    .difficulty(Difficulty::Normal)
    .with_phase(
        MissionPhase::new(1, StoryMissionType::Dialogue, "接受任務")
            .with_objective(MissionObjective::new(
                1,
                ObjectiveType::TalkToNpc("night_market_chef".to_owned()),
                "與夜市老闆交談",
            ))
            .with_start_dialogue(204),
    )
    .with_phase(
        MissionPhase::new(2, StoryMissionType::Retrieve, "送貨")
            .with_objective(MissionObjective::new(
                2,
                ObjectiveType::ReachLocation(Position::new(7000, 0, -4000), 500),
                "送到第一個客人",
            ))
            .with_objective(MissionObjective::new(
                3,
                ObjectiveType::ReachLocation(Position::new(-3000, 0, 5000), 500),
                "送到第二個客人",
            ))
            .with_objective(MissionObjective::new(
                4,
                ObjectiveType::ReachLocation(Position::new(10000, 0, 8000), 500),
                "送到第三個客人",
            ))
            .with_time_limit(180000),
    )
    .with_phase(
        MissionPhase::new(3, StoryMissionType::Dialogue, "回報")
            .with_objective(MissionObjective::new(
                5,
                ObjectiveType::TalkToNpc("night_market_chef".to_owned()),
                "回去找夜市老闆",
            ))
            .with_end_dialogue(205),
    )
    .with_rewards(
        MissionRewards::money(600)
            .with_respect(15)
            .set_flag("night_market_chef_done".to_owned()),
    )
}

/// The rest of side mission 103, 「流浪狗大叔」: description, difficulty,
/// every phase with its objectives, and the story flags and unlocks of its
/// reward.
pub open spec fn stray_dog_uncle_details(m: StoryMission) -> bool {
    &&& m.description@ == "公園裡餵流浪狗的大叔要你幫忙趕走虐待動物的混混"@
    &&& m.difficulty == Difficulty::Easy
    &&& m.trigger_radius == 500 && m.estimated_time == 600
    &&& m.intro_cutscene is None && m.outro_cutscene is None
    &&& m.phases@.len() == 3
    &&& phase_is(m.phases@[0], 1, StoryMissionType::Dialogue, "聽取請求"@, Some(206u32), None, None, 1, 0)
    &&& objective_is(m.phases@[0].objectives@[0], 1, "與大叔交談"@, 1)
    &&& talks_to(m.phases@[0].objectives@[0].objective_type, "stray_dog_uncle"@)
    &&& phase_is(m.phases@[1], 2, StoryMissionType::Elimination, "趕走混混"@, None, None, None, 1, 0)
    &&& objective_is(m.phases@[1].objectives@[0], 2, "教訓虐狗混混"@, 2)
    &&& m.phases@[1].objectives@[0].objective_type == ObjectiveType::KillCount(2)
    &&& phase_is(m.phases@[2], 3, StoryMissionType::Dialogue, "回報大叔"@, None, Some(207u32), None, 1, 0)
    &&& objective_is(m.phases@[2].objectives@[0], 3, "回去找大叔"@, 1)
    &&& talks_to(m.phases@[2].objectives@[0].objective_type, "stray_dog_uncle"@)
    &&& m.rewards.set_flags@.len() == 1
    &&& m.rewards.set_flags@[0]@ == "helped_stray_dog_uncle"@
    &&& m.rewards.unlock_weapons@.len() == 0
    &&& m.rewards.unlock_vehicles@.len() == 0 && m.rewards.unlock_areas@.len() == 0
}

/// Side mission 103, 「流浪狗大叔」.
fn create_stray_dog_uncle() -> (m: StoryMission)
    ensures
        m.id == 103,
        m.title@ == "流浪狗大叔"@,
        m.chapter == SIDE_MISSION_CHAPTER,
        m.quest_giver == Some(203u32),
        m.trigger_location == Some(Position { x: -10000i64, y: 0i64, z: 7000i64 }),
        m.unlock_conditions@.len() == 0,
        m.phases@.len() == 3,
        m.rewards.money == 300,
        m.rewards.respect == 25,
        stray_dog_uncle_details(m),
{
    StoryMission::new(
        103,
        "流浪狗大叔",
        "公園裡餵流浪狗的大叔要你幫忙趕走虐待動物的混混",
    )
    .chapter(SIDE_MISSION_CHAPTER)
    .with_quest_giver(203)
    .at_location(Position::new(-10000, 0, 7000))
    .difficulty(Difficulty::Easy)
    .with_phase(
        MissionPhase::new(1, StoryMissionType::Dialogue, "聽取請求")
            .with_objective(MissionObjective::new(
                1,
                ObjectiveType::TalkToNpc("stray_dog_uncle".to_owned()),
                "與大叔交談",
            ))
            .with_start_dialogue(206),
    )
    .with_phase(
        MissionPhase::new(2, StoryMissionType::Elimination, "趕走混混").with_objective(
            MissionObjective::new(2, ObjectiveType::KillCount(2), "教訓虐狗混混").with_count(2),
        ),
    )
    .with_phase(
        MissionPhase::new(3, StoryMissionType::Dialogue, "回報大叔")
            .with_objective(MissionObjective::new(
                3,
                ObjectiveType::TalkToNpc("stray_dog_uncle".to_owned()),
                "回去找大叔",
            ))
            .with_end_dialogue(207),
    )
    .with_rewards(
        MissionRewards::money(300)
            .with_respect(25)
            .set_flag("helped_stray_dog_uncle".to_owned()),
    )
}

/// The rest of side mission 104, 「飆車族的賭注」: description, difficulty,
/// every phase with its objectives, and the story flags and unlocks of its
/// reward.
pub open spec fn street_racer_details(m: StoryMission) -> bool {
    &&& m.description@ == "一群飆車族在海邊挑戰你賽車，贏了有獎金"@
    &&& m.difficulty == Difficulty::Hard
    &&& m.trigger_radius == 500 && m.estimated_time == 600
    &&& m.intro_cutscene is None && m.outro_cutscene is None
    &&& m.phases@.len() == 3
    &&& phase_is(m.phases@[0], 1, StoryMissionType::Dialogue, "接受挑戰"@, Some(208u32), None, None, 1, 0)
    &&& objective_is(m.phases@[0].objectives@[0], 1, "與飆車族老大談話"@, 1)
    &&& talks_to(m.phases@[0].objectives@[0].objective_type, "street_racer"@)
    &&& phase_is(m.phases@[1], 2, StoryMissionType::Chase, "海岸線競速"@, None, None, Some(90000u64), 2, 1)
    &&& m.phases@[1].fail_conditions@[0] == FailCondition::TimeExpired
    &&& objective_is(m.phases@[1].objectives@[0], 2, "通過第一個彎道"@, 1)
    &&& m.phases@[1].objectives@[0].objective_type == ObjectiveType::ReachLocation(Position { x: -10000i64, y: 0i64, z: -15000i64 }, 1000)
    &&& objective_is(m.phases@[1].objectives@[1], 3, "到達終點線"@, 1)
    &&& m.phases@[1].objectives@[1].objective_type == ObjectiveType::ReachLocation(Position { x: -15000i64, y: 0i64, z: -20000i64 }, 1000)
    &&& phase_is(m.phases@[2], 3, StoryMissionType::Dialogue, "領獎"@, None, Some(209u32), None, 1, 0)
    &&& objective_is(m.phases@[2].objectives@[0], 4, "回去找飆車族老大"@, 1)
    &&& talks_to(m.phases@[2].objectives@[0].objective_type, "street_racer"@)
    &&& m.rewards.set_flags@.len() == 1
    &&& m.rewards.set_flags@[0]@ == "street_racer_done"@
    &&& m.rewards.unlock_weapons@.len() == 0
    &&& m.rewards.unlock_vehicles@.len() == 0 && m.rewards.unlock_areas@.len() == 0
}

/// Side mission 104, 「飆車族的賭注」.
fn create_street_racer() -> (m: StoryMission)
    ensures
        m.id == 104,
        m.title@ == "飆車族的賭注"@,
        m.chapter == SIDE_MISSION_CHAPTER,
        m.quest_giver == Some(204u32),
        m.trigger_location == Some(Position { x: -8000i64, y: 0i64, z: -12000i64 }),
        m.unlock_conditions@.len() == 0,
        m.phases@.len() == 3,
        m.rewards.money == 2000,
        m.rewards.respect == 30,
        street_racer_details(m),
{
    StoryMission::new(
        104,
        "飆車族的賭注",
        "一群飆車族在海邊挑戰你賽車，贏了有獎金",
    )
    .chapter(SIDE_MISSION_CHAPTER)
    .with_quest_giver(204)
    .at_location(Position::new(-8000, 0, -12000))
    .difficulty(Difficulty::Hard)
    .with_phase(
        MissionPhase::new(1, StoryMissionType::Dialogue, "接受挑戰")
            .with_objective(MissionObjective::new(
                1,
                ObjectiveType::TalkToNpc("street_racer".to_owned()),
                "與飆車族老大談話",
            ))
            .with_start_dialogue(208),
    )
    .with_phase(
        MissionPhase::new(2, StoryMissionType::Chase, "海岸線競速")
            .with_objective(MissionObjective::new(
                2,
                ObjectiveType::ReachLocation(Position::new(-10000, 0, -15000), 1000),
                "通過第一個彎道",
            ))
            .with_objective(MissionObjective::new(
                3,
                ObjectiveType::ReachLocation(Position::new(-15000, 0, -20000), 1000),
                "到達終點線",
            ))
            .with_time_limit(90000),
    )
    .with_phase(
        MissionPhase::new(3, StoryMissionType::Dialogue, "領獎")
            .with_objective(MissionObjective::new(
                4,
                ObjectiveType::TalkToNpc("street_racer".to_owned()),
                "回去找飆車族老大",
            ))
            .with_end_dialogue(209),
    )
    .with_rewards(
        MissionRewards::money(2000)
            .with_respect(30)
            .set_flag("street_racer_done".to_owned()),
    )
}

/// The rest of side mission 105, 「陰謀論部落客」: description, difficulty,
/// every phase with its objectives, and the story flags and unlocks of its
/// reward.
pub open spec fn conspiracy_blogger_details(m: StoryMission) -> bool {
    &&& m.description@ == "一個戴著鋁箔帽的部落客說這座島有秘密，要你去三個地點拍照蒐證"@
    &&& m.difficulty == Difficulty::Normal
    &&& m.trigger_radius == 500 && m.estimated_time == 600
    &&& m.intro_cutscene is None && m.outro_cutscene is None
    &&& m.phases@.len() == 3
    &&& phase_is(m.phases@[0], 1, StoryMissionType::Dialogue, "聽取陰謀論"@, Some(210u32), None, None, 1, 0)
    &&& objective_is(m.phases@[0].objectives@[0], 1, "聽部落客說明"@, 1)
    &&& talks_to(m.phases@[0].objectives@[0].objective_type, "conspiracy_blogger"@)
    &&& phase_is(m.phases@[1], 2, StoryMissionType::Retrieve, "蒐集證據"@, None, None, None, 3, 0)
    &&& objective_is(m.phases@[1].objectives@[0], 2, "調查廢棄工廠"@, 1)
    &&& m.phases@[1].objectives@[0].objective_type == ObjectiveType::ReachLocation(Position { x: -5000i64, y: 0i64, z: 18000i64 }, 500)
    &&& objective_is(m.phases@[1].objectives@[1], 3, "調查山上電塔"@, 1)
    &&& m.phases@[1].objectives@[1].objective_type == ObjectiveType::ReachLocation(Position { x: 13000i64, y: 0i64, z: 16000i64 }, 500)
    &&& objective_is(m.phases@[1].objectives@[2], 4, "調查港口貨櫃"@, 1)
    &&& m.phases@[1].objectives@[2].objective_type == ObjectiveType::ReachLocation(Position { x: 20000i64, y: 0i64, z: -5000i64 }, 500)
    &&& phase_is(m.phases@[2], 3, StoryMissionType::Dialogue, "回報結果"@, None, Some(211u32), None, 1, 0)
    &&& objective_is(m.phases@[2].objectives@[0], 5, "回去找部落客"@, 1)
    &&& talks_to(m.phases@[2].objectives@[0].objective_type, "conspiracy_blogger"@)
    &&& m.rewards.set_flags@.len() == 1
    &&& m.rewards.set_flags@[0]@ == "conspiracy_blogger_done"@
    &&& m.rewards.unlock_weapons@.len() == 0
    &&& m.rewards.unlock_vehicles@.len() == 0 && m.rewards.unlock_areas@.len() == 0
}

/// Side mission 105, 「陰謀論部落客」.
fn create_conspiracy_blogger() -> (m: StoryMission)
    ensures
        m.id == 105,
        m.title@ == "陰謀論部落客"@,
        m.chapter == SIDE_MISSION_CHAPTER,
        m.quest_giver == Some(205u32),
        m.trigger_location == Some(Position { x: 4000i64, y: 0i64, z: 14000i64 }),
        m.unlock_conditions@.len() == 0,
        m.phases@.len() == 3,
        m.rewards.money == 400,
        m.rewards.respect == 10,
        conspiracy_blogger_details(m),
{
    StoryMission::new(
        105,
        "陰謀論部落客",
        "一個戴著鋁箔帽的部落客說這座島有秘密，要你去三個地點拍照蒐證",
    )
    .chapter(SIDE_MISSION_CHAPTER)
    .with_quest_giver(205)
    .at_location(Position::new(4000, 0, 14000))
    .difficulty(Difficulty::Normal)
    .with_phase(
        MissionPhase::new(1, StoryMissionType::Dialogue, "聽取陰謀論")
            .with_objective(MissionObjective::new(
                1,
                ObjectiveType::TalkToNpc("conspiracy_blogger".to_owned()),
                "聽部落客說明",
            ))
            .with_start_dialogue(210),
    )
    .with_phase(
        MissionPhase::new(2, StoryMissionType::Retrieve, "蒐集證據")
            .with_objective(MissionObjective::new(
                2,
                ObjectiveType::ReachLocation(Position::new(-5000, 0, 18000), 500),
                "調查廢棄工廠",
            ))
            .with_objective(MissionObjective::new(
                3,
                ObjectiveType::ReachLocation(Position::new(13000, 0, 16000), 500),
                "調查山上電塔",
            ))
            .with_objective(MissionObjective::new(
                4,
                ObjectiveType::ReachLocation(Position::new(20000, 0, -5000), 500),
                "調查港口貨櫃",
            )),
    )
    .with_phase(
        MissionPhase::new(3, StoryMissionType::Dialogue, "回報結果")
            .with_objective(MissionObjective::new(
                5,
                ObjectiveType::TalkToNpc("conspiracy_blogger".to_owned()),
                "回去找部落客",
            ))
            .with_end_dialogue(211),
    )
    .with_rewards(
        MissionRewards::money(400)
            .with_respect(10)
            .set_flag("conspiracy_blogger_done".to_owned()),
    )
}

/// Where side mission `id` is started.
pub open spec fn side_mission_spot(id: int) -> Position {
    if id == 100 {
        Position { x: -6000i64, y: 0i64, z: 3000i64 }
    } else if id == 101 {
        Position { x: 12000i64, y: 0i64, z: -3000i64 }
    } else if id == 102 {
        Position { x: 1000i64, y: 0i64, z: -6000i64 }
    } else if id == 103 {
        Position { x: -10000i64, y: 0i64, z: 7000i64 }
    } else if id == 104 {
        Position { x: -8000i64, y: 0i64, z: -12000i64 }
    } else {
        Position { x: 4000i64, y: 0i64, z: 14000i64 }
    }
}

/// The rest of side mission `id` (100 to 105); see each mission's own.
pub open spec fn side_mission_details(id: u32, m: StoryMission) -> bool {
    if id == 100 {
        betel_nut_beauty_details(m)
    } else if id == 101 {
        temple_fortune_details(m)
    } else if id == 102 {
        night_market_chef_details(m)
    } else if id == 103 {
        stray_dog_uncle_details(m)
    } else if id == 104 {
        street_racer_details(m)
    } else {
        conspiracy_blogger_details(m)
    }
}

/// Registers the six side missions (ids 100 to 105): outside the main
/// chapters, with no prerequisite, at least two phases, money and
/// respect rewards, each given by its NPC (id plus 100) and started from
/// its own spot more than ten metres from the others. They are listed
/// under the side-mission chapter in id order; other chapters are kept.
pub fn register_side_missions(database: &mut StoryMissionDatabase)
    ensures
        forall|id: u32| 100 <= id <= 105 ==> {
            &&& #[trigger] final(database).missions@.contains_key(id)
            &&& final(database).missions@[id].id == id
            &&& final(database).missions@[id].chapter == SIDE_MISSION_CHAPTER
            &&& final(database).missions@[id].unlock_conditions@.len() == 0
            &&& final(database).missions@[id].phases@.len() >= 2
            &&& final(database).missions@[id].rewards.money > 0
            &&& final(database).missions@[id].rewards.respect > 0
            &&& final(database).missions@[id].trigger_location == Some(side_mission_spot(id as int))
            &&& final(database).missions@[id].quest_giver == Some((id + 100) as u32)
            &&& side_mission_details(id, final(database).missions@[id])
        },
        chapter_ids(final(database).chapters@, SIDE_MISSION_CHAPTER) == chapter_ids(
            old(database).chapters@,
            SIDE_MISSION_CHAPTER,
        ) + seq![100u32, 101, 102, 103, 104, 105],
        final(database).chapters@.remove(SIDE_MISSION_CHAPTER) == old(database).chapters@.remove(SIDE_MISSION_CHAPTER),
        forall|id: u32| !(100 <= id <= 105) ==> (#[trigger] final(database).missions@.contains_key(id)
            == old(database).missions@.contains_key(id)) && (old(database).missions@.contains_key(id)
            ==> final(database).missions@[id] == old(database).missions@[id]),
{
    database.register(create_betel_nut_beauty());
    database.register(create_temple_fortune());
    database.register(create_night_market_chef());
    database.register(create_stray_dog_uncle());
    database.register(create_street_racer());
    database.register(create_conspiracy_blogger());
}

/// The side missions start more than ten metres apart.
pub proof fn side_mission_spots_apart(a: int, b: int)
    requires
        100 <= a < b <= 105,
    ensures
        distance_squared(side_mission_spot(a), side_mission_spot(b)) > 1000 * 1000,
{
    if a == 100 {
        if b == 101 {
            assert(distance_squared(side_mission_spot(100), side_mission_spot(101)) > 1000 * 1000) by (nonlinear_arith);
        }
        if b == 102 {
            assert(distance_squared(side_mission_spot(100), side_mission_spot(102)) > 1000 * 1000) by (nonlinear_arith);
        }
        if b == 103 {
            assert(distance_squared(side_mission_spot(100), side_mission_spot(103)) > 1000 * 1000) by (nonlinear_arith);
        }
        if b == 104 {
            assert(distance_squared(side_mission_spot(100), side_mission_spot(104)) > 1000 * 1000) by (nonlinear_arith);
        }
        if b == 105 {
            assert(distance_squared(side_mission_spot(100), side_mission_spot(105)) > 1000 * 1000) by (nonlinear_arith);
        }
    }
    if a == 101 {
        if b == 102 {
            assert(distance_squared(side_mission_spot(101), side_mission_spot(102)) > 1000 * 1000) by (nonlinear_arith);
        }
        if b == 103 {
            assert(distance_squared(side_mission_spot(101), side_mission_spot(103)) > 1000 * 1000) by (nonlinear_arith);
        }
        if b == 104 {
            assert(distance_squared(side_mission_spot(101), side_mission_spot(104)) > 1000 * 1000) by (nonlinear_arith);
        }
        if b == 105 {
            assert(distance_squared(side_mission_spot(101), side_mission_spot(105)) > 1000 * 1000) by (nonlinear_arith);
        }
    }
    if a == 102 {
        if b == 103 {
            assert(distance_squared(side_mission_spot(102), side_mission_spot(103)) > 1000 * 1000) by (nonlinear_arith);
        }
        if b == 104 {
            assert(distance_squared(side_mission_spot(102), side_mission_spot(104)) > 1000 * 1000) by (nonlinear_arith);
        }
        if b == 105 {
            assert(distance_squared(side_mission_spot(102), side_mission_spot(105)) > 1000 * 1000) by (nonlinear_arith);
        }
    }
    if a == 103 {
        if b == 104 {
            assert(distance_squared(side_mission_spot(103), side_mission_spot(104)) > 1000 * 1000) by (nonlinear_arith);
        }
        if b == 105 {
            assert(distance_squared(side_mission_spot(103), side_mission_spot(105)) > 1000 * 1000) by (nonlinear_arith);
        }
    }
    if a == 104 {
        if b == 105 {
            assert(distance_squared(side_mission_spot(104), side_mission_spot(105)) > 1000 * 1000) by (nonlinear_arith);
        }
    }
    if a == 105 {
    }
}

} // verus!
