//! Side missions registered in the story database. Distances are in centimetres.

use island_rampage::mission::data::distance_cm;
use island_rampage::mission::side_missions::{register_side_missions, SIDE_MISSION_ID_START};
use island_rampage::mission::story_data::types::Position;
use island_rampage::mission::story_manager::StoryMissionDatabase;

#[test]
fn test_side_mission_id_range() {
    assert_eq!(SIDE_MISSION_ID_START, 100);
}

#[test]
fn test_all_side_missions_registered() {
    let mut database = StoryMissionDatabase::default();
    register_side_missions(&mut database);

    // 6 個支線任務
    for id in 100..=105 {
        assert!(database.get(id).is_some(), "支線任務 ID {id} 未註冊");
    }
}

#[test]
fn test_side_missions_have_unique_locations() {
    let mut database = StoryMissionDatabase::default();
    register_side_missions(&mut database);

    let mut locations: Vec<Position> = Vec::new();
    for id in 100..=105 {
        let mission = database.get(id).unwrap();
        let loc = mission.trigger_location.expect("支線任務應有觸發位置");
        // 確保沒有重疊的觸發位置
        for existing in &locations {
            let dist = distance_cm(loc, *existing);
            assert!(
                dist > 1_000,
                "任務 {id} 的位置與其他任務太近 (距離: {dist})"
            );
        }
        locations.push(loc);
    }
}

#[test]
fn test_side_missions_have_rewards() {
    let mut database = StoryMissionDatabase::default();
    register_side_missions(&mut database);

    for id in 100..=105 {
        let mission = database.get(id).unwrap();
        assert!(mission.rewards.money > 0, "任務 {id} 沒有金錢獎勵");
        assert!(mission.rewards.respect > 0, "任務 {id} 沒有聲望獎勵");
    }
}

#[test]
fn test_side_missions_no_prerequisites() {
    let mut database = StoryMissionDatabase::default();
    register_side_missions(&mut database);

    // 支線任務不應該需要主線任務前置條件
    for id in 100..=105 {
        let mission = database.get(id).unwrap();
        assert!(
            mission.unlock_conditions.is_empty(),
            "支線任務 {id} 不應有前置條件"
        );
    }
}

#[test]
fn test_side_missions_have_phases() {
    let mut database = StoryMissionDatabase::default();
    register_side_missions(&mut database);

    for id in 100..=105 {
        let mission = database.get(id).unwrap();
        assert!(
            mission.phases.len() >= 2,
            "任務 {} 至少需要 2 個階段，實際 {}",
            id,
            mission.phases.len()
        );
    }
}
