//! Assassination, escort, chase and photography jobs. Positions are in
//! centimetres, times in milliseconds, multipliers in percent and health
//! ratios in thousandths.

use island_rampage::mission::advanced_missions::{
    ChaseData, EscortData, PhotoTarget, PhotographyData, TargetDifficulty,
};
use island_rampage::mission::data::{CompletedMissionRecord, MissionManager, MissionType};
use island_rampage::mission::story_data::types::Position;

fn origin() -> Position {
    Position::new(0, 0, 0)
}

#[test]
fn target_difficulty_reward_multiplier() {
    assert_eq!(TargetDifficulty::Easy.reward_multiplier(), 100);
    assert_eq!(TargetDifficulty::Medium.reward_multiplier(), 150);
    assert_eq!(TargetDifficulty::Hard.reward_multiplier(), 250);
}

#[test]
fn target_difficulty_guard_count() {
    assert_eq!(TargetDifficulty::Easy.guard_count(), 0);
    assert_eq!(TargetDifficulty::Medium.guard_count(), 2);
    assert_eq!(TargetDifficulty::Hard.guard_count(), 4);
}

#[test]
fn escort_data_damage_and_alive() {
    let mut escort = EscortData::new(
        "Test VIP".to_string(),
        origin(),
        Position::new(10_000, 0, 0),
        2,
    );

    assert!(escort.vip_alive());
    assert_eq!(escort.vip_hp_ratio(), 1000);

    escort.damage_vip(30);
    assert!(escort.vip_alive());
    assert_eq!(escort.vip_hp_ratio(), 700);

    escort.damage_vip(80); // 超過剩餘 HP
    assert!(!escort.vip_alive());
    assert_eq!(escort.vip_hp_ratio(), 0);
}

#[test]
fn chase_data_intercept() {
    let chase = ChaseData {
        target_vehicle: "Test Car".to_string(),
        chase_start: origin(),
        escape_route: vec![Position::new(10_000, 0, 0)],
        intercept_radius: 500,
        time_limit: 60_000,
        target_speed: 2_000,
    };

    // 太遠
    assert!(!chase.is_intercepted(origin(), Position::new(1_000, 0, 0)));
    // 足夠近
    assert!(chase.is_intercepted(origin(), Position::new(300, 0, 0)));
}

#[test]
fn photography_try_capture() {
    let mut photo = PhotographyData::new(
        "Test".to_string(),
        vec![
            PhotoTarget {
                description: "Target A".to_string(),
                position: Position::new(1_000, 0, 0),
                required_distance: 500,
                required_facing: None,
                captured: false,
            },
            PhotoTarget {
                description: "Target B".to_string(),
                position: Position::new(5_000, 0, 0),
                required_distance: 500,
                required_facing: None,
                captured: false,
            },
        ],
    );

    assert_eq!(photo.progress(), (0, 2));
    assert!(!photo.all_captured());

    // 太遠
    let result = photo.try_capture(origin());
    assert!(result.is_none());

    // 靠近 Target A
    let result = photo.try_capture(Position::new(800, 0, 0));
    assert_eq!(result, Some("Target A".to_string()));
    assert_eq!(photo.progress(), (1, 2));

    // 重複拍攝不算
    let result = photo.try_capture(Position::new(800, 0, 0));
    assert!(result.is_none());

    // 拍攝 Target B
    let result = photo.try_capture(Position::new(4_800, 0, 0));
    assert_eq!(result, Some("Target B".to_string()));
    assert!(photo.all_captured());
}

#[test]
fn generate_assassination_mission() {
    let mut manager = MissionManager::default();
    let mission = manager.generate_assassination_mission();

    assert_eq!(mission.mission_type, MissionType::Assassination);
    assert!(mission.reward > 0);
}

#[test]
fn generate_escort_mission() {
    let mut manager = MissionManager::default();
    let mission = manager.generate_escort_mission();

    assert_eq!(mission.mission_type, MissionType::Escort);
    assert!(mission.time_limit.is_some());
}

#[test]
fn generate_chase_mission() {
    let mut manager = MissionManager::default();
    let mission = manager.generate_chase_mission();

    assert_eq!(mission.mission_type, MissionType::ChaseDown);
    assert_eq!(mission.time_limit, Some(90_000));
}

#[test]
fn generate_photography_mission() {
    let mut manager = MissionManager::default();
    let mission = manager.generate_photography_mission();

    assert_eq!(mission.mission_type, MissionType::Photography);
    assert!(mission.time_limit.is_none());
}

#[test]
fn refresh_advanced_missions_adds_four() {
    let mut manager = MissionManager::default();
    let initial = manager.available_missions.len();
    manager.refresh_advanced_missions();
    assert_eq!(manager.available_missions.len(), initial + 4);
}

#[test]
fn mission_type_labels() {
    let record = CompletedMissionRecord {
        title: "Test".to_string(),
        mission_type: MissionType::Assassination,
        reward: 1000,
        stars: 3,
        rating_label: "Good".to_string(),
    };
    assert_eq!(record.type_label(), "暗殺");
}
