//! Objectives, phases and performance ratings of story missions. Progress,
//! accuracy and ratios are in thousandths, times in milliseconds, bonuses in
//! percent.

use island_rampage::mission::story_data::objectives::{MissionObjective, ObjectiveType};
use island_rampage::mission::story_data::performance::{MissionPerformance, StoryMissionRating};
use island_rampage::mission::story_data::phases::MissionPhase;
use island_rampage::mission::story_data::types::StoryMissionType;

// --- MissionObjective ---

#[test]
fn story_data_objective_increment_and_completion() {
    let mut obj =
        MissionObjective::new(1, ObjectiveType::KillCount(3), "Kill 3 enemies").with_count(3);
    assert!(!obj.check_completion());
    assert_eq!(obj.progress(), 0);

    obj.increment();
    assert_eq!(obj.current_count, 1);
    assert!(!obj.check_completion());

    obj.increment();
    obj.increment();
    assert!(obj.check_completion());
    assert!(obj.is_completed);
    assert_eq!(obj.progress(), 1000);
}

#[test]
fn story_data_objective_increment_capped_at_target() {
    let mut obj =
        MissionObjective::new(1, ObjectiveType::KillCount(2), "Kill 2").with_count(2);
    obj.increment();
    obj.increment();
    obj.increment(); // extra
    assert_eq!(obj.current_count, 2);
}

#[test]
fn story_data_objective_progress_zero_target() {
    let obj = MissionObjective {
        id: 1,
        objective_type: ObjectiveType::Custom("test".into()),
        description: "test".into(),
        target_count: 0,
        current_count: 0,
        is_optional: false,
        is_completed: false,
    };
    assert_eq!(obj.progress(), 1000);
}

// --- MissionPhase ---

#[test]
fn story_data_phase_complete_ignores_optional() {
    let mut required =
        MissionObjective::new(1, ObjectiveType::KillCount(1), "required").with_count(1);
    required.increment();

    let optional =
        MissionObjective::new(2, ObjectiveType::CollectItem("bonus".into()), "optional")
            .optional();

    let phase = MissionPhase::new(1, StoryMissionType::Elimination, "test phase")
        .with_objective(required)
        .with_objective(optional);

    assert!(phase.is_complete());
}

// --- MissionPerformance ---

#[test]
fn story_data_performance_accuracy() {
    let mut perf = MissionPerformance::default();
    assert_eq!(perf.accuracy(), 1000);

    perf.shots_fired = 10;
    perf.shots_hit = 7;
    assert_eq!(perf.accuracy(), 700);
}

#[test]
fn story_data_performance_headshot_ratio() {
    let perf = MissionPerformance {
        enemies_killed: 10,
        headshots: 4,
        ..Default::default()
    };
    assert_eq!(perf.headshot_ratio(), 400);

    let no_kills = MissionPerformance::default();
    assert_eq!(no_kills.headshot_ratio(), 0);
}

#[test]
fn story_data_performance_rating_perfect_run() {
    let perf = MissionPerformance {
        completion_time: 50_000,
        shots_fired: 10,
        shots_hit: 10,
        enemies_killed: 5,
        headshots: 5,
        ..Default::default()
    };
    let rating = perf.calculate_rating(60_000);
    assert_eq!(rating, StoryMissionRating::FiveStars);
}

#[test]
fn story_data_performance_rating_poor_run() {
    let perf = MissionPerformance {
        completion_time: 180_000,
        player_deaths: 3,
        checkpoint_retries: 2,
        ..Default::default()
    };
    // score = 100 - 40(overtime) - 45(deaths) - 20(retries) + 10(accuracy) = 5
    let rating = perf.calculate_rating(60_000);
    assert_eq!(rating, StoryMissionRating::NoStars);
}

// --- StoryMissionRating ---

#[test]
fn story_data_story_rating_stars_and_bonus() {
    assert_eq!(StoryMissionRating::NoStars.stars(), 0);
    assert_eq!(StoryMissionRating::FiveStars.stars(), 5);
    assert_eq!(StoryMissionRating::FiveStars.bonus_multiplier(), 200);
    assert_eq!(StoryMissionRating::NoStars.bonus_multiplier(), 50);
}
