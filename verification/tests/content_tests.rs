//! Built-in content and its ordering rules: chapter one's unlock chain, the
//! side missions' chapter list, the cutscene's keyframes and timeline, the
//! stable keyframe order, generated job ids, and stock prices far from
//! their listing price.

use island_rampage::economy::stock_market::{Stock, StockSymbol, MIN_PRICE};
use island_rampage::mission::cutscene::{create_sample_cutscene, CameraKeyframe, Cutscene, CutsceneAction, EasingType};
use island_rampage::mission::data::{MissionManager, MissionType};
use island_rampage::mission::dialogue::{DialogueConsequence, DialogueDatabase, DialogueSpeaker, SpeakerEmotion};
use island_rampage::mission::side_dialogues::register_side_dialogues;
use island_rampage::mission::story_data::objectives::ObjectiveType;
use island_rampage::mission::side_missions::register_side_missions;
use island_rampage::mission::story_data::conditions::UnlockCondition;
use island_rampage::mission::story_data::types::Position;
use island_rampage::mission::story_manager::StoryMissionDatabase;
use island_rampage::mission::story_manager_data::create_sample_missions;

#[test]
fn chapter_one_unlock_chain() {
    let mut db = StoryMissionDatabase::default();
    create_sample_missions(&mut db);
    assert!(db.get(1).unwrap().unlock_conditions.is_empty());
    for id in 2..=5u32 {
        let m = db.get(id).unwrap();
        assert!(matches!(m.unlock_conditions[0], UnlockCondition::CompleteMission(prev) if prev == id - 1));
    }
    for id in 1..=4u32 {
        assert_eq!(db.get(id).unwrap().rewards.unlock_missions, vec![id + 1]);
    }
    assert!(db.get(5).unwrap().rewards.unlock_missions.is_empty());
    assert!(matches!(&db.get(4).unwrap().unlock_conditions[1], UnlockCondition::HasFlag(f) if f == "found_hideout"));
    assert_eq!(db.get(5).unwrap().rewards.money, 2000);
    assert_eq!(db.get(2).unwrap().rewards.respect, 25);
}

#[test]
fn side_missions_listed_under_their_chapter() {
    let mut db = StoryMissionDatabase::default();
    register_side_missions(&mut db);
    assert_eq!(db.chapters[&0], vec![100, 101, 102, 103, 104, 105]);
    for id in 100..=105u32 {
        assert_eq!(db.get(id).unwrap().quest_giver, Some(id + 100));
    }
}

#[test]
fn sample_cutscene_contents() {
    let c = create_sample_cutscene();
    let times: Vec<u64> = c.camera_keyframes.iter().map(|k| k.time).collect();
    assert_eq!(times, vec![0, 5_000, 10_000, 15_000]);
    assert_eq!(c.camera_keyframes[0].fov, 4500);
    assert_eq!(c.camera_keyframes[2].easing, EasingType::EaseOutCubic);
    assert_eq!(c.camera_keyframes[3].target, Position::new(0, 150, 0));
    let times: Vec<u64> = c.timeline.iter().map(|e| e.time).collect();
    assert_eq!(times, vec![0, 500, 2_000, 5_000, 6_000, 7_000, 10_000, 12_000, 14_500]);
    assert!(matches!(&c.timeline[1].action, CutsceneAction::PlayMusic { music, fade_in: 1_000 } if music == "bgm_intro.ogg"));
    assert!(matches!(&c.timeline[7].action, CutsceneAction::ShowSubtitle { text, duration: 2_500 } if text == "而你，將改變一切"));
    assert!(matches!(c.timeline[8].action, CutsceneAction::FadeOut { duration: 500, .. }));
    assert!(c.timeline.iter().all(|e| !e.executed));
}

#[test]
fn keyframes_with_equal_times_keep_their_order() {
    let k = |t: u64, fov: u32| CameraKeyframe::new(t, Position::new(0, 0, 0), Position::new(0, 0, 0)).with_fov(fov);
    let mut c = Cutscene::new(9, "order");
    // An unsorted list, as a caller may leave the public field.
    c.camera_keyframes = vec![k(5, 1), k(1, 2), k(5, 3)];
    c.add_keyframe(k(5, 4));
    let fovs: Vec<u32> = c.camera_keyframes.iter().map(|k| k.fov).collect();
    assert_eq!(fovs, vec![2, 1, 3, 4]);
}

#[test]
fn refresh_numbers_new_jobs_in_order() {
    let mut manager = MissionManager::default();
    let first = manager.next_mission_id;
    let before = manager.available_missions.len();
    manager.refresh_advanced_missions();
    let new = &manager.available_missions[before..];
    let ids: Vec<u32> = new.iter().map(|m| m.id).collect();
    assert_eq!(ids, vec![first, first + 1, first + 2, first + 3]);
    assert_eq!(new[2].mission_type, MissionType::ChaseDown);
    assert_eq!(new[2].time_limit, Some(90_000));
    assert_eq!(new[3].time_limit, None);
}

#[test]
fn stock_price_above_old_cap_is_kept() {
    let mut stock = Stock::new(StockSymbol::TSMC);
    stock.price = 2_000_000_000_000;
    stock.tick_price(0);
    assert_eq!(stock.price, 2_000_000_000_000);
    assert_eq!(stock.previous_price, 2_000_000_000_000);
}

#[test]
fn stock_price_saturates_on_huge_moves() {
    let mut up = Stock::new(StockSymbol::TSMC);
    up.set_trend(1_000_000_000, i64::MAX);
    up.tick_price(i64::MAX / 2);
    assert_eq!(up.price, i64::MAX);
    let mut down = Stock::new(StockSymbol::TSMC);
    down.set_trend(-1_000_000_000, i64::MAX);
    down.tick_price(i64::MAX / 2);
    assert_eq!(down.price, MIN_PRICE);
}

#[test]
fn stock_change_percent_of_a_large_move() {
    let mut stock = Stock::new(StockSymbol::TSMC);
    stock.previous_price = 1;
    stock.price = i64::MAX;
    assert_eq!(stock.change_percent(), (i64::MAX as i128 - 1) * 10_000);
}

#[test]
fn side_dialogue_lines_are_as_written() {
    let mut db = DialogueDatabase::default();
    register_side_dialogues(&mut db);
    let tree = db.get_dialogue(200).unwrap();
    assert_eq!(tree.name, "檳榔西施：求助");
    let node = tree.get_node(1).unwrap();
    assert_eq!(node.speaker, DialogueSpeaker::Npc(200));
    assert_eq!(node.emotion, SpeakerEmotion::Afraid);
    assert_eq!(node.choices.len(), 3);
    assert_eq!(node.choices[0].text, "放心，我幫妳趕走他們");
    assert_eq!(node.choices[0].next_node, Some(2));
    assert!(matches!(
        node.choices[0].consequences[0],
        DialogueConsequence::ChangeRelationship { npc_id: 200, delta: 10 }
    ));
    assert_eq!(tree.get_node(0).unwrap().next_node, Some(1));
}

#[test]
fn side_mission_phases_are_as_written() {
    let mut db = StoryMissionDatabase::default();
    register_side_missions(&mut db);
    let m = db.get(100).unwrap();
    assert_eq!(m.phases.len(), 3);
    assert_eq!(m.phases[0].start_dialogue, Some(200));
    assert!(matches!(&m.phases[0].objectives[0].objective_type, ObjectiveType::TalkToNpc(n) if n == "betel_nut_beauty"));
    assert_eq!(m.phases[1].time_limit, Some(120_000));
    assert_eq!(m.phases[1].objectives[0].target_count, 3);
    assert_eq!(m.phases[2].end_dialogue, Some(201));
    assert_eq!(m.rewards.set_flags, vec!["helped_betel_nut_beauty".to_string()]);
}
