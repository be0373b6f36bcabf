//! Playing story missions: objective tracking, phase changes, failures,
//! checkpoint retries, triggers, NPCs and mission markers. Positions are in
//! centimetres, times in milliseconds, times of day in hundredths of an hour.

use island_rampage::economy::wallet::PlayerWallet;
use island_rampage::mission::cutscene::CutsceneState;
use island_rampage::mission::dialogue::{DialogueEvent, DialogueState};
use island_rampage::mission::economy::RespectManager;
use island_rampage::mission::story_data::conditions::FailCondition;
use island_rampage::mission::story_data::mission::StoryMission;
use island_rampage::mission::story_data::objectives::{MissionObjective, ObjectiveType};
use island_rampage::mission::story_data::phases::MissionPhase;
use island_rampage::mission::story_data::rewards::MissionRewards;
use island_rampage::mission::story_data::types::{Position, StoryMissionStatus, StoryMissionType};
use island_rampage::mission::story_manager::{StoryMissionDatabase, StoryMissionEvent, StoryMissionManager};
use island_rampage::mission::story_systems::mission_markers::spawn_mission_triggers;
use island_rampage::mission::story_systems::objective_tracking::{
    checkpoint_retry_system, mission_fail_check_system, mission_objective_tracking_system, mission_phase_system,
    CheckpointRetryOutcome, MissionTarget,
};
use island_rampage::mission::story_systems::trigger_handler::{
    dialogue_trigger_event_handler, get_mission_start_dialogue, mission_npc_interaction_system,
    mission_trigger_event_handler, MissionNpcInfo, TriggerEvent, TriggerEventType, TriggerInfo,
};
use island_rampage::mission::unlocks::UnlockManager;

const NOON: u32 = 1200;

fn origin() -> Position {
    Position::new(0, 0, 0)
}

/// A mission with a "reach the garage" phase, then a phase that ends with
/// a dialogue-free kill count, paying 500.
fn two_phase_mission(id: u32) -> StoryMission {
    StoryMission::new(id, "車庫", "到車庫")
        .at_location(Position::new(1_000, 0, 0))
        .with_phase(
            MissionPhase::new(1, StoryMissionType::Escort, "到車庫")
                .with_objective(MissionObjective::new(1, ObjectiveType::ReachLocation(Position::new(5_000, 0, 0), 300), "到車庫"))
                .with_start_dialogue(7),
        )
        .with_phase(
            MissionPhase::new(2, StoryMissionType::Elimination, "清場")
                .with_objective(MissionObjective::new(2, ObjectiveType::KillCount(2), "擊倒兩人").with_count(2))
                .with_start_dialogue(8)
                .with_cutscene(3)
                .with_fail_condition(FailCondition::PlayerDeath),
        )
        .with_rewards(MissionRewards::money(500).with_respect(10).unlock_mission(9))
}

fn started(db: &StoryMissionDatabase, id: u32) -> StoryMissionManager {
    let mut m = StoryMissionManager::new();
    m.unlock_mission(id);
    let wallet = PlayerWallet::default();
    m.start_mission(db.get(id).unwrap(), &wallet, &RespectManager::default(), &UnlockManager::default(), NOON)
        .unwrap();
    m
}

fn database() -> StoryMissionDatabase {
    let mut db = StoryMissionDatabase::default();
    db.register(two_phase_mission(1));
    db
}

#[test]
fn tracking_reach_location_completes_objective() {
    let db = database();
    let mut m = started(&db, 1);
    let far = mission_objective_tracking_system(&mut m, origin(), &Vec::new());
    assert!(far.is_empty());
    assert!(!m.current_mission.as_ref().unwrap().objectives[0].is_completed);
    let events = mission_objective_tracking_system(&mut m, Position::new(5_200, 0, 0), &Vec::new());
    assert_eq!(events.len(), 1);
    assert!(matches!(events[0], StoryMissionEvent::ObjectiveCompleted { mission_id: 1, objective_index: 0 }));
    let o = &m.current_mission.as_ref().unwrap().objectives[0];
    assert!(o.is_completed);
    assert_eq!(o.current_count, o.target_count);
    // A done objective is not reported again.
    assert!(mission_objective_tracking_system(&mut m, Position::new(5_200, 0, 0), &Vec::new()).is_empty());
}

#[test]
fn tracking_follow_and_escort_targets() {
    let mut db = StoryMissionDatabase::default();
    db.register(
        StoryMission::new(4, "跟蹤", "跟蹤").with_phase(
            MissionPhase::new(1, StoryMissionType::Chase, "跟蹤")
                .with_objective(MissionObjective::new(1, ObjectiveType::FollowTarget("car".to_string(), 3_000), "跟車"))
                .with_objective(MissionObjective::new(2, ObjectiveType::EscortNpc("vip".to_string()), "護送")),
        ),
    );
    let mut m = started(&db, 4);
    let targets = vec![
        MissionTarget { target_id: "car".to_string(), mission_id: 4, is_escort: false, waypoint_count: 3, current_waypoint: 3 },
        MissionTarget { target_id: "vip".to_string(), mission_id: 4, is_escort: false, waypoint_count: 2, current_waypoint: 2 },
    ];
    let events = mission_objective_tracking_system(&mut m, origin(), &targets);
    // The car has arrived; the "vip" target is not an escort, so it does not count.
    assert_eq!(events.len(), 1);
    assert!(matches!(events[0], StoryMissionEvent::ObjectiveCompleted { objective_index: 0, .. }));
    let escort = vec![MissionTarget {
        target_id: "vip".to_string(),
        mission_id: 4,
        is_escort: true,
        waypoint_count: 2,
        current_waypoint: 2,
    }];
    let events = mission_objective_tracking_system(&mut m, origin(), &escort);
    assert_eq!(events.len(), 1);
    assert!(matches!(events[0], StoryMissionEvent::ObjectiveCompleted { objective_index: 1, .. }));
}

#[test]
fn phase_system_moves_to_next_phase_with_checkpoint() {
    let db = database();
    let mut m = started(&db, 1);
    let mut wallet = PlayerWallet::default();
    let mut respect = RespectManager::default();
    let mut unlocks = UnlockManager::default();
    let dialogue = DialogueState::default();
    let cutscene = CutsceneState::default();
    // Not done yet: only the timer runs.
    let step = mission_phase_system(&mut m, &db, &mut wallet, &mut respect, &mut unlocks, 1_000, &dialogue, &cutscene, origin());
    assert!(step.mission_events.is_empty());
    assert_eq!(m.current_mission.as_ref().unwrap().phase_timer, 1_000);
    m.current_mission.as_mut().unwrap().complete_objective(1);
    let step = mission_phase_system(&mut m, &db, &mut wallet, &mut respect, &mut unlocks, 500, &dialogue, &cutscene, Position::new(5_000, 0, 0));
    assert_eq!(step.mission_events.len(), 2);
    assert!(matches!(step.mission_events[0], StoryMissionEvent::PhaseChanged { mission_id: 1, new_phase: 1 }));
    assert!(matches!(step.mission_events[1], StoryMissionEvent::CheckpointReached { mission_id: 1, phase: 1 }));
    assert_eq!(step.dialogues, vec![8]);
    assert_eq!(step.cutscenes, vec![3]);
    let a = m.current_mission.as_ref().unwrap();
    assert_eq!(a.current_phase, 1);
    assert_eq!(a.phase_timer, 0);
    let cp = m.checkpoint.as_ref().unwrap();
    assert_eq!(cp.phase, 1);
    assert_eq!(cp.player_position, Position::new(5_000, 0, 0));
}

#[test]
fn phase_system_completes_last_phase_and_pays() {
    let db = database();
    let mut m = started(&db, 1);
    let mut wallet = PlayerWallet { cash: 100, bank: 0, total_earned: 0, total_spent: 0 };
    let mut respect = RespectManager::default();
    let mut unlocks = UnlockManager::default();
    let dialogue = DialogueState::default();
    let cutscene = CutsceneState::default();
    m.current_mission.as_mut().unwrap().complete_objective(1);
    mission_phase_system(&mut m, &db, &mut wallet, &mut respect, &mut unlocks, 0, &dialogue, &cutscene, origin());
    m.current_mission.as_mut().unwrap().complete_objective(2);
    let step = mission_phase_system(&mut m, &db, &mut wallet, &mut respect, &mut unlocks, 0, &dialogue, &cutscene, origin());
    assert_eq!(step.mission_events.len(), 1);
    match &step.mission_events[0] {
        StoryMissionEvent::Completed { mission_id, rewards } => {
            assert_eq!(*mission_id, 1);
            assert_eq!(rewards.money, 500);
        },
        other => panic!("unexpected event {:?}", other),
    }
    assert_eq!(wallet.cash, 600);
    assert_eq!(respect.respect, 10);
    assert!(m.current_mission.is_none());
    assert_eq!(m.completed_count, 1);
    assert_eq!(m.get_mission_status(1), StoryMissionStatus::Completed);
    assert_eq!(m.get_mission_status(9), StoryMissionStatus::Available);
    assert!(m.last_completion_result.is_some());
}

#[test]
fn phase_system_waits_for_dialogues_and_end_dialogue() {
    let mut db = StoryMissionDatabase::default();
    db.register(
        StoryMission::new(2, "談話", "談話").with_phase(
            MissionPhase::new(1, StoryMissionType::Dialogue, "談話")
                .with_objective(MissionObjective::new(1, ObjectiveType::TalkToNpc("阿明".to_string()), "找阿明"))
                .with_end_dialogue(42),
        ),
    );
    let mut m = started(&db, 2);
    let mut wallet = PlayerWallet::default();
    let mut respect = RespectManager::default();
    let mut unlocks = UnlockManager::default();
    m.current_mission.as_mut().unwrap().complete_objective(1);
    let mut talking = DialogueState::default();
    talking.active_dialogue = Some(island_rampage::mission::dialogue::ActiveDialogue::new(5, 0));
    let step = mission_phase_system(&mut m, &db, &mut wallet, &mut respect, &mut unlocks, 300, &talking, &CutsceneState::default(), origin());
    assert!(step.dialogues.is_empty());
    assert_eq!(m.current_mission.as_ref().unwrap().phase_timer, 0);
    let step = mission_phase_system(&mut m, &db, &mut wallet, &mut respect, &mut unlocks, 300, &DialogueState::default(), &CutsceneState::default(), origin());
    assert_eq!(step.dialogues, vec![42]);
    assert!(step.mission_events.is_empty());
    assert!(m.current_mission.is_some());
}

#[test]
fn fail_check_player_death_and_time_limit() {
    let mut db = StoryMissionDatabase::default();
    db.register(
        StoryMission::new(3, "限時", "限時").with_phase(
            MissionPhase::new(1, StoryMissionType::Defend, "撐住")
                .with_objective(MissionObjective::new(1, ObjectiveType::SurviveTime(60_000), "撐一分鐘"))
                .with_time_limit(30_000)
                .with_fail_condition(FailCondition::TimeExpired)
                .with_fail_condition(FailCondition::PlayerDeath),
        ),
    );
    let mut m = started(&db, 3);
    assert!(mission_fail_check_system(&mut m, &db, Some(100)).is_none());
    let f = mission_fail_check_system(&mut m, &db, Some(0)).unwrap();
    assert!(matches!(f.event, StoryMissionEvent::Failed { mission_id: 3, reason: FailCondition::PlayerDeath }));
    assert!(m.current_mission.is_none());
    assert_eq!(m.get_mission_status(3), StoryMissionStatus::Failed);
    assert_eq!(m.current_performance, None);

    let mut m = started_again(&db, 3);
    m.current_mission.as_mut().unwrap().tick(30_000);
    let f = mission_fail_check_system(&mut m, &db, None).unwrap();
    // The time limit is listed first, so it is the reason.
    assert!(matches!(f.event, StoryMissionEvent::Failed { reason: FailCondition::TimeExpired, .. }));
}

fn started_again(db: &StoryMissionDatabase, id: u32) -> StoryMissionManager {
    started(db, id)
}

#[test]
fn checkpoint_retry_and_abandon() {
    let db = database();
    let mut m = started(&db, 1);
    m.create_checkpoint(Position::new(1_000, 0, 0), 1);
    let mut nothing = checkpoint_retry_system(&mut m, &db, true, false);
    // A mission is still running: nothing to retry.
    assert!(matches!(nothing, CheckpointRetryOutcome::Nothing));
    m.fail_current_mission(FailCondition::PlayerDeath);
    nothing = checkpoint_retry_system(&mut m, &db, false, false);
    assert!(matches!(nothing, CheckpointRetryOutcome::Nothing));
    match checkpoint_retry_system(&mut m, &db, true, false) {
        CheckpointRetryOutcome::Retried { position, event } => {
            assert_eq!(position, Position::new(1_000, 0, 0));
            assert!(matches!(event, StoryMissionEvent::CheckpointReached { mission_id: 1, phase: 1 }));
        },
        other => panic!("unexpected outcome {:?}", other),
    }
    assert_eq!(m.current_mission.as_ref().unwrap().current_phase, 1);
    m.abandon_current_mission();
    assert!(matches!(checkpoint_retry_system(&mut m, &db, false, true), CheckpointRetryOutcome::Abandoned));
    assert!(m.checkpoint.is_none());
}

#[test]
fn checkpoint_retry_refused_for_unknown_mission() {
    let db = database();
    let mut m = started(&db, 1);
    m.create_checkpoint(origin(), 0);
    m.abandon_current_mission();
    let empty = StoryMissionDatabase::default();
    match checkpoint_retry_system(&mut m, &empty, true, false) {
        CheckpointRetryOutcome::RetryFailed(e) => assert_eq!(e, "找不到任務資料"),
        other => panic!("unexpected outcome {:?}", other),
    }
}

#[test]
fn mission_trigger_starts_mission_when_flag_set() {
    let db = database();
    let mut m = StoryMissionManager::new();
    m.unlock_mission(1);
    let wallet = PlayerWallet::default();
    let triggers = vec![TriggerInfo { entity: 77, required_flag: Some("met_boss".to_string()) }];
    let event = TriggerEvent::PlayerEntered { entity: 77, trigger_type: TriggerEventType::Mission(1) };
    let r = mission_trigger_event_handler(&event, &triggers, &mut m, &db, &wallet, &RespectManager::default(), &UnlockManager::default(), NOON);
    assert!(r.is_none());
    assert!(m.current_mission.is_none());
    m.set_flag("met_boss".to_string(), true);
    let exit = TriggerEvent::PlayerExited { entity: 77, trigger_type: TriggerEventType::Mission(1) };
    assert!(mission_trigger_event_handler(&exit, &triggers, &mut m, &db, &wallet, &RespectManager::default(), &UnlockManager::default(), NOON).is_none());
    let r = mission_trigger_event_handler(&event, &triggers, &mut m, &db, &wallet, &RespectManager::default(), &UnlockManager::default(), NOON);
    assert!(matches!(r, Some(StoryMissionEvent::Started(1))));
    assert_eq!(m.get_mission_status(1), StoryMissionStatus::InProgress);
}

#[test]
fn dialogue_trigger_starts_dialogue() {
    let enter = TriggerEvent::PlayerInteracted { entity: 1, trigger_type: TriggerEventType::Dialogue(12) };
    match dialogue_trigger_event_handler(&enter) {
        Some(DialogueEvent::Start { dialogue_id, participants }) => {
            assert_eq!(dialogue_id, 12);
            assert!(participants.is_empty());
        },
        other => panic!("unexpected {:?}", other),
    }
    let stay = TriggerEvent::PlayerStayed { entity: 1, trigger_type: TriggerEventType::Dialogue(12) };
    assert!(dialogue_trigger_event_handler(&stay).is_none());
}

#[test]
fn npc_gives_mission_or_idle_dialogue() {
    let db = database();
    assert_eq!(get_mission_start_dialogue(1, &db), Some(7));
    assert_eq!(get_mission_start_dialogue(5, &db), None);
    let mut m = StoryMissionManager::new();
    let wallet = PlayerWallet::default();
    let npc = MissionNpcInfo {
        position: Position::new(100, 0, 0),
        can_interact: true,
        interaction_radius: 200,
        offers_mission: Some(1),
        idle_dialogue: Some(99),
    };
    let npcs = vec![npc];
    // The mission is still locked: the NPC only chats.
    let out = mission_npc_interaction_system(&npcs, origin(), true, &DialogueState::default(), &mut m, &db, &wallet, &RespectManager::default(), &UnlockManager::default(), NOON);
    assert!(out.mission_event.is_none());
    assert_eq!(out.dialogue, Some(99));
    assert!(out.consumed);
    m.unlock_mission(1);
    let out = mission_npc_interaction_system(&npcs, origin(), true, &DialogueState::default(), &mut m, &db, &wallet, &RespectManager::default(), &UnlockManager::default(), NOON);
    assert!(matches!(out.mission_event, Some(StoryMissionEvent::Started(1))));
    assert_eq!(out.dialogue, Some(7));
    // Too far away, or the key is taken: nothing.
    let mut m2 = StoryMissionManager::new();
    let out = mission_npc_interaction_system(&npcs, Position::new(1_000, 0, 0), true, &DialogueState::default(), &mut m2, &db, &wallet, &RespectManager::default(), &UnlockManager::default(), NOON);
    assert!(!out.consumed && out.dialogue.is_none());
    let out = mission_npc_interaction_system(&npcs, origin(), false, &DialogueState::default(), &mut m2, &db, &wallet, &RespectManager::default(), &UnlockManager::default(), NOON);
    assert!(!out.consumed);
}

#[test]
fn mission_markers_follow_available_missions() {
    let mut db = database();
    db.register(StoryMission::new(2, "無地點", "無地點").with_phase(MissionPhase::new(1, StoryMissionType::Dialogue, "x")));
    let mut m = StoryMissionManager::new();
    m.unlock_mission(1);
    m.unlock_mission(2);
    let plan = spawn_mission_triggers(&Vec::new(), &Vec::new(), &m, &db);
    assert!(plan.despawn.is_empty());
    // Mission 2 has no trigger location.
    assert_eq!(plan.spawn.len(), 1);
    assert_eq!(plan.spawn[0].mission_id, 1);
    assert_eq!(plan.spawn[0].position, Position::new(1_000, 0, 0));
    assert_eq!(plan.spawn[0].title, "車庫");
    // A marker already stands for mission 1; its mission starts this frame.
    let existing = vec![(500u64, 1u32), (501u64, 8u32)];
    let events = vec![StoryMissionEvent::Started(1)];
    let plan = spawn_mission_triggers(&events, &existing, &m, &db);
    assert_eq!(plan.despawn, vec![500]);
    assert!(plan.spawn.is_empty());
}
