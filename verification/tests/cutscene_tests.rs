//! Cutscenes: keyframe and timeline order, camera sampling, playback,
//! timeline actions, fades, black bars and skipping. Times are in
//! milliseconds, progress and opacity in thousandths.

use island_rampage::mission::cutscene::{
    create_sample_cutscene, CameraKeyframe, CameraSample, Cutscene, CutsceneAction, CutsceneDatabase, CutsceneEvent,
    CutsceneState, EasingType, FadeColor, FadeState,
};
use island_rampage::mission::cutscene_systems::{
    cutscene_cleanup_system, cutscene_event_handler, cutscene_fade_system, cutscene_letterbox_system,
    cutscene_playback_system, cutscene_skip_system, cutscene_timeline_system, get_cutscene_progress,
    is_cutscene_active, start_cutscene, LETTERBOX_HEIGHT,
};
use island_rampage::mission::story_data::types::Position;

fn p(x: i64) -> Position {
    Position::new(x, 0, 0)
}

fn times(c: &Cutscene) -> Vec<u64> {
    c.camera_keyframes.iter().map(|k| k.time).collect()
}

#[test]
fn sample_cutscene_shape() {
    let c = create_sample_cutscene();
    assert_eq!(c.id, 1);
    assert_eq!(c.name, "第一章開場");
    assert_eq!(c.duration, 15_000);
    assert_eq!(times(&c), vec![0, 5_000, 10_000, 15_000]);
    assert_eq!(c.timeline.len(), 9);
    assert!(c.timeline.windows(2).all(|w| w[0].time <= w[1].time));
    assert_eq!(c.camera_keyframes[2].easing, EasingType::EaseOutCubic);
    assert_eq!(c.camera_keyframes[0].fov, 4500);
}

#[test]
fn keyframes_are_kept_in_time_order() {
    let mut c = Cutscene::new(2, "test");
    c.add_keyframe(CameraKeyframe::new(3_000, p(3), p(0)));
    c.add_keyframe(CameraKeyframe::new(1_000, p(1), p(0)));
    c.add_keyframe(CameraKeyframe::new(2_000, p(2), p(0)));
    // Equal times keep the order they were added in.
    c.add_keyframe(CameraKeyframe::new(2_000, p(22), p(0)));
    assert_eq!(times(&c), vec![1_000, 2_000, 2_000, 3_000]);
    assert_eq!(c.camera_keyframes[1].position, p(2));
    assert_eq!(c.camera_keyframes[2].position, p(22));
    // A list put out of order by hand is sorted again.
    c.camera_keyframes.swap(0, 3);
    c.add_keyframe(CameraKeyframe::new(0, p(0), p(0)));
    assert_eq!(times(&c), vec![0, 1_000, 2_000, 2_000, 3_000]);
}

#[test]
fn camera_samples() {
    let empty = Cutscene::new(3, "empty");
    assert_eq!(empty.interpolate_camera(0), None);
    let c = Cutscene::new(3, "cam")
        .with_keyframe(CameraKeyframe::new(1_000, p(0), p(0)).with_fov(4500))
        .with_keyframe(CameraKeyframe::new(3_000, p(100), p(0)).with_easing(EasingType::Linear));
    assert_eq!(c.interpolate_camera(0), Some(CameraSample::At(0)));
    assert_eq!(c.interpolate_camera(1_000), Some(CameraSample::At(0)));
    assert_eq!(c.interpolate_camera(2_000), Some(CameraSample::Between { from: 0, to: 1, progress: 500 }));
    assert_eq!(c.interpolate_camera(2_500), Some(CameraSample::Between { from: 0, to: 1, progress: 750 }));
    assert_eq!(c.interpolate_camera(5_000), Some(CameraSample::At(1)));
}

#[test]
fn keyframe_defaults() {
    let k = CameraKeyframe::default();
    assert_eq!(k.position, Position::new(0, 500, 1_000));
    assert_eq!(k.fov, 6000);
    assert_eq!(k.easing, EasingType::EaseInOut);
    let f = FadeState::default();
    assert!(!f.active);
    assert_eq!(f.current_opacity(), 0);
}

fn db_with(c: Cutscene) -> CutsceneDatabase {
    let mut db = CutsceneDatabase::default();
    db.register(c);
    db
}

#[test]
fn start_play_and_finish() {
    let db = db_with(Cutscene::new(5, "短片").with_duration(2_000));
    let mut s = CutsceneState::default();
    assert!(!is_cutscene_active(&s));
    cutscene_event_handler(&start_cutscene(99), &mut s, &db);
    assert!(!is_cutscene_active(&s));
    cutscene_event_handler(&start_cutscene(5), &mut s, &db);
    assert!(is_cutscene_active(&s));
    assert!(s.letterbox_visible);
    assert!(s.fade_state.active && s.fade_state.fading_in);
    assert_eq!(s.fade_state.duration, 1_000);
    assert!(cutscene_playback_system(&mut s, &db, 500).is_none());
    assert_eq!(get_cutscene_progress(&s, &db), 250);
    cutscene_event_handler(&CutsceneEvent::Pause, &mut s, &db);
    assert!(cutscene_playback_system(&mut s, &db, 5_000).is_none());
    assert_eq!(s.active_cutscene.as_ref().unwrap().current_time, 500);
    cutscene_event_handler(&CutsceneEvent::Resume, &mut s, &db);
    let done = cutscene_playback_system(&mut s, &db, 1_500);
    assert!(matches!(done, Some(CutsceneEvent::Completed(5))));
    assert!(s.active_cutscene.as_ref().unwrap().completed);
    assert!(!s.fade_state.fading_in);
    assert_eq!(s.fade_state.duration, 500);
    // Clean-up waits for the fade out.
    s.active_cutscene.as_mut().unwrap().spawned_entities.push(77);
    assert!(cutscene_cleanup_system(&mut s).is_empty());
    assert!(is_cutscene_active(&s));
    assert_eq!(cutscene_fade_system(&mut s, 250), Some((FadeColor::black(), 500)));
    assert_eq!(cutscene_fade_system(&mut s, 250), None);
    assert!(!s.fade_state.active);
    assert_eq!(cutscene_cleanup_system(&mut s), vec![77]);
    assert!(!is_cutscene_active(&s));
    assert!(!s.letterbox_visible);
}

#[test]
fn fade_in_clears_the_screen() {
    let mut s = CutsceneState::default();
    s.fade_state = FadeState::fade_in(1_000, FadeColor::black());
    assert_eq!(s.fade_state.current_opacity(), 1000);
    assert_eq!(cutscene_fade_system(&mut s, 400), Some((FadeColor::black(), 600)));
    assert_eq!(cutscene_fade_system(&mut s, 600), None);
    assert_eq!(s.fade_state.progress, 1000);
    // A fade without length completes at once.
    s.fade_state = FadeState::fade_out(0, FadeColor::white());
    assert_eq!(cutscene_fade_system(&mut s, 0), None);
    assert!(!s.fade_state.active);
}

#[test]
fn timeline_runs_due_actions_once() {
    let c = Cutscene::new(6, "timeline")
        .with_duration(10_000)
        .with_action(1_000, CutsceneAction::ShowLetterbox)
        .with_action(2_000, CutsceneAction::FadeOut { duration: 300, color: FadeColor::black() })
        .with_action(500, CutsceneAction::ShowSubtitle { text: "嗨".to_string(), duration: 1_000 })
        .with_action(8_000, CutsceneAction::HideLetterbox);
    let db = db_with(c);
    let mut s = CutsceneState::default();
    cutscene_event_handler(&CutsceneEvent::Start(6), &mut s, &db);
    s.letterbox_visible = false;
    s.active_cutscene.as_mut().unwrap().current_time = 2_000;
    let actions = cutscene_timeline_system(&mut s, &db);
    assert_eq!(actions.len(), 3);
    assert!(matches!(&actions[0], CutsceneAction::ShowSubtitle { text, .. } if text == "嗨"));
    assert!(matches!(actions[1], CutsceneAction::ShowLetterbox));
    assert!(s.letterbox_visible);
    assert_eq!(s.fade_state, FadeState::fade_out(300, FadeColor::black()));
    assert_eq!(s.active_cutscene.as_ref().unwrap().executed_indices, vec![0, 1, 2]);
    assert!(cutscene_timeline_system(&mut s, &db).is_empty());
    s.active_cutscene.as_mut().unwrap().current_time = 9_000;
    let later = cutscene_timeline_system(&mut s, &db);
    assert_eq!(later.len(), 1);
    assert!(!s.letterbox_visible);
}

#[test]
fn letterbox_moves_toward_target() {
    let mut s = CutsceneState::default();
    s.letterbox_visible = true;
    assert_eq!(cutscene_letterbox_system(&s, 0, 100), 20_000);
    assert_eq!(cutscene_letterbox_system(&s, 70_000, 100), LETTERBOX_HEIGHT);
    s.letterbox_visible = false;
    assert_eq!(cutscene_letterbox_system(&s, 30_000, 100), 10_000);
    assert_eq!(cutscene_letterbox_system(&s, 10_000, 100), 0);
}

#[test]
fn holding_skip_skips() {
    let db = db_with(Cutscene::new(7, "skip"));
    let mut s = CutsceneState::default();
    let step = cutscene_skip_system(&mut s, &db, true, 100);
    assert_eq!(step.prompt_visible, Some(false));
    cutscene_event_handler(&CutsceneEvent::Start(7), &mut s, &db);
    let step = cutscene_skip_system(&mut s, &db, true, 1_000);
    assert_eq!(step.prompt_visible, Some(true));
    assert!(!step.skip);
    let step = cutscene_skip_system(&mut s, &db, false, 1_000);
    assert!(!step.skip);
    assert_eq!(s.active_cutscene.as_ref().unwrap().skip_hold_time, 0);
    cutscene_skip_system(&mut s, &db, true, 1_000);
    let step = cutscene_skip_system(&mut s, &db, true, 500);
    assert!(step.skip);
    cutscene_event_handler(&CutsceneEvent::Skip, &mut s, &db);
    assert!(s.active_cutscene.as_ref().unwrap().completed);
}
