//! Cutscene playback: starting, pausing and skipping, the play clock, the
//! timeline of actions, fades, black bars and clean-up. Times are in
//! milliseconds; opacity and progress in thousandths; bar heights in
//! thousandths of a pixel.
use vstd::prelude::*;
use crate::mission::cutscene::{
    ActiveCutscene, Cutscene, CutsceneAction, CutsceneDatabase, CutsceneEvent, CutsceneState, CutsceneTimelineEntry,
    FadeColor, FadeState, fade_opacity,
};
use crate::mission::story_data::types::CutsceneId;

verus! {

/// Height of the black bars when shown, in thousandths of a pixel.
pub const LETTERBOX_HEIGHT: u64 = 80_000;

/// How fast the black bars move, in thousandths of a pixel per millisecond.
pub const LETTERBOX_SPEED: u64 = 200;

/// Starts cutscene `cutscene_id` when the database has it: played from its
/// start, with black bars if it uses them and a one-second fade in from
/// black if it fades in. Nothing happens for an unknown cutscene.
pub fn handle_cutscene_start(cutscene_id: CutsceneId, state: &mut CutsceneState, database: &CutsceneDatabase)
    ensures
        !database.cutscenes@.contains_key(cutscene_id) ==> *final(state) == *old(state),
        database.cutscenes@.contains_key(cutscene_id) ==> ({
            let c = database.cutscenes@[cutscene_id];
            &&& final(state).active_cutscene is Some
            &&& fresh_active(final(state).active_cutscene->0, cutscene_id)
            &&& final(state).letterbox_visible == (old(state).letterbox_visible || c.letterbox)
            &&& final(state).fade_state == if c.fade_in_on_start {
                FadeState { active: true, fading_in: true, progress: 0, elapsed: 0, duration: 1000, color: FadeColor { r: 0, g: 0, b: 0 } }
            } else {
                old(state).fade_state
            }
            &&& final(state).letterbox_progress == old(state).letterbox_progress
        }),
{
    let cutscene = match database.get(cutscene_id) {
        Some(c) => c,
        None => {
            return;
        },
    };
    state.active_cutscene = Some(ActiveCutscene::new(cutscene_id));
    if cutscene.letterbox {
        state.letterbox_visible = true;
    }
    if cutscene.fade_in_on_start {
        state.fade_state = FadeState::fade_in(1000, FadeColor::black());
    }
}

/// A cutscene being played from its start.
pub open spec fn fresh_active(a: ActiveCutscene, id: CutsceneId) -> bool {
    &&& a.cutscene_id == id
    &&& a.current_time == 0
    &&& !a.completed
    &&& a.skip_hold_time == 0
    &&& a.executed_indices@.len() == 0
    &&& a.spawned_entities@.len() == 0
    &&& !a.paused
}

/// `n` is `o` with the cutscene being played (if any) marked finished.
pub open spec fn skipped(o: CutsceneState, n: CutsceneState) -> bool {
    if o.active_cutscene is None {
        n == o
    } else {
        n == (CutsceneState {
            active_cutscene: Some(ActiveCutscene { completed: true, ..o.active_cutscene->0 }),
            ..o
        })
    }
}

/// `n` is `o` with the cutscene being played (if any) paused or resumed.
pub open spec fn paused_as(o: CutsceneState, n: CutsceneState, paused: bool) -> bool {
    if o.active_cutscene is None {
        n == o
    } else {
        n == (CutsceneState { active_cutscene: Some(ActiveCutscene { paused, ..o.active_cutscene->0 }), ..o })
    }
}

/// Marks the cutscene being played as finished (it is cleaned up once any
/// fade is over).
pub fn handle_cutscene_skip(state: &mut CutsceneState)
    ensures
        skipped(*old(state), *final(state)),
{
    if let Some(active) = &mut state.active_cutscene {
        active.completed = true;
    }
}

/// Pauses or resumes the cutscene being played.
pub fn set_cutscene_paused(state: &mut CutsceneState, paused: bool)
    ensures
        paused_as(*old(state), *final(state), paused),
{
    if let Some(active) = &mut state.active_cutscene {
        active.paused = paused;
    }
}

/// Handles one cutscene request: start, skip, pause or resume. Reports
/// (completion, actions) change nothing.
pub fn cutscene_event_handler(event: &CutsceneEvent, state: &mut CutsceneState, database: &CutsceneDatabase)
    ensures
        match *event {
            CutsceneEvent::Start(id) => {
                &&& !database.cutscenes@.contains_key(id) ==> *final(state) == *old(state)
                &&& database.cutscenes@.contains_key(id) ==> final(state).active_cutscene is Some && fresh_active(
                    final(state).active_cutscene->0,
                    id,
                )
            },
            CutsceneEvent::Skip => skipped(*old(state), *final(state)),
            CutsceneEvent::Pause => paused_as(*old(state), *final(state), true),
            CutsceneEvent::Resume => paused_as(*old(state), *final(state), false),
            _ => *final(state) == *old(state),
        },
{
    match event {
        CutsceneEvent::Start(id) => handle_cutscene_start(*id, state, database),
        CutsceneEvent::Skip => handle_cutscene_skip(state),
        CutsceneEvent::Pause => set_cutscene_paused(state, true),
        CutsceneEvent::Resume => set_cutscene_paused(state, false),
        CutsceneEvent::Completed(_) | CutsceneEvent::ExecuteAction(_) => {},
    }
}

/// Advances the cutscene being played (unless it is finished or paused, or
/// unknown to the database) by `delta`. Reaching its length finishes it,
/// starts a half-second fade out to black if it fades out, and reports its
/// completion.
pub fn cutscene_playback_system(state: &mut CutsceneState, database: &CutsceneDatabase, delta: u64) -> (r: Option<
    CutsceneEvent,
>)
    requires
        old(state).active_cutscene is Some ==> old(state).active_cutscene->0.current_time + delta <= u64::MAX,
    ensures
        ({
            let a = old(state).active_cutscene;
            if a is None || a->0.completed || a->0.paused || !database.cutscenes@.contains_key(a->0.cutscene_id) {
                r is None && *final(state) == *old(state)
            } else {
                let c = database.cutscenes@[a->0.cutscene_id];
                let t = (a->0.current_time + delta) as u64;
                if t >= c.duration {
                    &&& r matches Some(CutsceneEvent::Completed(id)) && id == a->0.cutscene_id
                    &&& *final(state) == (CutsceneState {
                        active_cutscene: Some(ActiveCutscene { current_time: t, completed: true, ..a->0 }),
                        fade_state: if c.fade_out_on_end {
                            FadeState {
                                active: true,
                                fading_in: false,
                                progress: 0,
                                elapsed: 0,
                                duration: 500,
                                color: FadeColor { r: 0, g: 0, b: 0 },
                            }
                        } else {
                            old(state).fade_state
                        },
                        ..*old(state)
                    })
                } else {
                    r is None && *final(state) == (CutsceneState {
                        active_cutscene: Some(ActiveCutscene { current_time: t, ..a->0 }),
                        ..*old(state)
                    })
                }
            }
        }),
{
    let (id, time, fade_out) = match &mut state.active_cutscene {
        Some(active) => {
            if active.completed || active.paused {
                return None;
            }
            let cutscene = match database.get(active.cutscene_id) {
                Some(c) => c,
                None => {
                    return None;
                },
            };
            active.current_time = active.current_time + delta;
            if active.current_time >= cutscene.duration {
                active.completed = true;
                (active.cutscene_id, true, cutscene.fade_out_on_end)
            } else {
                (active.cutscene_id, false, false)
            }
        },
        None => {
            return None;
        },
    };
    if time {
        if fade_out {
            state.fade_state = FadeState::fade_out(500, FadeColor::black());
        }
        Some(CutsceneEvent::Completed(id))
    } else {
        None
    }
}

/// Once the cutscene being played is finished and no fade runs, it is put
/// away with its black bars. Returns the entities it spawned, to remove.
pub fn cutscene_cleanup_system(state: &mut CutsceneState) -> (despawn: Vec<u64>)
    ensures
        ({
            let a = old(state).active_cutscene;
            if a is None || !a->0.completed || old(state).fade_state.active {
                despawn@.len() == 0 && *final(state) == *old(state)
            } else {
                &&& despawn@ == a->0.spawned_entities@
                &&& *final(state) == (CutsceneState { active_cutscene: None, letterbox_visible: false, ..*old(state) })
            }
        }),
{
    let done = match &state.active_cutscene {
        Some(a) => a.completed && !state.fade_state.active,
        None => false,
    };
    if !done {
        return Vec::new();
    }
    let mut taken: Option<ActiveCutscene> = None;
    std::mem::swap(&mut taken, &mut state.active_cutscene);
    state.letterbox_visible = false;
    match taken {
        Some(a) => a.spawned_entities,
        None => Vec::new(),
    }
}

/// The indices among the first `n` timeline entries that are due at `now`
/// and not run yet, in order.
pub open spec fn due_indices(tl: Seq<CutsceneTimelineEntry>, done: Seq<usize>, now: u64, n: int) -> Seq<usize>
    decreases n,
{
    if n <= 0 {
        Seq::empty()
    } else {
        let rest = due_indices(tl, done, now, n - 1);
        if !done.contains((n - 1) as usize) && tl[n - 1].time <= now {
            rest.push((n - 1) as usize)
        } else {
            rest
        }
    }
}

/// The fade after running a list of actions: the last fade in or out wins.
pub open spec fn fade_after(f: FadeState, acts: Seq<CutsceneAction>) -> FadeState
    decreases acts.len(),
{
    if acts.len() == 0 {
        f
    } else {
        match acts.last() {
            CutsceneAction::FadeIn { duration, color } => FadeState {
                active: true,
                fading_in: true,
                progress: 0,
                elapsed: 0,
                duration,
                color,
            },
            CutsceneAction::FadeOut { duration, color } => FadeState {
                active: true,
                fading_in: false,
                progress: 0,
                elapsed: 0,
                duration,
                color,
            },
            _ => fade_after(f, acts.drop_last()),
        }
    }
}

/// Whether the black bars show after running a list of actions: the last
/// show or hide wins.
pub open spec fn letterbox_after(v: bool, acts: Seq<CutsceneAction>) -> bool
    decreases acts.len(),
{
    if acts.len() == 0 {
        v
    } else {
        match acts.last() {
            CutsceneAction::ShowLetterbox => true,
            CutsceneAction::HideLetterbox => false,
            _ => letterbox_after(v, acts.drop_last()),
        }
    }
}

fn index_listed(v: &Vec<usize>, x: usize) -> (b: bool)
    ensures
        b == v@.contains(x),
{
    let mut i: usize = 0;
    while i < v.len()
        invariant
            0 <= i <= v@.len(),
            forall|j: int| 0 <= j < i ==> v@[j] != x,
        decreases v.len() - i,
    {
        if v[i] == x {
            return true;
        }
        i = i + 1;
    }
    false
}

/// Runs the timeline of the cutscene being played: every entry due by the
/// play time and not run yet is marked run, in timeline order. Fades and
/// black bars are applied; the actions run are returned (subtitles and the
/// rest are for the world to show).
pub fn cutscene_timeline_system(state: &mut CutsceneState, database: &CutsceneDatabase) -> (actions: Vec<CutsceneAction>)
    ensures
        ({
            let a = old(state).active_cutscene;
            if a is None || !database.cutscenes@.contains_key(a->0.cutscene_id) {
                actions@.len() == 0 && *final(state) == *old(state)
            } else {
                let tl = database.cutscenes@[a->0.cutscene_id].timeline@;
                let due = due_indices(tl, a->0.executed_indices@, a->0.current_time, tl.len() as int);
                &&& actions@.len() == due.len()
                &&& forall|i: int| 0 <= i < due.len() ==> #[trigger] actions@[i] == tl[due[i] as int].action
                &&& final(state).active_cutscene is Some
                &&& final(state).active_cutscene->0.executed_indices@ == a->0.executed_indices@ + due
                &&& *final(state) == (CutsceneState {
                    active_cutscene: Some(ActiveCutscene {
                        executed_indices: final(state).active_cutscene->0.executed_indices,
                        ..a->0
                    }),
                    fade_state: fade_after(old(state).fade_state, actions@),
                    letterbox_visible: letterbox_after(old(state).letterbox_visible, actions@),
                    ..*old(state)
                })
            }
        }),
{
    let mut actions: Vec<CutsceneAction> = Vec::new();
    let active = match &mut state.active_cutscene {
        Some(a) => a,
        None => {
            return actions;
        },
    };
    let cutscene = match database.get(active.cutscene_id) {
        Some(c) => c,
        None => {
            return actions;
        },
    };
    let ghost a0 = *active;
    let ghost tl = cutscene.timeline@;
    let mut i: usize = 0;
    while i < cutscene.timeline.len()
        invariant
            0 <= i <= tl.len(),
            tl == cutscene.timeline@,
            active.executed_indices@ == a0.executed_indices@ + due_indices(
                tl,
                a0.executed_indices@,
                a0.current_time,
                i as int,
            ),
            *active == (ActiveCutscene { executed_indices: active.executed_indices, ..a0 }),
            actions@.len() == due_indices(tl, a0.executed_indices@, a0.current_time, i as int).len(),
            forall|j: int|
                0 <= j < actions@.len() ==> #[trigger] actions@[j] == tl[due_indices(
                    tl,
                    a0.executed_indices@,
                    a0.current_time,
                    i as int,
                )[j] as int].action,
            forall|j: int|
                0 <= j < due_indices(tl, a0.executed_indices@, a0.current_time, i as int).len() ==> #[trigger] due_indices(
                    tl,
                    a0.executed_indices@,
                    a0.current_time,
                    i as int,
                )[j] < i,
        decreases cutscene.timeline.len() - i,
    {
        let ghost due0 = due_indices(tl, a0.executed_indices@, a0.current_time, i as int);
        let listed = index_listed(&active.executed_indices, i);
        proof {
            assert(listed == a0.executed_indices@.contains(i)) by {
                if a0.executed_indices@.contains(i) {
                    let k = choose|k: int| 0 <= k < a0.executed_indices@.len() && a0.executed_indices@[k] == i;
                    assert(active.executed_indices@[k] == i);
                }
                if active.executed_indices@.contains(i) {
                    let k = choose|k: int| 0 <= k < active.executed_indices@.len() && active.executed_indices@[k] == i;
                    if k >= a0.executed_indices@.len() {
                        assert(due0[k - a0.executed_indices@.len()] < i);
                    }
                }
            }
        }
        if !listed && cutscene.timeline[i].time <= active.current_time {
            active.executed_indices.push(i);
            actions.push(cutscene.timeline[i].action.duplicate());
            proof {
                assert(active.executed_indices@ =~= a0.executed_indices@ + due_indices(
                    tl,
                    a0.executed_indices@,
                    a0.current_time,
                    i + 1,
                ));
            }
        }
        i = i + 1;
    }
    let ghost acts = actions@;
    let ghost s1 = *state;
    let ghost f0 = state.fade_state;
    let ghost l0 = state.letterbox_visible;
    let mut k: usize = 0;
    while k < actions.len()
        invariant
            0 <= k <= acts.len(),
            acts == actions@,
            *state == (CutsceneState { fade_state: state.fade_state, letterbox_visible: state.letterbox_visible, ..s1 }),
            state.fade_state == fade_after(f0, acts.take(k as int)),
            state.letterbox_visible == letterbox_after(l0, acts.take(k as int)),
        decreases actions.len() - k,
    {
        proof {
            assert(acts.take(k + 1).drop_last() =~= acts.take(k as int));
            assert(acts.take(k + 1).last() == acts[k as int]);
        }
        match &actions[k] {
            CutsceneAction::FadeIn { duration, color } => {
                state.fade_state = FadeState::fade_in(*duration, *color);
            },
            CutsceneAction::FadeOut { duration, color } => {
                state.fade_state = FadeState::fade_out(*duration, *color);
            },
            CutsceneAction::ShowLetterbox => {
                state.letterbox_visible = true;
            },
            CutsceneAction::HideLetterbox => {
                state.letterbox_visible = false;
            },
            _ => {},
        }
        k = k + 1;
    }
    proof {
        assert(acts.take(acts.len() as int) =~= acts);
    }
    actions
}

/// The fade after `delta` more time: a fade with a length advances by its
/// share of it (one without length completes at once); a complete fade
/// stops.
pub open spec fn fade_ticked(f: FadeState, delta: u64) -> FadeState {
    if !f.active {
        f
    } else {
        let elapsed = if f.duration > 0 { (f.elapsed + delta) as u64 } else { f.elapsed };
        let progress = if f.duration > 0 {
            let q = elapsed * 1000 / f.duration as int;
            if q > 1000 { 1000u32 } else { q as u32 }
        } else {
            1000u32
        };
        FadeState { elapsed, progress, active: progress < 1000, ..f }
    }
}

/// Runs the screen fade by `delta`. Returns the overlay colour and its
/// opacity when the overlay shows (its opacity is above zero).
pub fn cutscene_fade_system(state: &mut CutsceneState, delta: u64) -> (overlay: Option<(FadeColor, u32)>)
    requires
        old(state).fade_state.elapsed + delta <= u64::MAX,
    ensures
        *final(state) == (CutsceneState { fade_state: fade_ticked(old(state).fade_state, delta), ..*old(state) }),
        fade_opacity(final(state).fade_state) > 0 ==> overlay == Some(
            (final(state).fade_state.color, fade_opacity(final(state).fade_state) as u32),
        ),
        fade_opacity(final(state).fade_state) <= 0 ==> overlay is None,
{
    let fade = &mut state.fade_state;
    if !fade.active {
        return None;
    }
    if fade.duration > 0 {
        fade.elapsed = fade.elapsed + delta;
        let q = fade.elapsed as u128 * 1000 / fade.duration as u128;
        fade.progress = if q > 1000 { 1000 } else { q as u32 };
    } else {
        fade.progress = 1000;
    }
    if fade.progress >= 1000 {
        fade.progress = 1000;
        fade.active = false;
    }
    let opacity = fade.current_opacity();
    if opacity > 0 {
        Some((fade.color, opacity))
    } else {
        None
    }
}

/// The black bars' height after `delta`: they move toward their full height
/// when shown and toward none when hidden, at a fixed speed, without
/// passing the target.
pub open spec fn letterbox_height(current: u64, visible: bool, delta: u64) -> u64 {
    let target = if visible { LETTERBOX_HEIGHT } else { 0 };
    let step = LETTERBOX_SPEED * delta;
    if current < target {
        if current + step > target { target } else { (current + step) as u64 }
    } else if current > target {
        if current - step < target { target } else { (current - step) as u64 }
    } else {
        current
    }
}

/// Moves the black bars (height in thousandths of a pixel) for `delta`; they
/// show while their height is above zero.
pub fn cutscene_letterbox_system(state: &CutsceneState, current_height: u64, delta: u64) -> (h: u64)
    ensures
        h == letterbox_height(current_height, state.letterbox_visible, delta),
{
    let target: u64 = if state.letterbox_visible { LETTERBOX_HEIGHT } else { 0 };
    let step: u128 = 200u128 * delta as u128;
    if current_height < target {
        if current_height as u128 + step > target as u128 {
            target
        } else {
            (current_height as u128 + step) as u64
        }
    } else if current_height > target {
        if (current_height as u128) < target as u128 + step {
            target
        } else {
            (current_height as u128 - step) as u64
        }
    } else {
        current_height
    }
}

/// What the skip key did.
#[derive(Clone, Copy, Debug, PartialEq, Eq, Structural)]
pub struct SkipStep {
    /// Whether the skip prompt should show, when that changes.
    pub prompt_visible: Option<bool>,
    /// Whether the cutscene is to be skipped.
    pub skip: bool,
}

/// Holding the skip key on a skippable cutscene long enough asks for a
/// skip; letting go resets the hold. The prompt hides with no cutscene and
/// shows for a skippable one.
pub fn cutscene_skip_system(state: &mut CutsceneState, database: &CutsceneDatabase, skip_held: bool, delta: u64) -> (s: SkipStep)
    requires
        old(state).active_cutscene is Some ==> old(state).active_cutscene->0.skip_hold_time + delta <= u64::MAX,
    ensures
        ({
            let a = old(state).active_cutscene;
            if a is None {
                s == (SkipStep { prompt_visible: Some(false), skip: false }) && *final(state) == *old(state)
            } else if !database.cutscenes@.contains_key(a->0.cutscene_id) {
                s == (SkipStep { prompt_visible: None, skip: false }) && *final(state) == *old(state)
            } else {
                let c = database.cutscenes@[a->0.cutscene_id];
                let hold = if c.skippable && skip_held { (a->0.skip_hold_time + delta) as u64 } else { 0u64 };
                &&& s.prompt_visible == if c.skippable { Some(true) } else { None::<bool> }
                &&& s.skip == (c.skippable && skip_held && hold >= c.skip_hold_time)
                &&& *final(state) == (CutsceneState {
                    active_cutscene: Some(ActiveCutscene { skip_hold_time: hold, ..a->0 }),
                    ..*old(state)
                })
            }
        }),
{
    let active = match &mut state.active_cutscene {
        Some(a) => a,
        None => {
            return SkipStep { prompt_visible: Some(false), skip: false };
        },
    };
    let cutscene = match database.get(active.cutscene_id) {
        Some(c) => c,
        None => {
            return SkipStep { prompt_visible: None, skip: false };
        },
    };
    let prompt_visible = if cutscene.skippable { Some(true) } else { None };
    let mut skip = false;
    if cutscene.skippable && skip_held {
        active.skip_hold_time = active.skip_hold_time + delta;
        if active.skip_hold_time >= cutscene.skip_hold_time {
            skip = true;
        }
    } else {
        active.skip_hold_time = 0;
    }
    SkipStep { prompt_visible, skip }
}

/// The request that starts a cutscene.
pub fn start_cutscene(cutscene_id: CutsceneId) -> (e: CutsceneEvent)
    ensures
        e matches CutsceneEvent::Start(id) && id == cutscene_id,
{
    CutsceneEvent::Start(cutscene_id)
}

/// Whether a cutscene is being played.
pub fn is_cutscene_active(state: &CutsceneState) -> (b: bool)
    ensures
        b == state.active_cutscene is Some,
{
    state.active_cutscene.is_some()
}

/// How far the cutscene being played is, in thousandths: none without a
/// cutscene (or for an unknown one), all of it for one without length.
pub fn get_cutscene_progress(state: &CutsceneState, database: &CutsceneDatabase) -> (p: u32)
    ensures
        ({
            let a = state.active_cutscene;
            if a is None || !database.cutscenes@.contains_key(a->0.cutscene_id) {
                p == 0
            } else {
                let c = database.cutscenes@[a->0.cutscene_id];
                if c.duration > 0 {
                    p == (if a->0.current_time * 1000 / c.duration as int > 1000 {
                        1000
                    } else {
                        a->0.current_time * 1000 / c.duration as int
                    })
                } else {
                    p == 1000
                }
            }
        }),
{
    let active = match &state.active_cutscene {
        Some(a) => a,
        None => {
            return 0;
        },
    };
    let cutscene = match database.get(active.cutscene_id) {
        Some(c) => c,
        None => {
            return 0;
        },
    };
    if cutscene.duration > 0 {
        let q = active.current_time as u128 * 1000 / cutscene.duration as u128;
        if q > 1000 { 1000 } else { q as u32 }
    } else {
        1000
    }
}


/// The due indices are below `n`, increasing, and none was run before.
proof fn due_indices_fresh(tl: Seq<CutsceneTimelineEntry>, done: Seq<usize>, now: u64, n: int)
    requires
        n <= usize::MAX + 1,
    ensures
        forall|j: int| 0 <= j < due_indices(tl, done, now, n).len() ==> #[trigger] due_indices(tl, done, now, n)[j] < n
            && !done.contains(due_indices(tl, done, now, n)[j]),
        forall|a: int, b: int|
            0 <= a < b < due_indices(tl, done, now, n).len() ==> #[trigger] due_indices(tl, done, now, n)[a]
                < #[trigger] due_indices(tl, done, now, n)[b],
    decreases n,
{
    if n > 0 {
        due_indices_fresh(tl, done, now, n - 1);
        let r = due_indices(tl, done, now, n - 1);
        if !done.contains((n - 1) as usize) && tl[n - 1].time <= now {
            let d = r.push((n - 1) as usize);
            assert(due_indices(tl, done, now, n) == d);
            assert forall|j: int| 0 <= j < d.len() implies d[j] < n && !done.contains(d[j]) by {
                if j < r.len() {
                    assert(d[j] == r[j]);
                }
            }
            assert forall|a: int, b: int| 0 <= a < b < d.len() implies d[a] < d[b] by {
                assert(d[a] == r[a]);
                if b < r.len() {
                    assert(d[b] == r[b]);
                }
            }
        }
    }
}

/// Each timeline entry runs at most once: when no entry was listed as run
/// twice, none is after a timeline step either.
pub proof fn timeline_runs_each_entry_once(tl: Seq<CutsceneTimelineEntry>, done: Seq<usize>, now: u64)
    requires
        done.no_duplicates(),
        tl.len() <= usize::MAX,
    ensures
        (done + due_indices(tl, done, now, tl.len() as int)).no_duplicates(),
{
    let due = due_indices(tl, done, now, tl.len() as int);
    due_indices_fresh(tl, done, now, tl.len() as int);
    let all = done + due;
    assert forall|a: int, b: int| 0 <= a < all.len() && 0 <= b < all.len() && a != b implies all[a] != all[b] by {
        if a < done.len() && b >= done.len() {
            assert(all[b] == due[b - done.len()]);
            assert(!done.contains(due[b - done.len()]));
            assert(all[a] == done[a]);
        } else if b < done.len() && a >= done.len() {
            assert(all[a] == due[a - done.len()]);
            assert(!done.contains(due[a - done.len()]));
            assert(all[b] == done[b]);
        } else if a >= done.len() && b >= done.len() {
            if a < b {
                assert(due[a - done.len()] < due[b - done.len()]);
            } else {
                assert(due[b - done.len()] < due[a - done.len()]);
            }
        }
    }
}

/// The black bars never grow past their full height.
pub proof fn letterbox_stays_in_range(current: u64, visible: bool, delta: u64)
    requires
        current <= LETTERBOX_HEIGHT,
    ensures
        letterbox_height(current, visible, delta) <= LETTERBOX_HEIGHT,
        visible && delta >= LETTERBOX_HEIGHT / LETTERBOX_SPEED ==> letterbox_height(current, visible, delta)
            == LETTERBOX_HEIGHT,
        !visible && delta >= LETTERBOX_HEIGHT / LETTERBOX_SPEED ==> letterbox_height(current, visible, delta) == 0,
{
}

/// A running fade with a length ends once its length has passed, fully
/// done; before that it stays on.
pub proof fn fade_ends_on_time(f: FadeState, delta: u64)
    requires
        f.active,
        f.duration > 0,
        f.elapsed + delta <= u64::MAX,
    ensures
        f.elapsed + delta >= f.duration ==> !fade_ticked(f, delta).active && fade_ticked(f, delta).progress == 1000,
        f.elapsed + delta < f.duration ==> fade_ticked(f, delta).active && fade_ticked(f, delta).progress < 1000,
{
    let e = f.elapsed + delta;
    let d = f.duration as int;
    if e >= d {
        assert(e * 1000 / d >= 1000) by (nonlinear_arith)
            requires
                e >= d,
                d > 0,
        ;
    } else {
        assert(e * 1000 / d < 1000) by (nonlinear_arith)
            requires
                0 <= e < d,
                d > 0,
        ;
    }
}

} // verus!
