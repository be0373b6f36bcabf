//! Cutscenes: camera keyframes, a timeline of actions, fades and the
//! cutscene database. Times are in milliseconds, positions in centimetres,
//! fields of view in hundredths of a degree, fade progress and volumes in
//! thousandths.
use vstd::prelude::*;
use std::collections::HashMap;
use vstd::multiset::Multiset;
use crate::mission::story_data::types::{CutsceneId, NpcId, Position};

verus! {

broadcast use vstd::std_specs::hash::group_hash_axioms;

/// How the camera moves between two keyframes.
#[derive(Clone, Copy, Debug, PartialEq, Eq, Structural)]
pub enum EasingType {
    Linear,
    EaseIn,
    EaseOut,
    EaseInOut,
    EaseInQuad,
    EaseOutQuad,
    EaseInOutQuad,
    EaseInCubic,
    EaseOutCubic,
    EaseInOutCubic,
    EaseInExpo,
    EaseOutExpo,
    EaseInOutExpo,
}

impl Default for EasingType {
    fn default() -> (e: EasingType)
        ensures
            e == EasingType::Linear,
    {
        EasingType::Linear
    }
}

/// A fade colour.
#[derive(Clone, Copy, Debug, PartialEq, Eq, Structural)]
pub struct FadeColor {
    pub r: u8,
    pub g: u8,
    pub b: u8,
}

impl FadeColor {
    /// Black.
    pub fn black() -> (c: FadeColor)
        ensures
            c == (FadeColor { r: 0, g: 0, b: 0 }),
    {
        FadeColor { r: 0, g: 0, b: 0 }
    }

    /// White.
    pub fn white() -> (c: FadeColor)
        ensures
            c == (FadeColor { r: 255, g: 255, b: 255 }),
    {
        FadeColor { r: 255, g: 255, b: 255 }
    }
}

/// Something with a time on the cutscene clock.
pub trait Timed {
    spec fn at(&self) -> u64;

    fn time_of(&self) -> (t: u64)
        ensures
            t == self.at(),
    ;
}

/// A camera keyframe.
#[derive(Clone, Copy, Debug, PartialEq, Eq, Structural)]
pub struct CameraKeyframe {
    pub time: u64,
    pub position: Position,
    /// The point the camera looks at.
    pub target: Position,
    pub fov: u32,
    /// How the camera eases into this keyframe.
    pub easing: EasingType,
}

impl Timed for CameraKeyframe {
    open spec fn at(&self) -> u64 {
        self.time
    }

    fn time_of(&self) -> (t: u64) {
        self.time
    }
}

impl Default for CameraKeyframe {
    /// At the start, five metres up and ten back, looking at the origin
    /// with a sixty-degree view.
    fn default() -> (k: CameraKeyframe)
        ensures
            k == (CameraKeyframe {
                time: 0,
                position: Position { x: 0, y: 500, z: 1000 },
                target: Position { x: 0, y: 0, z: 0 },
                fov: 6000,
                easing: EasingType::EaseInOut,
            }),
    {
        CameraKeyframe {
            time: 0,
            position: Position { x: 0, y: 500, z: 1000 },
            target: Position { x: 0, y: 0, z: 0 },
            fov: 6000,
            easing: EasingType::EaseInOut,
        }
    }
}

impl CameraKeyframe {
    /// A keyframe at `time`, with the default view and easing.
    pub fn new(time: u64, position: Position, target: Position) -> (k: CameraKeyframe)
        ensures
            k == (CameraKeyframe { time, position, target, fov: 6000, easing: EasingType::EaseInOut }),
    {
        CameraKeyframe { time, position, target, fov: 6000, easing: EasingType::EaseInOut }
    }

    /// Sets the field of view.
    pub fn with_fov(self, fov: u32) -> (k: CameraKeyframe)
        ensures
            k == (CameraKeyframe { fov, ..self }),
    {
        let mut k = self;
        k.fov = fov;
        k
    }

    /// Sets the easing.
    pub fn with_easing(self, easing: EasingType) -> (k: CameraKeyframe)
        ensures
            k == (CameraKeyframe { easing, ..self }),
    {
        let mut k = self;
        k.easing = easing;
        k
    }
}

/// What a cutscene does at a point of its timeline.
#[derive(Clone, Debug)]
pub enum CutsceneAction {
    /// A placeholder.
    NoAction,
    PlayDialogue { dialogue_id: u32 },
    ShowSubtitle { text: String, duration: u64 },
    HideSubtitle,
    /// Volume in thousandths.
    PlaySound { sound: String, volume: u32 },
    PlayMusic { music: String, fade_in: u64 },
    StopMusic { fade_out: u64 },
    /// Rotation in thousandths of a radian.
    SpawnNpc { npc_id: NpcId, position: Position, rotation: i64 },
    DespawnNpc { npc_id: NpcId },
    /// Speed in centimetres per second.
    MoveNpc { npc_id: NpcId, target: Position, speed: u32 },
    NpcAnimation { npc_id: NpcId, animation: String },
    NpcLookAt { npc_id: NpcId, target: Position },
    FadeIn { duration: u64, color: FadeColor },
    FadeOut { duration: u64, color: FadeColor },
    Wait { duration: u64 },
    SetWeather { weather: String, transition: u64 },
    /// Time of day in hundredths of an hour.
    SetTime { hour: u32, transition: u64 },
    SpawnEffect { effect: String, position: Position },
    /// Intensity in thousandths.
    CameraShake { intensity: u32, duration: u64 },
    PauseGameTime,
    ResumeGameTime,
    ShowLetterbox,
    HideLetterbox,
    SetStoryFlag { flag: String, value: bool },
    UnlockMission { mission_id: u32 },
    CustomEvent { event_name: String, data: String },
}

impl CutsceneAction {
    /// An equal copy.
    pub fn duplicate(&self) -> (a: CutsceneAction)
        ensures
            a == *self,
    {
        match self {
            CutsceneAction::NoAction => CutsceneAction::NoAction,
            CutsceneAction::PlayDialogue { dialogue_id } => CutsceneAction::PlayDialogue { dialogue_id: *dialogue_id },
            CutsceneAction::ShowSubtitle { text, duration } => CutsceneAction::ShowSubtitle {
                text: text.clone(),
                duration: *duration,
            },
            CutsceneAction::HideSubtitle => CutsceneAction::HideSubtitle,
            CutsceneAction::PlaySound { sound, volume } => CutsceneAction::PlaySound {
                sound: sound.clone(),
                volume: *volume,
            },
            CutsceneAction::PlayMusic { music, fade_in } => CutsceneAction::PlayMusic {
                music: music.clone(),
                fade_in: *fade_in,
            },
            CutsceneAction::StopMusic { fade_out } => CutsceneAction::StopMusic { fade_out: *fade_out },
            CutsceneAction::SpawnNpc { npc_id, position, rotation } => CutsceneAction::SpawnNpc {
                npc_id: *npc_id,
                position: *position,
                rotation: *rotation,
            },
            CutsceneAction::DespawnNpc { npc_id } => CutsceneAction::DespawnNpc { npc_id: *npc_id },
            CutsceneAction::MoveNpc { npc_id, target, speed } => CutsceneAction::MoveNpc {
                npc_id: *npc_id,
                target: *target,
                speed: *speed,
            },
            CutsceneAction::NpcAnimation { npc_id, animation } => CutsceneAction::NpcAnimation {
                npc_id: *npc_id,
                animation: animation.clone(),
            },
            CutsceneAction::NpcLookAt { npc_id, target } => CutsceneAction::NpcLookAt {
                npc_id: *npc_id,
                target: *target,
            },
            CutsceneAction::FadeIn { duration, color } => CutsceneAction::FadeIn {
                duration: *duration,
                color: *color,
            },
            CutsceneAction::FadeOut { duration, color } => CutsceneAction::FadeOut {
                duration: *duration,
                color: *color,
            },
            CutsceneAction::Wait { duration } => CutsceneAction::Wait { duration: *duration },
            CutsceneAction::SetWeather { weather, transition } => CutsceneAction::SetWeather {
                weather: weather.clone(),
                transition: *transition,
            },
            CutsceneAction::SetTime { hour, transition } => CutsceneAction::SetTime {
                hour: *hour,
                transition: *transition,
            },
            CutsceneAction::SpawnEffect { effect, position } => CutsceneAction::SpawnEffect {
                effect: effect.clone(),
                position: *position,
            },
            CutsceneAction::CameraShake { intensity, duration } => CutsceneAction::CameraShake {
                intensity: *intensity,
                duration: *duration,
            },
            CutsceneAction::PauseGameTime => CutsceneAction::PauseGameTime,
            CutsceneAction::ResumeGameTime => CutsceneAction::ResumeGameTime,
            CutsceneAction::ShowLetterbox => CutsceneAction::ShowLetterbox,
            CutsceneAction::HideLetterbox => CutsceneAction::HideLetterbox,
            CutsceneAction::SetStoryFlag { flag, value } => CutsceneAction::SetStoryFlag {
                flag: flag.clone(),
                value: *value,
            },
            CutsceneAction::UnlockMission { mission_id } => CutsceneAction::UnlockMission { mission_id: *mission_id },
            CutsceneAction::CustomEvent { event_name, data } => CutsceneAction::CustomEvent {
                event_name: event_name.clone(),
                data: data.clone(),
            },
        }
    }
}

/// An action at a point of a cutscene's timeline.
#[derive(Clone, Debug)]
pub struct CutsceneTimelineEntry {
    pub time: u64,
    pub action: CutsceneAction,
    pub executed: bool,
}

impl Timed for CutsceneTimelineEntry {
    open spec fn at(&self) -> u64 {
        self.time
    }

    fn time_of(&self) -> (t: u64) {
        self.time
    }
}

impl CutsceneTimelineEntry {
    /// An entry not run yet.
    pub fn new(time: u64, action: CutsceneAction) -> (e: CutsceneTimelineEntry)
        ensures
            e == (CutsceneTimelineEntry { time, action, executed: false }),
    {
        CutsceneTimelineEntry { time, action, executed: false }
    }
}

/// The items are in time order.
pub open spec fn time_sorted<T: Timed>(s: Seq<T>) -> bool {
    forall|i: int, j: int| 0 <= i < j < s.len() ==> (#[trigger] s[i]).at() <= (#[trigger] s[j]).at()
}

/// `s` with `x` placed at position `p`.
pub open spec fn placed<T>(s: Seq<T>, p: int, x: T) -> Seq<T> {
    s.take(p).push(x) + s.skip(p)
}

/// Position `p` splits a time-ordered list at time `t`: items before it
/// are at or before `t`, items from it on are after.
pub open spec fn splits_at<T: Timed>(s: Seq<T>, p: int, t: u64) -> bool {
    &&& 0 <= p <= s.len()
    &&& forall|i: int| 0 <= i < p ==> (#[trigger] s[i]).at() <= t
    &&& forall|i: int| p <= i < s.len() ==> (#[trigger] s[i]).at() > t
}

/// The items of `s` at time `t`, in their order in `s`.
pub open spec fn items_at<T: Timed>(s: Seq<T>, t: u64) -> Seq<T> {
    s.filter(|y: T| y.at() == t)
}

/// The items at a time of two lists joined are those of the first, then
/// those of the second.
proof fn lemma_items_at_add<T: Timed>(a: Seq<T>, b: Seq<T>, t: u64)
    ensures
        items_at(a + b, t) == items_at(a, t) + items_at(b, t),
{
    Seq::filter_distributes_over_add(a, b, |y: T| y.at() == t);
}

/// A one-item list has its item at its own time and nothing at others.
proof fn lemma_items_at_single<T: Timed>(x: T, t: u64)
    ensures
        items_at(seq![x], t) == (if x.at() == t { seq![x] } else { Seq::<T>::empty() }),
{
    reveal_with_fuel(Seq::filter, 2);
    assert(seq![x].drop_last() =~= Seq::<T>::empty());
}

/// A list with no item at time `t` has nothing at `t`.
proof fn lemma_items_at_none<T: Timed>(s: Seq<T>, t: u64)
    requires
        forall|i: int| 0 <= i < s.len() ==> (#[trigger] s[i]).at() != t,
    ensures
        items_at(s, t) == Seq::<T>::empty(),
    decreases s.len(),
{
    reveal(Seq::filter);
    if s.len() > 0 {
        lemma_items_at_none(s.drop_last(), t);
    }
}

/// Placing `x` where it splits a list at its time adds `x` after the
/// items at its time and changes nothing at other times.
proof fn lemma_items_at_placed<T: Timed>(s: Seq<T>, p: int, x: T, t: u64)
    requires
        splits_at(s, p, x.at()),
    ensures
        items_at(placed(s, p, x), t) == items_at(s + seq![x], t),
{
    let a = s.take(p);
    let b = s.skip(p);
    assert(s =~= a + b);
    assert(a.push(x) =~= a + seq![x]);
    lemma_items_at_add(a + seq![x], b, t);
    lemma_items_at_add(a, seq![x], t);
    lemma_items_at_add(a, b, t);
    lemma_items_at_add(s, seq![x], t);
    lemma_items_at_single(x, t);
    if x.at() == t {
        assert forall|i: int| 0 <= i < b.len() implies (#[trigger] b[i]).at() != t by {
            assert(b[i] == s[p + i]);
        }
        lemma_items_at_none(b, t);
        assert(items_at(a, t) + seq![x] + Seq::<T>::empty() =~= items_at(a, t) + Seq::<T>::empty() + seq![x]);
    } else {
        assert(items_at(a, t) + Seq::<T>::empty() + items_at(b, t) =~= items_at(a, t) + items_at(b, t)
            + Seq::<T>::empty());
    }
}

/// Inserts `x` into a time-ordered list after every item at or before its
/// time (as a stable sort of the list with `x` appended would).
fn insert_by_time<T: Timed>(v: &mut Vec<T>, x: T) -> (p: usize)
    requires
        time_sorted(old(v)@),
    ensures
        splits_at(old(v)@, p as int, x.at()),
        final(v)@ == placed(old(v)@, p as int, x),
        time_sorted(final(v)@),
        final(v)@.to_multiset() == old(v)@.to_multiset().insert(x),
{
    let t = x.time_of();
    let mut p: usize = 0;
    while p < v.len() && v[p].time_of() <= t
        invariant
            0 <= p <= v@.len(),
            v@ == old(v)@,
            time_sorted(v@),
            forall|i: int| 0 <= i < p ==> (#[trigger] v@[i]).at() <= t,
            t == x.at(),
        decreases v.len() - p,
    {
        p = p + 1;
    }
    proof {
        assert forall|i: int| p <= i < v@.len() implies (#[trigger] v@[i]).at() > t by {
            assert(v@[p as int].at() > t);
            assert(v@[p as int].at() <= v@[i].at());
        }
    }
    let ghost s = v@;
    v.insert(p, x);
    proof {
        assert(v@ =~= placed(s, p as int, x));
        assert forall|i: int, j: int| 0 <= i < j < v@.len() implies (#[trigger] v@[i]).at() <= (#[trigger] v@[j]).at() by {
            if j < p {
                assert(v@[i] == s[i] && v@[j] == s[j]);
            } else if j == p {
                assert(v@[i] == s[i]);
            } else if i < p {
                assert(v@[i] == s[i] && v@[j] == s[j - 1]);
            } else if i == p {
                assert(v@[j] == s[j - 1]);
            } else {
                assert(v@[i] == s[i - 1] && v@[j] == s[j - 1]);
            }
        }
        vstd::seq_lib::lemma_seq_union_to_multiset_commutative(s.take(p as int).push(x), s.skip(p as int));
        assert(s =~= s.take(p as int) + s.skip(p as int));
        vstd::seq_lib::lemma_multiset_commutative(s.take(p as int), s.skip(p as int));
        vstd::seq_lib::lemma_multiset_commutative(s.take(p as int).push(x), s.skip(p as int));
        s.take(p as int).to_multiset_ensures();
    }
    p
}

/// Whether a list is in time order.
fn is_time_sorted<T: Timed>(v: &Vec<T>) -> (b: bool)
    ensures
        b == time_sorted(v@),
{
    let mut i: usize = 1;
    if v.len() == 0 {
        return true;
    }
    while i < v.len()
        invariant
            1 <= i <= v@.len(),
            forall|a: int, b: int| 0 <= a < b < i ==> (#[trigger] v@[a]).at() <= (#[trigger] v@[b]).at(),
        decreases v.len() - i,
    {
        if v[i - 1].time_of() > v[i].time_of() {
            return false;
        }
        proof {
            assert forall|a: int, b: int| 0 <= a < b < i + 1 implies (#[trigger] v@[a]).at() <= (#[trigger] v@[b]).at() by {
                if b == i && a < i - 1 {
                    assert(v@[a].at() <= v@[i - 1].at());
                }
            }
        }
        i = i + 1;
    }
    true
}

/// Sorts a list by time (stably, by insertion).
fn sort_by_time<T: Timed>(v: Vec<T>) -> (r: Vec<T>)
    ensures
        time_sorted(r@),
        r@.to_multiset() == v@.to_multiset(),
        forall|t: u64| #[trigger] items_at(r@, t) == items_at(v@, t),
{
    let mut src = v;
    let mut out: Vec<T> = Vec::new();
    let ghost all = src@;
    proof {
        broadcast use vstd::seq_lib::group_to_multiset_ensures, vstd::multiset::group_multiset_axioms;

        vstd::multiset::lemma_multiset_empty_len(out@.to_multiset());
        assert(out@.to_multiset().add(src@.to_multiset()) =~= all.to_multiset());
        assert forall|t: u64| #[trigger] items_at(all, t) == items_at(out@, t) + items_at(src@, t) by {
            lemma_items_at_none(out@, t);
            assert(items_at(out@, t) + items_at(src@, t) =~= items_at(src@, t));
        }
    }
    while src.len() > 0
        invariant
            time_sorted(out@),
            out@.to_multiset().add(src@.to_multiset()) == all.to_multiset(),
            forall|t: u64| #[trigger] items_at(all, t) == items_at(out@, t) + items_at(src@, t),
        decreases src.len(),
    {
        let ghost s0 = src@;
        let x = src.remove(0);
        proof {
            broadcast use vstd::seq_lib::group_to_multiset_ensures, vstd::multiset::group_multiset_axioms;

            assert(s0 =~= seq![x] + src@);
            vstd::seq_lib::lemma_multiset_commutative(seq![x], src@);
            assert(seq![x].to_multiset() =~= Multiset::empty().insert(x)) by {
                let e = Seq::<T>::empty();
                assert(seq![x] =~= e.push(x));
                assert(e.to_multiset().len() == 0);
                vstd::multiset::lemma_multiset_empty_len(e.to_multiset());
                assert(e.push(x).to_multiset() =~= e.to_multiset().insert(x));
            }
        }
        let ghost o0 = out@;
        let p = insert_by_time(&mut out, x);
        proof {
            broadcast use vstd::seq_lib::group_to_multiset_ensures, vstd::multiset::group_multiset_axioms;

            assert(out@.to_multiset().add(src@.to_multiset()) =~= all.to_multiset());
            assert forall|t: u64| #[trigger] items_at(all, t) == items_at(out@, t) + items_at(src@, t) by {
                lemma_items_at_placed(o0, p as int, x, t);
                lemma_items_at_add(o0, seq![x], t);
                lemma_items_at_add(seq![x], src@, t);
                assert(items_at(o0, t) + items_at(seq![x], t) + items_at(src@, t) =~= items_at(o0, t) + (
                items_at(seq![x], t) + items_at(src@, t)));
            }
        }
    }
    proof {
        broadcast use vstd::seq_lib::group_to_multiset_ensures, vstd::multiset::group_multiset_axioms;

        vstd::multiset::lemma_multiset_empty_len(src@.to_multiset());
        assert(out@.to_multiset() =~= all.to_multiset());
        assert forall|t: u64| #[trigger] items_at(out@, t) == items_at(all, t) by {
            lemma_items_at_none(src@, t);
            assert(items_at(out@, t) + items_at(src@, t) =~= items_at(out@, t));
        }
    }
    out
}

/// A cutscene.
#[derive(Clone, Debug)]
pub struct Cutscene {
    pub id: CutsceneId,
    /// Name shown in the editor.
    pub name: String,
    pub duration: u64,
    pub camera_keyframes: Vec<CameraKeyframe>,
    pub timeline: Vec<CutsceneTimelineEntry>,
    pub skippable: bool,
    /// How long the skip key must be held.
    pub skip_hold_time: u64,
    /// Whether black bars show.
    pub letterbox: bool,
    pub fade_in_on_start: bool,
    pub fade_out_on_end: bool,
}

/// `c` is a fresh cutscene with these id and name: ten seconds long, no
/// keyframes or actions, skippable after holding the key for a second and
/// a half, with black bars and fades in and out.
pub open spec fn fresh_cutscene(c: Cutscene, id: CutsceneId, name: Seq<char>) -> bool {
    &&& c.id == id
    &&& c.name@ == name
    &&& c.duration == 10_000
    &&& c.camera_keyframes@.len() == 0
    &&& c.timeline@.len() == 0
    &&& c.skippable
    &&& c.skip_hold_time == 1500
    &&& c.letterbox
    &&& c.fade_in_on_start
    &&& c.fade_out_on_end
}

impl Default for Cutscene {
    fn default() -> (c: Cutscene)
        ensures
            fresh_cutscene(c, 0, Seq::empty()),
    {
        Cutscene {
            id: 0,
            name: String::new(),
            duration: 10_000,
            camera_keyframes: Vec::new(),
            timeline: Vec::new(),
            skippable: true,
            skip_hold_time: 1500,
            letterbox: true,
            fade_in_on_start: true,
            fade_out_on_end: true,
        }
    }
}

/// The result of adding an item to a list kept in time order: placed after
/// the items at or before its time when the list was in order; otherwise
/// the whole list is put in order. Either way the order is stable: items
/// at the same time keep the order they had, with the new one last.
pub open spec fn added_in_order<T: Timed>(before: Seq<T>, after: Seq<T>, x: T) -> bool {
    &&& time_sorted(after)
    &&& after.to_multiset() == before.to_multiset().insert(x)
    &&& forall|t: u64| #[trigger] items_at(after, t) == items_at(before.push(x), t)
    &&& time_sorted(before) ==> exists|p: int| splits_at(before, p, x.at()) && after == placed(before, p, x)
}

impl Cutscene {
    /// A fresh cutscene (see `fresh_cutscene`).
    pub fn new(id: CutsceneId, name: &str) -> (c: Cutscene)
        ensures
            fresh_cutscene(c, id, name@),
    {
        Cutscene {
            id,
            name: name.to_owned(),
            duration: 10_000,
            camera_keyframes: Vec::new(),
            timeline: Vec::new(),
            skippable: true,
            skip_hold_time: 1500,
            letterbox: true,
            fade_in_on_start: true,
            fade_out_on_end: true,
        }
    }

    /// Sets the length.
    pub fn with_duration(self, duration: u64) -> (c: Cutscene)
        ensures
            c == (Cutscene { duration, ..self }),
    {
        let mut c = self;
        c.duration = duration;
        c
    }

    /// Adds a camera keyframe, keeping the keyframes in time order.
    pub fn add_keyframe(&mut self, keyframe: CameraKeyframe)
        ensures
            added_in_order(old(self).camera_keyframes@, final(self).camera_keyframes@, keyframe),
            *final(self) == (Cutscene { camera_keyframes: final(self).camera_keyframes, ..*old(self) }),
    {
        if is_time_sorted(&self.camera_keyframes) {
            let ghost s = self.camera_keyframes@;
            let p = insert_by_time(&mut self.camera_keyframes, keyframe);
            proof {
                assert(s + seq![keyframe] =~= s.push(keyframe));
                assert forall|t: u64|
                    #[trigger] items_at(self.camera_keyframes@, t) == items_at(s.push(keyframe), t) by {
                    lemma_items_at_placed(s, p as int, keyframe, t);
                }
            }
        } else {
            let mut v: Vec<CameraKeyframe> = Vec::new();
            std::mem::swap(&mut v, &mut self.camera_keyframes);
            let ghost v0 = v@;
            v.push(keyframe);
            proof {
                vstd::seq_lib::lemma_multiset_commutative(v0, seq![keyframe]);
                assert(v@ =~= v0 + seq![keyframe]);
                assert(v@ =~= v0.push(keyframe));
                broadcast use vstd::seq_lib::group_to_multiset_ensures, vstd::multiset::group_multiset_axioms;

                assert(seq![keyframe].to_multiset() =~= Multiset::empty().insert(keyframe)) by {
                    assert(seq![keyframe] =~= Seq::<CameraKeyframe>::empty().push(keyframe));
                    vstd::multiset::lemma_multiset_empty_len(Seq::<CameraKeyframe>::empty().to_multiset());
                }
            }
            self.camera_keyframes = sort_by_time(v);
        }
    }

    /// Adds a camera keyframe (see `add_keyframe`).
    pub fn with_keyframe(self, keyframe: CameraKeyframe) -> (c: Cutscene)
        ensures
            added_in_order(self.camera_keyframes@, c.camera_keyframes@, keyframe),
            c == (Cutscene { camera_keyframes: c.camera_keyframes, ..self }),
    {
        let mut c = self;
        c.add_keyframe(keyframe);
        c
    }

    /// Adds an action at `time`, keeping the timeline in time order.
    pub fn add_action(&mut self, time: u64, action: CutsceneAction)
        ensures
            added_in_order(
                old(self).timeline@,
                final(self).timeline@,
                CutsceneTimelineEntry { time, action, executed: false },
            ),
            *final(self) == (Cutscene { timeline: final(self).timeline, ..*old(self) }),
    {
        let entry = CutsceneTimelineEntry::new(time, action);
        let ghost e = entry;
        if is_time_sorted(&self.timeline) {
            let ghost s = self.timeline@;
            let p = insert_by_time(&mut self.timeline, entry);
            proof {
                assert(s + seq![e] =~= s.push(e));
                assert forall|t: u64| #[trigger] items_at(self.timeline@, t) == items_at(s.push(e), t) by {
                    lemma_items_at_placed(s, p as int, e, t);
                }
            }
        } else {
            let mut v: Vec<CutsceneTimelineEntry> = Vec::new();
            std::mem::swap(&mut v, &mut self.timeline);
            let ghost v0 = v@;
            v.push(entry);
            proof {
                vstd::seq_lib::lemma_multiset_commutative(v0, seq![e]);
                assert(v@ =~= v0 + seq![e]);
                assert(v@ =~= v0.push(e));
                broadcast use vstd::seq_lib::group_to_multiset_ensures, vstd::multiset::group_multiset_axioms;

                assert(seq![e].to_multiset() =~= Multiset::empty().insert(e)) by {
                    assert(seq![e] =~= Seq::<CutsceneTimelineEntry>::empty().push(e));
                    vstd::multiset::lemma_multiset_empty_len(Seq::<CutsceneTimelineEntry>::empty().to_multiset());
                }
            }
            self.timeline = sort_by_time(v);
        }
    }

    /// Adds an action (see `add_action`).
    pub fn with_action(self, time: u64, action: CutsceneAction) -> (c: Cutscene)
        ensures
            added_in_order(self.timeline@, c.timeline@, CutsceneTimelineEntry { time, action, executed: false }),
            c == (Cutscene { timeline: c.timeline, ..self }),
    {
        let mut c = self;
        c.add_action(time, action);
        c
    }

    /// Sets whether the cutscene can be skipped.
    pub fn with_skippable(self, skippable: bool) -> (c: Cutscene)
        ensures
            c == (Cutscene { skippable, ..self }),
    {
        let mut c = self;
        c.skippable = skippable;
        c
    }

    /// Sets whether black bars show.
    pub fn with_letterbox(self, letterbox: bool) -> (c: Cutscene)
        ensures
            c == (Cutscene { letterbox, ..self }),
    {
        let mut c = self;
        c.letterbox = letterbox;
        c
    }
}


/// Where the camera is at a time of a cutscene.
#[derive(Clone, Copy, Debug, PartialEq, Eq, Structural)]
pub enum CameraSample {
    /// At keyframe `index`.
    At(usize),
    /// Between two keyframes, `progress` thousandths of the way from the
    /// first (before the second keyframe's easing is applied).
    Between { from: usize, to: usize, progress: u32 },
}

/// Scanning the keyframes from `i` on, with `prev` the last one at or
/// before `time` so far: the last keyframe at or before `time` before the
/// first one after it, and that first one after (0 when there is none).
pub open spec fn keyframe_scan(s: Seq<CameraKeyframe>, time: u64, i: int, prev: int) -> (int, int)
    decreases s.len() - i,
{
    if i >= s.len() || i < 0 {
        (prev, 0)
    } else if s[i].time <= time {
        keyframe_scan(s, time, i + 1, i)
    } else {
        (prev, i)
    }
}

/// The camera at `time` over keyframes `s`: none without keyframes; the
/// last keyframe from its time on; the first keyframe up to its time;
/// otherwise between the keyframes around `time`, the share of the
/// segment passed in thousandths (all of it for an empty segment).
pub open spec fn camera_sample(s: Seq<CameraKeyframe>, time: u64) -> Option<CameraSample> {
    if s.len() == 0 {
        None
    } else if time >= s.last().time {
        Some(CameraSample::At((s.len() - 1) as usize))
    } else if time <= s[0].time {
        Some(CameraSample::At(0))
    } else {
        let (prev, next) = keyframe_scan(s, time, 0, 0);
        let seg = s[next].time - s[prev].time;
        let progress = if seg > 0 {
            let q = (time - s[prev].time) * 1000 / seg;
            if q > 1000 { 1000 } else { q }
        } else {
            1000
        };
        Some(CameraSample::Between { from: prev as usize, to: next as usize, progress: progress as u32 })
    }
}

impl Cutscene {
    /// Where the camera is at `time` (see `camera_sample`); the eased
    /// position, target and field of view are drawn from it.
    pub fn interpolate_camera(&self, time: u64) -> (r: Option<CameraSample>)
        ensures
            r == camera_sample(self.camera_keyframes@, time),
    {
        let k = &self.camera_keyframes;
        if k.len() == 0 {
            return None;
        }
        let mut prev: usize = 0;
        let mut next: usize = 0;
        let mut i: usize = 0;
        while i < k.len()
            invariant_except_break
                0 <= i <= k@.len(),
                next == 0,
                keyframe_scan(k@, time, 0, 0) == keyframe_scan(k@, time, i as int, prev as int),
            invariant
                k@.len() > 0,
                prev < k@.len(),
                next < k@.len(),
                prev == 0 || k@[prev as int].time <= time,
            ensures
                keyframe_scan(k@, time, 0, 0) == (prev as int, next as int),
            decreases k.len() - i,
        {
            if k[i].time <= time {
                prev = i;
                i = i + 1;
            } else {
                next = i;
                break;
            }
        }
        let last = k.len() - 1;
        if time >= k[last].time {
            return Some(CameraSample::At(last));
        }
        if time <= k[0].time {
            return Some(CameraSample::At(0));
        }
        let progress: u32 = if k[next].time > k[prev].time {
            let seg = (k[next].time - k[prev].time) as u128;
            let q = ((time - k[prev].time) as u128 * 1000) / seg;
            if q > 1000 { 1000 } else { q as u32 }
        } else {
            1000
        };
        Some(CameraSample::Between { from: prev, to: next, progress })
    }
}

/// A cutscene being played.
#[derive(Clone, Debug)]
pub struct ActiveCutscene {
    pub cutscene_id: CutsceneId,
    /// Play time so far.
    pub current_time: u64,
    pub completed: bool,
    /// How long the skip key has been held.
    pub skip_hold_time: u64,
    /// Timeline entries already run.
    pub executed_indices: Vec<usize>,
    /// Entities spawned for the cutscene, to clean up at the end.
    pub spawned_entities: Vec<u64>,
    pub paused: bool,
}

impl ActiveCutscene {
    /// The cutscene from its start.
    pub fn new(cutscene_id: CutsceneId) -> (a: ActiveCutscene)
        ensures
            a.cutscene_id == cutscene_id,
            a.current_time == 0,
            !a.completed,
            a.skip_hold_time == 0,
            a.executed_indices@.len() == 0,
            a.spawned_entities@.len() == 0,
            !a.paused,
    {
        ActiveCutscene {
            cutscene_id,
            current_time: 0,
            completed: false,
            skip_hold_time: 0,
            executed_indices: Vec::new(),
            spawned_entities: Vec::new(),
            paused: false,
        }
    }
}

/// A fade of the screen to or from a colour.
#[derive(Clone, Copy, Debug, PartialEq, Eq, Structural)]
pub struct FadeState {
    pub active: bool,
    /// Fading in (from the colour to the picture) rather than out.
    pub fading_in: bool,
    /// Share done, in thousandths.
    pub progress: u32,
    /// Time spent fading.
    pub elapsed: u64,
    pub duration: u64,
    pub color: FadeColor,
}

impl Default for FadeState {
    /// No fade.
    fn default() -> (f: FadeState)
        ensures
            f == (FadeState {
                active: false,
                fading_in: false,
                progress: 0,
                elapsed: 0,
                duration: 0,
                color: FadeColor { r: 255, g: 255, b: 255 },
            }),
    {
        FadeState { active: false, fading_in: false, progress: 0, elapsed: 0, duration: 0, color: FadeColor::white() }
    }
}

/// The opacity of the fade colour over the picture, in thousandths.
pub open spec fn fade_opacity(f: FadeState) -> int {
    if !f.active {
        0
    } else if f.fading_in {
        1000 - f.progress
    } else {
        f.progress as int
    }
}

impl FadeState {
    /// A fade in from `color` lasting `duration`.
    pub fn fade_in(duration: u64, color: FadeColor) -> (f: FadeState)
        ensures
            f == (FadeState { active: true, fading_in: true, progress: 0, elapsed: 0, duration, color }),
    {
        FadeState { active: true, fading_in: true, progress: 0, elapsed: 0, duration, color }
    }

    /// A fade out to `color` lasting `duration`.
    pub fn fade_out(duration: u64, color: FadeColor) -> (f: FadeState)
        ensures
            f == (FadeState { active: true, fading_in: false, progress: 0, elapsed: 0, duration, color }),
    {
        FadeState { active: true, fading_in: false, progress: 0, elapsed: 0, duration, color }
    }

    /// The colour's opacity, in thousandths: none when no fade runs; a fade
    /// in starts opaque and clears, a fade out starts clear and darkens.
    pub fn current_opacity(&self) -> (o: u32)
        requires
            self.progress <= 1000,
        ensures
            o == fade_opacity(*self),
    {
        if !self.active {
            return 0;
        }
        if self.fading_in {
            1000 - self.progress
        } else {
            self.progress
        }
    }
}

/// The cutscene system's state.
#[derive(Debug)]
pub struct CutsceneState {
    pub active_cutscene: Option<ActiveCutscene>,
    pub fade_state: FadeState,
    /// Whether the black bars should show.
    pub letterbox_visible: bool,
    /// Black bar animation, in thousandths.
    pub letterbox_progress: u32,
}

impl Default for CutsceneState {
    fn default() -> (s: CutsceneState)
        ensures
            s.active_cutscene is None,
            s.fade_state == FadeState::spec_default(),
            !s.letterbox_visible,
            s.letterbox_progress == 0,
    {
        CutsceneState {
            active_cutscene: None,
            fade_state: FadeState::default(),
            letterbox_visible: false,
            letterbox_progress: 0,
        }
    }
}

impl FadeState {
    /// No fade (what `default` gives).
    pub open spec fn spec_default() -> FadeState {
        FadeState {
            active: false,
            fading_in: false,
            progress: 0,
            elapsed: 0,
            duration: 0,
            color: FadeColor { r: 255, g: 255, b: 255 },
        }
    }
}

/// A request to, or a report of, the cutscene system.
#[derive(Debug)]
pub enum CutsceneEvent {
    Start(CutsceneId),
    Skip,
    Pause,
    Resume,
    Completed(CutsceneId),
    ExecuteAction(CutsceneAction),
}

/// Every cutscene by id.
#[derive(Debug)]
pub struct CutsceneDatabase {
    pub cutscenes: HashMap<CutsceneId, Cutscene>,
}

impl Default for CutsceneDatabase {
    fn default() -> (d: CutsceneDatabase)
        ensures
            d.cutscenes@ == Map::<CutsceneId, Cutscene>::empty(),
    {
        CutsceneDatabase { cutscenes: HashMap::new() }
    }
}

impl CutsceneDatabase {
    /// Registers a cutscene (replacing one with the same id).
    pub fn register(&mut self, cutscene: Cutscene)
        ensures
            final(self).cutscenes@ == old(self).cutscenes@.insert(cutscene.id, cutscene),
    {
        self.cutscenes.insert(cutscene.id, cutscene);
    }

    /// The cutscene with this id.
    pub fn get(&self, id: CutsceneId) -> (r: Option<&Cutscene>)
        ensures
            self.cutscenes@.contains_key(id) ==> r == Some(&self.cutscenes@[id]),
            !self.cutscenes@.contains_key(id) ==> r is None,
    {
        self.cutscenes.get(&id)
    }
}


/// Adding an item later than every item of a time-ordered list appends it.
proof fn lemma_added_last<T: Timed>(before: Seq<T>, after: Seq<T>, x: T)
    requires
        added_in_order(before, after, x),
        time_sorted(before),
        forall|i: int| 0 <= i < before.len() ==> (#[trigger] before[i]).at() < x.at(),
    ensures
        after == before.push(x),
{
    let p = choose|p: int| splits_at(before, p, x.at()) && after == placed(before, p, x);
    if p < before.len() {
        assert(before[p].at() > x.at());
    }
    assert(placed(before, p, x) =~= before.push(x));
}

/// The camera keyframes of the opening cutscene (times in milliseconds,
/// places in centimetres, field of view in hundredths of a degree).
pub open spec fn opening_keyframes() -> Seq<CameraKeyframe> {
    seq![
        CameraKeyframe {
            time: 0,
            position: Position { x: 10_000, y: 5_000, z: 10_000 },
            target: Position { x: 0, y: 0, z: 0 },
            fov: 4500,
            easing: EasingType::EaseInOut,
        },
        CameraKeyframe {
            time: 5_000,
            position: Position { x: 5_000, y: 2_000, z: 5_000 },
            target: Position { x: 0, y: 500, z: 0 },
            fov: 6000,
            easing: EasingType::EaseInOut,
        },
        CameraKeyframe {
            time: 10_000,
            position: Position { x: 1_000, y: 500, z: 1_000 },
            target: Position { x: 0, y: 200, z: 0 },
            fov: 7500,
            easing: EasingType::EaseOutCubic,
        },
        CameraKeyframe {
            time: 15_000,
            position: Position { x: 500, y: 300, z: 500 },
            target: Position { x: 0, y: 150, z: 0 },
            fov: 6000,
            easing: EasingType::EaseInOutCubic,
        },
    ]
}

/// Entry `i` of the opening cutscene's timeline, not yet run.
pub open spec fn opening_entry(e: CutsceneTimelineEntry, i: int) -> bool {
    let black = FadeColor { r: 0, g: 0, b: 0 };
    &&& !e.executed
    &&& if i == 0 {
        e.time == 0 && e.action == CutsceneAction::FadeIn { duration: 2_000, color: black }
    } else if i == 1 {
        e.time == 500 && match e.action {
            CutsceneAction::PlayMusic { music, fade_in } => music@ == "bgm_intro.ogg"@ && fade_in == 1_000,
            _ => false,
        }
    } else if i == 2 {
        e.time == 2_000 && match e.action {
            CutsceneAction::ShowSubtitle { text, duration } => text@ == "熱帶島嶼「天堂灣」"@ && duration == 3_000,
            _ => false,
        }
    } else if i == 3 {
        e.time == 5_000 && e.action == CutsceneAction::HideSubtitle
    } else if i == 4 {
        e.time == 6_000 && e.action == CutsceneAction::SpawnNpc {
            npc_id: 100,
            position: Position { x: 0, y: 0, z: 0 },
            rotation: 0,
        }
    } else if i == 5 {
        e.time == 7_000 && match e.action {
            CutsceneAction::ShowSubtitle { text, duration } => text@ == "這裡，機會與危險並存..."@ && duration == 3_000,
            _ => false,
        }
    } else if i == 6 {
        e.time == 10_000 && e.action == CutsceneAction::HideSubtitle
    } else if i == 7 {
        e.time == 12_000 && match e.action {
            CutsceneAction::ShowSubtitle { text, duration } => text@ == "而你，將改變一切"@ && duration == 2_500,
            _ => false,
        }
    } else {
        e.time == 14_500 && e.action == CutsceneAction::FadeOut { duration: 500, color: black }
    }
}

/// The opening cutscene of chapter one: fifteen seconds, four camera
/// keyframes and nine timeline actions in time order, skippable, with black
/// bars.
pub fn create_sample_cutscene() -> (c: Cutscene)
    ensures
        c.id == 1,
        c.name@ == "第一章開場"@,
        c.duration == 15_000,
        c.skippable,
        c.skip_hold_time == 1500,
        c.letterbox,
        c.fade_in_on_start,
        c.fade_out_on_end,
        c.camera_keyframes@ == opening_keyframes(),
        c.timeline@.len() == 9,
        forall|i: int| 0 <= i < 9 ==> opening_entry(#[trigger] c.timeline@[i], i),
        time_sorted(c.camera_keyframes@),
        time_sorted(c.timeline@),
{
    let c0 = Cutscene::new(1, "第一章開場").with_duration(15_000);
    let c1 = c0.with_keyframe(
        CameraKeyframe::new(0, Position { x: 10_000, y: 5_000, z: 10_000 }, Position { x: 0, y: 0, z: 0 }).with_fov(4500),
    );
    let c2 = c1.with_keyframe(
        CameraKeyframe::new(5_000, Position { x: 5_000, y: 2_000, z: 5_000 }, Position { x: 0, y: 500, z: 0 }).with_fov(
            6000,
        ).with_easing(EasingType::EaseInOut),
    );
    let c3 = c2.with_keyframe(
        CameraKeyframe::new(10_000, Position { x: 1_000, y: 500, z: 1_000 }, Position { x: 0, y: 200, z: 0 }).with_fov(
            7500,
        ).with_easing(EasingType::EaseOutCubic),
    );
    let c4 = c3.with_keyframe(
        CameraKeyframe::new(15_000, Position { x: 500, y: 300, z: 500 }, Position { x: 0, y: 150, z: 0 }).with_fov(
            6000,
        ).with_easing(EasingType::EaseInOutCubic),
    );
    let t0 = c4.with_action(0, CutsceneAction::FadeIn { duration: 2_000, color: FadeColor::black() });
    let t1 = t0.with_action(500, CutsceneAction::PlayMusic { music: "bgm_intro.ogg".to_owned(), fade_in: 1_000 });
    let t2 = t1.with_action(2_000, CutsceneAction::ShowSubtitle { text: "熱帶島嶼「天堂灣」".to_owned(), duration: 3_000 });
    let t3 = t2.with_action(5_000, CutsceneAction::HideSubtitle);
    let t4 = t3.with_action(
        6_000,
        CutsceneAction::SpawnNpc { npc_id: 100, position: Position { x: 0, y: 0, z: 0 }, rotation: 0 },
    );
    let t5 = t4.with_action(
        7_000,
        CutsceneAction::ShowSubtitle { text: "這裡，機會與危險並存...".to_owned(), duration: 3_000 },
    );
    let t6 = t5.with_action(10_000, CutsceneAction::HideSubtitle);
    let t7 = t6.with_action(12_000, CutsceneAction::ShowSubtitle { text: "而你，將改變一切".to_owned(), duration: 2_500 });
    let t8 = t7.with_action(14_500, CutsceneAction::FadeOut { duration: 500, color: FadeColor::black() });
    let c = t8.with_skippable(true).with_letterbox(true);
    proof {
        lemma_added_last(c0.camera_keyframes@, c1.camera_keyframes@, c1.camera_keyframes@.last());
        assert(c1.camera_keyframes@ == c0.camera_keyframes@.push(opening_keyframes()[0]));
        lemma_added_last(c1.camera_keyframes@, c2.camera_keyframes@, opening_keyframes()[1]);
        lemma_added_last(c2.camera_keyframes@, c3.camera_keyframes@, opening_keyframes()[2]);
        lemma_added_last(c3.camera_keyframes@, c4.camera_keyframes@, opening_keyframes()[3]);
        assert(c.camera_keyframes@ =~= opening_keyframes());
        let tl = c.timeline@;
        lemma_added_last(c4.timeline@, t0.timeline@, t0.timeline@.last());
        lemma_added_last(t0.timeline@, t1.timeline@, t1.timeline@.last());
        lemma_added_last(t1.timeline@, t2.timeline@, t2.timeline@.last());
        lemma_added_last(t2.timeline@, t3.timeline@, t3.timeline@.last());
        lemma_added_last(t3.timeline@, t4.timeline@, t4.timeline@.last());
        lemma_added_last(t4.timeline@, t5.timeline@, t5.timeline@.last());
        lemma_added_last(t5.timeline@, t6.timeline@, t6.timeline@.last());
        lemma_added_last(t6.timeline@, t7.timeline@, t7.timeline@.last());
        lemma_added_last(t7.timeline@, t8.timeline@, t8.timeline@.last());
        assert(tl.len() == 9);
        assert(opening_entry(tl[0], 0));
        assert(opening_entry(tl[1], 1));
        assert(opening_entry(tl[2], 2));
        assert(opening_entry(tl[3], 3));
        assert(opening_entry(tl[4], 4));
        assert(opening_entry(tl[5], 5));
        assert(opening_entry(tl[6], 6));
        assert(opening_entry(tl[7], 7));
        assert(opening_entry(tl[8], 8));
    }
    c
}

} // verus!
