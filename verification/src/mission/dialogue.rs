//! Dialogue data: speakers, nodes with choices, conditions and
//! consequences, dialogue trees and the dialogue database.
//!
//! Times are in milliseconds, typing speeds in characters per second.
use vstd::prelude::*;
use std::collections::{HashMap, VecDeque};
use crate::mission::story_data::types::{DialogueId, NpcId, Position, StoryMissionId};

verus! {

broadcast use vstd::std_specs::hash::group_hash_axioms;

/// Who speaks a line.
#[derive(Clone, Copy, Debug, PartialEq, Eq, Structural)]
pub enum DialogueSpeaker {
    Player,
    Npc(NpcId),
    Narrator,
    /// Radio or phone.
    Radio,
    System,
}

impl Default for DialogueSpeaker {
    fn default() -> (s: DialogueSpeaker)
        ensures
            s == DialogueSpeaker::Narrator,
    {
        DialogueSpeaker::Narrator
    }
}

/// The speaker's mood (picks the portrait).
#[derive(Clone, Copy, Debug, PartialEq, Eq, Structural)]
pub enum SpeakerEmotion {
    Neutral,
    Happy,
    Angry,
    Sad,
    Surprised,
    Afraid,
    Disgusted,
    Smirk,
    Serious,
    Thinking,
}

impl Default for SpeakerEmotion {
    fn default() -> (e: SpeakerEmotion)
        ensures
            e == SpeakerEmotion::Neutral,
    {
        SpeakerEmotion::Neutral
    }
}

impl SpeakerEmotion {
    /// Suffix of the portrait file for this mood.
    pub fn portrait_suffix(&self) -> (s: &'static str)
        ensures
            s@ == match *self {
                SpeakerEmotion::Neutral => ""@,
                SpeakerEmotion::Happy => "_happy"@,
                SpeakerEmotion::Angry => "_angry"@,
                SpeakerEmotion::Sad => "_sad"@,
                SpeakerEmotion::Surprised => "_surprised"@,
                SpeakerEmotion::Afraid => "_afraid"@,
                SpeakerEmotion::Disgusted => "_disgusted"@,
                SpeakerEmotion::Smirk => "_smirk"@,
                SpeakerEmotion::Serious => "_serious"@,
                SpeakerEmotion::Thinking => "_thinking"@,
            },
    {
        match self {
            SpeakerEmotion::Neutral => "",
            SpeakerEmotion::Happy => "_happy",
            SpeakerEmotion::Angry => "_angry",
            SpeakerEmotion::Sad => "_sad",
            SpeakerEmotion::Surprised => "_surprised",
            SpeakerEmotion::Afraid => "_afraid",
            SpeakerEmotion::Disgusted => "_disgusted",
            SpeakerEmotion::Smirk => "_smirk",
            SpeakerEmotion::Serious => "_serious",
            SpeakerEmotion::Thinking => "_thinking",
        }
    }
}

/// What choosing an option (or finishing a dialogue) does.
#[derive(Clone, Debug)]
pub enum DialogueConsequence {
    SetStoryFlag { flag: String, value: bool },
    ChangeRelationship { npc_id: NpcId, delta: i32 },
    GiveMoney(i32),
    GiveItem { item_id: String, count: u32 },
    UnlockMission(StoryMissionId),
    /// Fails the current mission.
    FailMission,
    /// Left to the mission system.
    SkipPhase,
    /// Left to the combat system.
    TriggerCombat,
    /// Left to the sound system.
    PlaySound(String),
    /// Left to custom systems.
    CustomEvent(String),
}

/// What an option needs to be offered.
#[derive(Debug)]
pub enum DialogueCondition {
    HasFlag(String),
    NotHasFlag(String),
    HasMoney(i32),
    HasItem { item_id: String, count: u32 },
    MissionCompleted(StoryMissionId),
    RelationshipMin { npc_id: NpcId, min: i32 },
    /// Every condition holds.
    All(Vec<DialogueCondition>),
    /// Some condition holds.
    Any(Vec<DialogueCondition>),
}

/// An option offered to the player.
#[derive(Debug)]
pub struct DialogueChoice {
    pub text: String,
    /// Node to go to.
    pub next_node: Option<u32>,
    pub condition: Option<DialogueCondition>,
    pub consequences: Vec<DialogueConsequence>,
    /// Whether the option ends the dialogue.
    pub ends_dialogue: bool,
}

impl DialogueChoice {
    /// An option that goes to `next_node`.
    pub fn simple(text: &str, next_node: u32) -> (c: DialogueChoice)
        ensures
            c.text@ == text@,
            c.next_node == Some(next_node),
            c.condition is None,
            c.consequences@.len() == 0,
            !c.ends_dialogue,
    {
        DialogueChoice {
            text: text.to_owned(),
            next_node: Some(next_node),
            condition: None,
            consequences: Vec::new(),
            ends_dialogue: false,
        }
    }

    /// An option that ends the dialogue.
    pub fn end(text: &str) -> (c: DialogueChoice)
        ensures
            c.text@ == text@,
            c.next_node is None,
            c.condition is None,
            c.consequences@.len() == 0,
            c.ends_dialogue,
    {
        DialogueChoice {
            text: text.to_owned(),
            next_node: None,
            condition: None,
            consequences: Vec::new(),
            ends_dialogue: true,
        }
    }

    /// Adds a condition.
    pub fn with_condition(self, condition: DialogueCondition) -> (c: DialogueChoice)
        ensures
            c == (DialogueChoice { condition: Some(condition), ..self }),
    {
        let mut c = self;
        c.condition = Some(condition);
        c
    }

    /// Adds a consequence.
    pub fn with_consequence(self, consequence: DialogueConsequence) -> (c: DialogueChoice)
        ensures
            c == (DialogueChoice { consequences: c.consequences, ..self }),
            c.consequences@ == self.consequences@.push(consequence),
    {
        let mut c = self;
        c.consequences.push(consequence);
        c
    }
}

/// Something a node does when it is shown.
#[derive(Clone, Debug)]
pub enum DialogueAction {
    /// Nothing special.
    Nothing,
    /// Moves the camera to a point for a while (milliseconds).
    CameraFocus { target: Position, duration: u32 },
    PlayAnimation { target: NpcId, animation: String },
    SpawnEffect { effect: String, position: Position },
    PlaySound(String),
    /// Waits (milliseconds).
    Wait(u32),
    SetWeather(String),
    /// Sets the time of day (hundredths of an hour).
    SetTime(u32),
}

/// One line of a dialogue.
#[derive(Debug)]
pub struct DialogueNode {
    /// Id, unique in its tree.
    pub id: u32,
    pub speaker: DialogueSpeaker,
    /// Name shown instead of the speaker's.
    pub speaker_name: Option<String>,
    /// The line (may hold variables such as `{player_name}`).
    pub text: String,
    pub emotion: SpeakerEmotion,
    pub portrait_override: Option<String>,
    pub voice_clip: Option<String>,
    /// Characters per second (0 shows the line at once).
    pub typing_speed: u32,
    /// Options (none: the dialogue moves on by itself).
    pub choices: Vec<DialogueChoice>,
    /// Next node when there are no options.
    pub next_node: Option<u32>,
    /// Wait before moving on by itself, in milliseconds.
    pub auto_advance_delay: u32,
    pub actions: Vec<DialogueAction>,
}

/// A plain node: the given id, speaker and line, neutral, typed at 30
/// characters per second, with nothing else.
pub open spec fn plain_node(n: DialogueNode, id: u32, speaker: DialogueSpeaker, text: Seq<char>) -> bool {
    &&& n.id == id
    &&& n.speaker == speaker
    &&& n.speaker_name is None
    &&& n.text@ == text
    &&& n.emotion == SpeakerEmotion::Neutral
    &&& n.portrait_override is None
    &&& n.voice_clip is None
    &&& n.typing_speed == 30
    &&& n.choices@.len() == 0
    &&& n.next_node is None
    &&& n.auto_advance_delay == 0
    &&& n.actions@.len() == 0
}

impl Default for DialogueNode {
    fn default() -> (n: DialogueNode)
        ensures
            plain_node(n, 0, DialogueSpeaker::Narrator, Seq::empty()),
    {
        let n = DialogueNode::new(0, DialogueSpeaker::Narrator, "");
        proof {
            reveal_strlit("");
            assert(n.text@ =~= Seq::<char>::empty());
        }
        n
    }
}

impl DialogueNode {
    /// A plain line.
    pub fn new(id: u32, speaker: DialogueSpeaker, text: &str) -> (n: DialogueNode)
        ensures
            plain_node(n, id, speaker, text@),
    {
        DialogueNode {
            id,
            speaker,
            speaker_name: None,
            text: text.to_owned(),
            emotion: SpeakerEmotion::Neutral,
            portrait_override: None,
            voice_clip: None,
            typing_speed: 30,
            choices: Vec::new(),
            next_node: None,
            auto_advance_delay: 0,
            actions: Vec::new(),
        }
    }

    /// Sets the mood.
    pub fn with_emotion(self, emotion: SpeakerEmotion) -> (n: DialogueNode)
        ensures
            n == (DialogueNode { emotion, ..self }),
    {
        let mut n = self;
        n.emotion = emotion;
        n
    }

    /// Sets the next node.
    pub fn with_next_node(self, next_node: u32) -> (n: DialogueNode)
        ensures
            n == (DialogueNode { next_node: Some(next_node), ..self }),
    {
        let mut n = self;
        n.next_node = Some(next_node);
        n
    }

    /// Adds an option.
    pub fn with_choice(self, choice: DialogueChoice) -> (n: DialogueNode)
        ensures
            n == (DialogueNode { choices: n.choices, ..self }),
            n.choices@ == self.choices@.push(choice),
    {
        let mut n = self;
        n.choices.push(choice);
        n
    }

    /// Adds an action.
    pub fn with_action(self, action: DialogueAction) -> (n: DialogueNode)
        ensures
            n == (DialogueNode { actions: n.actions, ..self }),
            n.actions@ == self.actions@.push(action),
    {
        let mut n = self;
        n.actions.push(action);
        n
    }

    /// Sets the typing speed.
    pub fn with_typing_speed(self, speed: u32) -> (n: DialogueNode)
        ensures
            n == (DialogueNode { typing_speed: speed, ..self }),
    {
        let mut n = self;
        n.typing_speed = speed;
        n
    }

    /// Sets the wait before moving on by itself (milliseconds).
    pub fn with_auto_advance(self, delay: u32) -> (n: DialogueNode)
        ensures
            n == (DialogueNode { auto_advance_delay: delay, ..self }),
    {
        let mut n = self;
        n.auto_advance_delay = delay;
        n
    }
}

/// A whole dialogue: its nodes by id.
pub struct DialogueTree {
    pub id: DialogueId,
    /// Name (for editors).
    pub name: String,
    pub start_node: u32,
    pub nodes: HashMap<u32, DialogueNode>,
    /// What finishing the dialogue does.
    pub on_complete: Vec<DialogueConsequence>,
}

/// A jump lands on a node of the table (or ends the dialogue).
pub open spec fn lands(nodes: Map<u32, DialogueNode>, target: Option<u32>) -> bool {
    target matches Some(n) ==> nodes.contains_key(n)
}

/// Every node of a table is filed under its own id, and every jump from
/// it (its next node and its options) lands on a node of the table.
pub open spec fn nodes_closed(nodes: Map<u32, DialogueNode>) -> bool {
    forall|k: u32| #[trigger] nodes.contains_key(k) ==> {
        &&& nodes[k].id == k
        &&& lands(nodes, nodes[k].next_node)
        &&& forall|j: int| 0 <= j < nodes[k].choices@.len() ==> lands(nodes, (#[trigger] nodes[k].choices@[j]).next_node)
    }
}

/// A dialogue that starts on one of its nodes and never jumps outside.
pub open spec fn tree_closed(t: &DialogueTree) -> bool {
    &&& t.nodes@.contains_key(t.start_node)
    &&& nodes_closed(t.nodes@)
}

/// A node as the builders write it: the given id, speaker, line, mood and
/// next node, `options` options and `actions` actions, typed at 30
/// characters per second, moving on by itself after `delay` milliseconds,
/// with no name, portrait or voice of its own.
pub open spec fn node_is(
    n: DialogueNode,
    id: u32,
    speaker: DialogueSpeaker,
    text: Seq<char>,
    emotion: SpeakerEmotion,
    next: Option<u32>,
    delay: u32,
    options: int,
    actions: int,
) -> bool {
    &&& n.id == id
    &&& n.speaker == speaker
    &&& n.speaker_name is None
    &&& n.text@ == text
    &&& n.emotion == emotion
    &&& n.portrait_override is None
    &&& n.voice_clip is None
    &&& n.typing_speed == 30
    &&& n.choices@.len() == options
    &&& n.next_node == next
    &&& n.auto_advance_delay == delay
    &&& n.actions@.len() == actions
}

/// An option with the given text, target and end flag, and
/// `consequences` consequences.
pub open spec fn option_is(c: DialogueChoice, text: Seq<char>, next: Option<u32>, ends: bool, consequences: int) -> bool {
    &&& c.text@ == text
    &&& c.next_node == next
    &&& c.ends_dialogue == ends
    &&& c.consequences@.len() == consequences
}

/// The consequence sets story flag `flag` to `value`.
pub open spec fn sets_flag(c: DialogueConsequence, flag: Seq<char>, value: bool) -> bool {
    match c {
        DialogueConsequence::SetStoryFlag { flag: f, value: v } => f@ == flag && v == value,
        _ => false,
    }
}

/// The option is offered only while story flag `flag` is not set.
pub open spec fn needs_flag_absent(c: DialogueChoice, flag: Seq<char>) -> bool {
    match c.condition {
        Some(DialogueCondition::NotHasFlag(f)) => f@ == flag,
        _ => false,
    }
}

/// The action plays the sound `sound`.
pub open spec fn plays_sound(a: DialogueAction, sound: Seq<char>) -> bool {
    match a {
        DialogueAction::PlaySound(s) => s@ == sound,
        _ => false,
    }
}

/// From node `k`, an end of the dialogue is reached within `fuel` jumps:
/// a node without options ends the dialogue unless it has a next node, and
/// a node with options ends it through an option that ends it, or goes on
/// through an option's next node.
pub open spec fn reaches_end(nodes: Map<u32, DialogueNode>, k: u32, fuel: nat) -> bool
    decreases fuel,
{
    if !nodes.contains_key(k) {
        false
    } else if nodes[k].choices@.len() == 0 {
        match nodes[k].next_node {
            None => true,
            Some(next) => fuel > 0 && reaches_end(nodes, next, (fuel - 1) as nat),
        }
    } else {
        exists|j: int|
            0 <= j < nodes[k].choices@.len() && ((#[trigger] nodes[k].choices@[j]).ends_dialogue || (fuel > 0
                && match nodes[k].choices@[j].next_node {
                Some(next) => reaches_end(nodes, next, (fuel - 1) as nat),
                None => false,
            }))
    }
}

/// Some end of the dialogue can be reached from its start node.
pub open spec fn end_reachable(t: &DialogueTree) -> bool {
    exists|fuel: nat| #[trigger] reaches_end(t.nodes@, t.start_node, fuel)
}

/// Some node of the dialogue offers options.
pub open spec fn has_branch(t: &DialogueTree) -> bool {
    exists|k: u32| #[trigger] t.nodes@.contains_key(k) && t.nodes@[k].choices@.len() > 0
}

/// Some option of the dialogue changes how an NPC feels about the player.
pub open spec fn has_relationship_change(t: &DialogueTree) -> bool {
    exists|k: u32, j: int, c: int|
        #![trigger t.nodes@[k].choices@[j].consequences@[c]]
        {
            &&& t.nodes@.contains_key(k)
            &&& 0 <= j < t.nodes@[k].choices@.len()
            &&& 0 <= c < t.nodes@[k].choices@[j].consequences@.len()
            &&& t.nodes@[k].choices@[j].consequences@[c] is ChangeRelationship
        }
}

/// Some option of the dialogue is offered only above a relationship level.
pub open spec fn has_relationship_gate(t: &DialogueTree) -> bool {
    exists|k: u32, j: int|
        #![trigger t.nodes@[k].choices@[j]]
        t.nodes@.contains_key(k) && 0 <= j < t.nodes@[k].choices@.len()
            && t.nodes@[k].choices@[j].condition matches Some(DialogueCondition::RelationshipMin { .. })
}

impl DialogueTree {
    /// An empty dialogue starting at node 0.
    pub fn new(id: DialogueId, name: &str) -> (t: DialogueTree)
        ensures
            t.id == id,
            t.name@ == name@,
            t.start_node == 0,
            t.nodes@ == Map::<u32, DialogueNode>::empty(),
            t.on_complete@.len() == 0,
    {
        DialogueTree { id, name: name.to_owned(), start_node: 0, nodes: HashMap::new(), on_complete: Vec::new() }
    }

    /// Adds a node under its id (replacing one with the same id).
    pub fn add_node(&mut self, node: DialogueNode)
        ensures
            final(self).nodes@ == old(self).nodes@.insert(node.id, node),
            final(self).id == old(self).id,
            final(self).name == old(self).name,
            final(self).start_node == old(self).start_node,
            final(self).on_complete == old(self).on_complete,
    {
        self.nodes.insert(node.id, node);
    }

    /// The node with this id, if any.
    pub fn get_node(&self, id: u32) -> (r: Option<&DialogueNode>)
        ensures
            self.nodes@.contains_key(id) ==> r == Some(&self.nodes@[id]),
            !self.nodes@.contains_key(id) ==> r is None,
    {
        self.nodes.get(&id)
    }

    /// Sets the start node.
    pub fn with_start_node(self, id: u32) -> (t: DialogueTree)
        ensures
            t.start_node == id,
            t.id == self.id,
            t.name == self.name,
            t.nodes@ == self.nodes@,
            t.on_complete == self.on_complete,
    {
        let mut t = self;
        t.start_node = id;
        t
    }

    /// Adds something to do when the dialogue finishes.
    pub fn on_complete(self, consequence: DialogueConsequence) -> (t: DialogueTree)
        ensures
            t.on_complete@ == self.on_complete@.push(consequence),
            t.id == self.id,
            t.name == self.name,
            t.start_node == self.start_node,
            t.nodes@ == self.nodes@,
    {
        let mut t = self;
        t.on_complete.push(consequence);
        t
    }
}

/// A dialogue being played.
#[derive(Clone, Debug)]
pub struct ActiveDialogue {
    pub dialogue_id: DialogueId,
    pub current_node: u32,
    /// How much of the line is shown, in thousandths.
    pub typing_progress: u32,
    pub typing_complete: bool,
    pub can_skip: bool,
    /// Option picked, if any.
    pub selected_choice: Option<usize>,
    /// Time the dialogue started.
    pub start_time: u64,
    /// Variables to fill in (name, value), each name once.
    pub participants: Vec<(String, String)>,
}

/// Names of a variable list are listed once each.
pub open spec fn participants_wf(p: Seq<(String, String)>) -> bool {
    forall|i: int, j: int| 0 <= i < j < p.len() ==> (#[trigger] p[i]).0@ != (#[trigger] p[j]).0@
}

/// The value of a variable in a list, if any.
pub open spec fn participant_value(p: Seq<(String, String)>, key: Seq<char>) -> Option<Seq<char>> {
    if exists|i: int| 0 <= i < p.len() && (#[trigger] p[i]).0@ == key {
        let i = choose|i: int| 0 <= i < p.len() && (#[trigger] p[i]).0@ == key;
        Some(p[i].1@)
    } else {
        None
    }
}

impl ActiveDialogue {
    /// A dialogue at `start_node`, nothing typed yet, skippable.
    pub fn new(dialogue_id: DialogueId, start_node: u32) -> (a: ActiveDialogue)
        ensures
            a.dialogue_id == dialogue_id,
            a.current_node == start_node,
            a.typing_progress == 0,
            !a.typing_complete,
            a.can_skip,
            a.selected_choice is None,
            a.start_time == 0,
            a.participants@.len() == 0,
    {
        ActiveDialogue {
            dialogue_id,
            current_node: start_node,
            typing_progress: 0,
            typing_complete: false,
            can_skip: true,
            selected_choice: None,
            start_time: 0,
            participants: Vec::new(),
        }
    }

    /// Sets a variable (replacing its value if already set).
    pub fn with_participant(self, key: &str, name: &str) -> (a: ActiveDialogue)
        requires
            participants_wf(self.participants@),
        ensures
            participants_wf(a.participants@),
            participant_value(a.participants@, key@) == Some(name@),
            forall|k: Seq<char>| k != key@ ==> participant_value(a.participants@, k) == participant_value(
                self.participants@,
                k,
            ),
            a == (ActiveDialogue { participants: a.participants, ..self }),
    {
        let mut a = self;
        set_participant(&mut a.participants, key, name);
        a
    }
}

/// Sets a variable in a list (replacing its value if already set).
pub fn set_participant(p: &mut Vec<(String, String)>, key: &str, value: &str)
    requires
        participants_wf(old(p)@),
    ensures
        participants_wf(final(p)@),
        participant_value(final(p)@, key@) == Some(value@),
        forall|k: Seq<char>| k != key@ ==> participant_value(final(p)@, k) == participant_value(old(p)@, k),
{
    let k = key.to_owned();
    let ghost before = p@;
    let mut i: usize = 0;
    while i < p.len()
        invariant
            0 <= i <= p@.len(),
            p@ == before,
            before == old(p)@,
            k@ == key@,
            participants_wf(before),
            forall|j: int| 0 <= j < i ==> (#[trigger] p@[j]).0@ != key@,
        decreases p.len() - i,
    {
        if p[i].0 == k {
            assert(before[i as int].0@ == key@);
            p.set(i, (k, value.to_owned()));
            proof {
                assert(p@[i as int].0@ == key@);
                assert(participants_wf(p@)) by {
                    assert forall|a: int, b: int| 0 <= a < b < p@.len() implies (#[trigger] p@[a]).0@ != (#[trigger] p@[b]).0@ by {
                        if a != i && b != i {
                            assert(p@[a] == before[a] && p@[b] == before[b]);
                        } else if a == i {
                            assert(p@[b] == before[b]);
                            assert(before[a].0@ != before[b].0@);
                        } else {
                            assert(p@[a] == before[a]);
                            assert(before[a].0@ != before[b].0@);
                        }
                    }
                }
                assert forall|kk: Seq<char>| kk != key@ implies participant_value(p@, kk) == participant_value(before, kk) by {
                    if exists|j: int| 0 <= j < before.len() && (#[trigger] before[j]).0@ == kk {
                        let jb = choose|j: int| 0 <= j < before.len() && (#[trigger] before[j]).0@ == kk;
                        assert(p@[jb] == before[jb]);
                        assert(p@[jb].0@ == kk);
                        let jf = choose|j: int| 0 <= j < p@.len() && (#[trigger] p@[j]).0@ == kk;
                        if jf != jb {
                            if jf < jb {
                                assert(p@[jf].0@ != p@[jb].0@);
                            } else {
                                assert(p@[jb].0@ != p@[jf].0@);
                            }
                        }
                    }
                    if exists|j: int| 0 <= j < p@.len() && (#[trigger] p@[j]).0@ == kk {
                        let j = choose|j: int| 0 <= j < p@.len() && (#[trigger] p@[j]).0@ == kk;
                        assert(p@[j] == before[j]);
                        assert(before[j].0@ == kk);
                    }
                }
                let j = choose|j: int| 0 <= j < p@.len() && (#[trigger] p@[j]).0@ == key@;
                if j != i {
                    if j < i {
                        assert(p@[j].0@ != p@[i as int].0@);
                    } else {
                        assert(p@[i as int].0@ != p@[j].0@);
                    }
                }
            }
            return;
        }
        i = i + 1;
    }
    p.push((k, value.to_owned()));
    proof {
        assert(p@[before.len() as int].0@ == key@);
        assert(participants_wf(p@)) by {
            assert forall|a: int, b: int| 0 <= a < b < p@.len() implies (#[trigger] p@[a]).0@ != (#[trigger] p@[b]).0@ by {
                if b < before.len() {
                    assert(p@[a] == before[a] && p@[b] == before[b]);
                } else {
                    assert(p@[a] == before[a]);
                }
            }
        }
        assert forall|kk: Seq<char>| kk != key@ implies participant_value(p@, kk) == participant_value(before, kk) by {
            if exists|j: int| 0 <= j < before.len() && (#[trigger] before[j]).0@ == kk {
                let jb = choose|j: int| 0 <= j < before.len() && (#[trigger] before[j]).0@ == kk;
                assert(p@[jb] == before[jb]);
                assert(p@[jb].0@ == kk);
                let jf = choose|j: int| 0 <= j < p@.len() && (#[trigger] p@[j]).0@ == kk;
                if jf != jb {
                    if jf < jb {
                        assert(p@[jf].0@ != p@[jb].0@);
                    } else {
                        assert(p@[jb].0@ != p@[jf].0@);
                    }
                }
            }
            if exists|j: int| 0 <= j < p@.len() && (#[trigger] p@[j]).0@ == kk {
                let j = choose|j: int| 0 <= j < p@.len() && (#[trigger] p@[j]).0@ == kk;
                assert(j < before.len());
                assert(p@[j] == before[j]);
            }
        }
        let j = choose|j: int| 0 <= j < p@.len() && (#[trigger] p@[j]).0@ == key@;
        assert(j == before.len());
    }
}

/// One line of the dialogue history.
#[derive(Clone, Debug)]
pub struct DialogueHistoryEntry {
    pub speaker_name: String,
    pub text: String,
    pub timestamp: u64,
}

/// The dialogue being played and the history.
pub struct DialogueState {
    pub active_dialogue: Option<ActiveDialogue>,
    /// Lines shown, oldest first.
    pub history: VecDeque<DialogueHistoryEntry>,
    /// Most lines kept in the history.
    pub max_history: usize,
}

impl Default for DialogueState {
    fn default() -> (s: DialogueState)
        ensures
            s.active_dialogue is None,
            s.history@.len() == 0,
            s.max_history == 0,
    {
        DialogueState { active_dialogue: None, history: VecDeque::new(), max_history: 0 }
    }
}

/// A request to the dialogue system.
#[derive(Clone, Debug)]
pub enum DialogueEvent {
    /// Starts a dialogue with variables (name, value).
    Start { dialogue_id: DialogueId, participants: Vec<(String, String)> },
    GoToNode(u32),
    SelectChoice(usize),
    SkipTyping,
    End,
    /// A dialogue finished normally.
    Completed(DialogueId),
}

/// What the dialogue system knows of an NPC.
#[derive(Clone, Debug)]
pub struct NpcDialogueData {
    pub id: NpcId,
    pub name: String,
    pub portrait: String,
    pub voice_style: Option<String>,
}

/// Every dialogue and NPC.
pub struct DialogueDatabase {
    pub dialogues: HashMap<DialogueId, DialogueTree>,
    pub npcs: HashMap<NpcId, NpcDialogueData>,
}

impl Default for DialogueDatabase {
    fn default() -> (d: DialogueDatabase)
        ensures
            d.dialogues@ == Map::<DialogueId, DialogueTree>::empty(),
            d.npcs@ == Map::<NpcId, NpcDialogueData>::empty(),
    {
        DialogueDatabase { dialogues: HashMap::new(), npcs: HashMap::new() }
    }
}

impl DialogueDatabase {
    /// Registers a dialogue under its id (replacing one with that id).
    pub fn register_dialogue(&mut self, dialogue: DialogueTree)
        ensures
            final(self).dialogues@ == old(self).dialogues@.insert(dialogue.id, dialogue),
            final(self).npcs == old(self).npcs,
    {
        self.dialogues.insert(dialogue.id, dialogue);
    }

    /// The dialogue with this id, if any.
    pub fn get_dialogue(&self, id: DialogueId) -> (r: Option<&DialogueTree>)
        ensures
            self.dialogues@.contains_key(id) ==> r == Some(&self.dialogues@[id]),
            !self.dialogues@.contains_key(id) ==> r is None,
    {
        self.dialogues.get(&id)
    }

    /// Registers an NPC under its id.
    pub fn register_npc(&mut self, npc: NpcDialogueData)
        ensures
            final(self).npcs@ == old(self).npcs@.insert(npc.id, npc),
            final(self).dialogues == old(self).dialogues,
    {
        self.npcs.insert(npc.id, npc);
    }

    /// The NPC with this id, if any.
    pub fn get_npc(&self, id: NpcId) -> (r: Option<&NpcDialogueData>)
        ensures
            self.npcs@.contains_key(id) ==> r == Some(&self.npcs@[id]),
            !self.npcs@.contains_key(id) ==> r is None,
    {
        self.npcs.get(&id)
    }

    /// Number of dialogues.
    pub fn dialogue_count(&self) -> (n: usize)
        ensures
            n == self.dialogues@.len(),
    {
        self.dialogues.len()
    }
}

/// Display and pacing settings.
#[derive(Clone, Copy, Debug, PartialEq, Eq, Structural)]
pub struct DialogueSettings {
    /// Characters per second.
    pub default_typing_speed: u32,
    pub voice_enabled: bool,
    pub font_size: u32,
    /// Opacity of the dialogue box, in percent.
    pub box_opacity: u32,
    pub show_speaker_name: bool,
    pub show_portrait: bool,
    pub auto_advance: bool,
    /// Wait before moving on by itself, in milliseconds.
    pub auto_advance_delay: u32,
}

impl Default for DialogueSettings {
    fn default() -> (s: DialogueSettings)
        ensures
            s == (DialogueSettings {
                default_typing_speed: 30,
                voice_enabled: true,
                font_size: 24,
                box_opacity: 85,
                show_speaker_name: true,
                show_portrait: true,
                auto_advance: false,
                auto_advance_delay: 2000,
            }),
    {
        DialogueSettings {
            default_typing_speed: 30,
            voice_enabled: true,
            font_size: 24,
            box_opacity: 85,
            show_speaker_name: true,
            show_portrait: true,
            auto_advance: false,
            auto_advance_delay: 2000,
        }
    }
}

/// Every node of the sample dialogue 「第一章：初遇」: speaker, line, mood, pacing, actions, next node and options.
pub open spec fn sample_dialogue_lines(m: Map<u32, DialogueNode>) -> bool {
    &&& node_is(m[0], 0, DialogueSpeaker::Narrator, "你在酒吧裡注意到一個神秘的男人正看著你..."@, SpeakerEmotion::Neutral, Some(1u32), 2000, 0, 0)
    &&& node_is(m[1], 1, DialogueSpeaker::Npc(100), "嘿，你看起來像是在找工作的人。"@, SpeakerEmotion::Smirk, Some(2u32), 0, 0, 0)
    &&& node_is(m[2], 2, DialogueSpeaker::Npc(100), "我這裡有個...機會。你有興趣嗎？"@, SpeakerEmotion::Serious, None, 0, 3, 0)
    &&& option_is(m[2].choices@[0], "告訴我更多"@, Some(3u32), false, 0)
    &&& m[2].choices@[0].condition is None
    &&& option_is(m[2].choices@[1], "我不感興趣"@, Some(4u32), false, 0)
    &&& m[2].choices@[1].condition is None
    &&& option_is(m[2].choices@[2], "你是誰？"@, Some(5u32), false, 0)
    &&& needs_flag_absent(m[2].choices@[2], "know_mysterious_man"@)
    &&& node_is(m[3], 3, DialogueSpeaker::Npc(100), "很好。有個人欠了我錢，我需要有人去...提醒他一下。"@, SpeakerEmotion::Serious, None, 0, 2, 0)
    &&& option_is(m[3].choices@[0], "我接了"@, Some(6u32), false, 1)
    &&& m[3].choices@[0].condition is None
    &&& m[3].choices@[0].consequences@[0] == DialogueConsequence::UnlockMission(1)
    &&& option_is(m[3].choices@[1], "讓我考慮一下"@, Some(7u32), false, 0)
    &&& m[3].choices@[1].condition is None
    &&& node_is(m[4], 4, DialogueSpeaker::Npc(100), "可惜了。如果你改變主意，你知道在哪找我。"@, SpeakerEmotion::Neutral, None, 0, 1, 0)
    &&& option_is(m[4].choices@[0], "離開"@, None, true, 0)
    &&& m[4].choices@[0].condition is None
    &&& node_is(m[5], 5, DialogueSpeaker::Npc(100), "叫我老王就行。這座島上，有些事情需要...特殊人才來處理。"@, SpeakerEmotion::Smirk, None, 0, 1, 1)
    &&& plays_sound(m[5].actions@[0], "reveal.ogg"@)
    &&& option_is(m[5].choices@[0], "繼續"@, Some(2u32), false, 1)
    &&& m[5].choices@[0].condition is None
    &&& sets_flag(m[5].choices@[0].consequences@[0], "know_mysterious_man"@, true)
    &&& node_is(m[6], 6, DialogueSpeaker::Npc(100), "很好。地址我傳到你手機了。記住，要活的。"@, SpeakerEmotion::Serious, None, 0, 1, 0)
    &&& option_is(m[6].choices@[0], "離開"@, None, true, 0)
    &&& m[6].choices@[0].condition is None
    &&& node_is(m[7], 7, DialogueSpeaker::Npc(100), "別太久。機會不等人。"@, SpeakerEmotion::Neutral, None, 0, 1, 0)
    &&& option_is(m[7].choices@[0], "離開"@, None, true, 0)
    &&& m[7].choices@[0].condition is None
}

/// The opening dialogue of chapter one (id 1): a stranger in a bar offers
/// a job.
pub fn create_sample_dialogue() -> (t: DialogueTree)
    ensures
        t.id == 1,
        t.name@ == "第一章：初遇"@,
        t.start_node == 0,
        t.nodes@.dom() == Set::new(|k: u32| k < 8),
        t.on_complete@.len() == 0,
        tree_closed(&t),
        sample_dialogue_lines(t.nodes@),
        end_reachable(&t),
        has_branch(&t),
{
    let mut tree = DialogueTree::new(1, "第一章：初遇");

    tree.add_node(
        DialogueNode::new(0, DialogueSpeaker::Narrator, "你在酒吧裡注意到一個神秘的男人正看著你...")
            .with_auto_advance(2000)
            .with_next_node(1),
    );

    tree.add_node(
        DialogueNode::new(1, DialogueSpeaker::Npc(100), "嘿，你看起來像是在找工作的人。")
            .with_emotion(SpeakerEmotion::Smirk)
            .with_next_node(2),
    );

    tree.add_node(
        DialogueNode::new(2, DialogueSpeaker::Npc(100), "我這裡有個...機會。你有興趣嗎？")
            .with_emotion(SpeakerEmotion::Serious)
            .with_choice(DialogueChoice::simple("告訴我更多", 3))
            .with_choice(DialogueChoice::simple("我不感興趣", 4))
            .with_choice(
                DialogueChoice::simple("你是誰？", 5)
                    .with_condition(DialogueCondition::NotHasFlag("know_mysterious_man".to_owned())),
            ),
    );

    tree.add_node(
        DialogueNode::new(3, DialogueSpeaker::Npc(100), "很好。有個人欠了我錢，我需要有人去...提醒他一下。")
            .with_emotion(SpeakerEmotion::Serious)
            .with_choice(
                DialogueChoice::simple("我接了", 6)
                    .with_consequence(DialogueConsequence::UnlockMission(1)),
            )
            .with_choice(DialogueChoice::simple("讓我考慮一下", 7)),
    );

    tree.add_node(
        DialogueNode::new(4, DialogueSpeaker::Npc(100), "可惜了。如果你改變主意，你知道在哪找我。")
            .with_emotion(SpeakerEmotion::Neutral)
            .with_choice(DialogueChoice::end("離開")),
    );

    tree.add_node(
        DialogueNode::new(5, DialogueSpeaker::Npc(100), "叫我老王就行。這座島上，有些事情需要...特殊人才來處理。")
            .with_emotion(SpeakerEmotion::Smirk)
            .with_action(DialogueAction::PlaySound("reveal.ogg".to_owned()))
            .with_choice(
                DialogueChoice::simple("繼續", 2)
                    .with_consequence(DialogueConsequence::SetStoryFlag {
                        flag: "know_mysterious_man".to_owned(),
                        value: true,
                    }),
            ),
    );

    tree.add_node(
        DialogueNode::new(6, DialogueSpeaker::Npc(100), "很好。地址我傳到你手機了。記住，要活的。")
            .with_emotion(SpeakerEmotion::Serious)
            .with_choice(DialogueChoice::end("離開")),
    );

    tree.add_node(
        DialogueNode::new(7, DialogueSpeaker::Npc(100), "別太久。機會不等人。")
            .with_emotion(SpeakerEmotion::Neutral)
            .with_choice(DialogueChoice::end("離開")),
    );

    let t = tree.with_start_node(0);
    assert(t.nodes@.dom() =~= Set::new(|k: u32| k < 8));
    proof {
        let m = t.nodes@;
        assert(m[4].choices@[0].ends_dialogue);
        assert(reaches_end(m, 4, 0));
        assert(m[2].choices@[1].next_node == Some(4u32));
        assert(reaches_end(m, 2, 1));
        assert(reaches_end(m, 1, 2));
        assert(reaches_end(m, 0, 3));
        assert(m.contains_key(2));
    }
    t
}


} // verus!
