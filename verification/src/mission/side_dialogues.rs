//! Dialogue trees of the six side missions ("strangers and freaks"): a
//! start and an end dialogue each (ids 200 to 211), whose options change
//! how the NPC feels about the player and set story flags.
use vstd::prelude::*;
use crate::mission::dialogue::{
    DialogueChoice, DialogueCondition, DialogueConsequence, DialogueDatabase, DialogueNode, DialogueSpeaker,
    DialogueTree, NpcDialogueData, SpeakerEmotion, end_reachable, node_is, option_is, sets_flag, has_branch, has_relationship_change,
    has_relationship_gate, reaches_end, tree_closed,
};

verus! {

/// The betel nut beauty.
pub const NPC_BETEL_NUT_BEAUTY: u32 = 200;

/// The temple keeper.
pub const NPC_TEMPLE_KEEPER: u32 = 201;

/// The night market chef.
pub const NPC_NIGHT_MARKET_CHEF: u32 = 202;

/// The stray dog uncle.
pub const NPC_STRAY_DOG_UNCLE: u32 = 203;

/// The street racer boss.
pub const NPC_STREET_RACER: u32 = 204;

/// The conspiracy blogger.
pub const NPC_CONSPIRACY_BLOGGER: u32 = 205;

/// Every node of dialogue 200 「檳榔西施：求助」: speaker, line, mood, next node and options.
pub open spec fn betel_nut_start_lines(m: Map<u32, DialogueNode>) -> bool {
    let npc = DialogueSpeaker::Npc(NPC_BETEL_NUT_BEAUTY);
    let player = DialogueSpeaker::Player;
    &&& node_is(m[0], 0, npc, "大哥……你能不能幫幫我？那群流氓又來了，每天來騷擾我，生意都沒辦法做……"@, SpeakerEmotion::Sad, Some(1u32), 0, 0, 0)
    &&& node_is(m[1], 1, npc, "我報過警了，但警察來的時候他們就跑，警察走了又回來……"@, SpeakerEmotion::Afraid, None, 0, 3, 0)
    &&& option_is(m[1].choices@[0], "放心，我幫妳趕走他們"@, Some(2u32), false, 1)
    &&& m[1].choices@[0].condition is None
    &&& m[1].choices@[0].consequences@[0]
        == DialogueConsequence::ChangeRelationship { npc_id: NPC_BETEL_NUT_BEAUTY, delta: 10 }
    &&& option_is(m[1].choices@[1], "幫忙可以，有什麼好處？"@, Some(3u32), false, 1)
    &&& m[1].choices@[1].condition is None
    &&& m[1].choices@[1].consequences@[0]
        == DialogueConsequence::ChangeRelationship { npc_id: NPC_BETEL_NUT_BEAUTY, delta: -5i32 }
    &&& option_is(m[1].choices@[2], "妳不能換個地方擺攤嗎？"@, Some(4u32), false, 0)
    &&& m[1].choices@[2].condition is None
    &&& node_is(m[2], 2, npc, "真的嗎！？太好了！他們通常在附近的巷子裡，大概三個人。拜託你了！"@, SpeakerEmotion::Happy, None, 0, 1, 0)
    &&& option_is(m[2].choices@[0], "沒問題，交給我"@, None, true, 0)
    &&& m[2].choices@[0].condition is None
    &&& node_is(m[3], 3, npc, "我……我沒什麼錢，但事成之後一定會好好謝謝你的！"@, SpeakerEmotion::Sad, None, 0, 2, 0)
    &&& option_is(m[3].choices@[0], "好吧，我去看看"@, Some(2u32), false, 0)
    &&& m[3].choices@[0].condition is None
    &&& option_is(m[3].choices@[1], "算了，我沒空"@, Some(5u32), false, 1)
    &&& m[3].choices@[1].condition is None
    &&& m[3].choices@[1].consequences@[0]
        == DialogueConsequence::ChangeRelationship { npc_id: NPC_BETEL_NUT_BEAUTY, delta: -10i32 }
    &&& node_is(m[4], 4, player, "妳不能換個地方擺攤嗎？"@, SpeakerEmotion::Neutral, Some(6u32), 0, 0, 0)
    &&& node_is(m[5], 5, npc, "嗯……好吧……"@, SpeakerEmotion::Sad, None, 0, 1, 0)
    &&& option_is(m[5].choices@[0], "離開"@, None, true, 0)
    &&& m[5].choices@[0].condition is None
    &&& node_is(m[6], 6, npc, "這個攤位是我阿嬤留下來的，我不想放棄……拜託你幫幫我好嗎？"@, SpeakerEmotion::Sad, None, 0, 2, 0)
    &&& option_is(m[6].choices@[0], "好，我去教訓他們"@, Some(2u32), false, 1)
    &&& m[6].choices@[0].condition is None
    &&& m[6].choices@[0].consequences@[0]
        == DialogueConsequence::ChangeRelationship { npc_id: NPC_BETEL_NUT_BEAUTY, delta: 5 }
    &&& option_is(m[6].choices@[1], "抱歉，我幫不了"@, Some(5u32), false, 0)
    &&& m[6].choices@[1].condition is None
}

/// Dialogue 200, 「檳榔西施：求助」: 7 nodes from node 0.
fn create_betel_nut_start() -> (t: DialogueTree)
    ensures
        t.id == 200,
        t.name@ == "檳榔西施：求助"@,
        t.start_node == 0,
        t.nodes@.dom() == Set::new(|k: u32| k < 7),
        t.on_complete@.len() == 0,
        tree_closed(&t),
        betel_nut_start_lines(t.nodes@),
        end_reachable(&t),
        has_branch(&t),
{
    let npc = DialogueSpeaker::Npc(NPC_BETEL_NUT_BEAUTY);
    let player = DialogueSpeaker::Player;
    let mut tree = DialogueTree::new(200, "檳榔西施：求助");

    tree.add_node(
        DialogueNode::new(0, npc, "大哥……你能不能幫幫我？那群流氓又來了，每天來騷擾我，生意都沒辦法做……")
            .with_emotion(SpeakerEmotion::Sad)
            .with_next_node(1),
    );

    tree.add_node(
        DialogueNode::new(1, npc, "我報過警了，但警察來的時候他們就跑，警察走了又回來……")
            .with_emotion(SpeakerEmotion::Afraid)
            .with_choice(
                DialogueChoice::simple("放心，我幫妳趕走他們", 2)
                    .with_consequence(DialogueConsequence::ChangeRelationship {
                        npc_id: NPC_BETEL_NUT_BEAUTY,
                        delta: 10,
                    }),
            )
            .with_choice(
                DialogueChoice::simple("幫忙可以，有什麼好處？", 3)
                    .with_consequence(DialogueConsequence::ChangeRelationship {
                        npc_id: NPC_BETEL_NUT_BEAUTY,
                        delta: -5,
                    }),
            )
            .with_choice(DialogueChoice::simple("妳不能換個地方擺攤嗎？", 4)),
    );

    tree.add_node(
        DialogueNode::new(2, npc, "真的嗎！？太好了！他們通常在附近的巷子裡，大概三個人。拜託你了！")
            .with_emotion(SpeakerEmotion::Happy)
            .with_choice(DialogueChoice::end("沒問題，交給我")),
    );

    tree.add_node(
        DialogueNode::new(3, npc, "我……我沒什麼錢，但事成之後一定會好好謝謝你的！")
            .with_emotion(SpeakerEmotion::Sad)
            .with_choice(DialogueChoice::simple("好吧，我去看看", 2))
            .with_choice(
                DialogueChoice::simple("算了，我沒空", 5)
                    .with_consequence(DialogueConsequence::ChangeRelationship {
                        npc_id: NPC_BETEL_NUT_BEAUTY,
                        delta: -10,
                    }),
            ),
    );

    tree.add_node(
        DialogueNode::new(4, player, "妳不能換個地方擺攤嗎？")
            .with_next_node(6),
    );

    tree.add_node(
        DialogueNode::new(5, npc, "嗯……好吧……")
            .with_emotion(SpeakerEmotion::Sad)
            .with_choice(DialogueChoice::end("離開")),
    );

    tree.add_node(
        DialogueNode::new(6, npc, "這個攤位是我阿嬤留下來的，我不想放棄……拜託你幫幫我好嗎？")
            .with_emotion(SpeakerEmotion::Sad)
            .with_choice(
                DialogueChoice::simple("好，我去教訓他們", 2)
                    .with_consequence(DialogueConsequence::ChangeRelationship {
                        npc_id: NPC_BETEL_NUT_BEAUTY,
                        delta: 5,
                    }),
            )
            .with_choice(DialogueChoice::simple("抱歉，我幫不了", 5)),
    );

    assert(tree.nodes@.dom() =~= Set::new(|k: u32| k < 7));
    proof {
        let m = tree.nodes@;
        assert(m[2].choices@[0].ends_dialogue);
        assert(reaches_end(m, 2, 0));
        assert(m[1].choices@[0].next_node == Some(2u32));
        assert(reaches_end(m, 1, 1));
        assert(reaches_end(m, 0, 2));
        assert(m.contains_key(1));
    }
    tree
}

/// Every node of dialogue 201 「檳榔西施：感謝」: speaker, line, mood, next node and options.
pub open spec fn betel_nut_end_lines(m: Map<u32, DialogueNode>) -> bool {
    let npc = DialogueSpeaker::Npc(NPC_BETEL_NUT_BEAUTY);
    &&& node_is(m[0], 0, npc, "太感謝你了！他們應該不敢再來了吧！"@, SpeakerEmotion::Happy, Some(1u32), 0, 0, 0)
    &&& node_is(m[1], 1, npc, "這是一點心意，請你一定要收下！"@, SpeakerEmotion::Happy, None, 0, 3, 0)
    &&& option_is(m[1].choices@[0], "不客氣，舉手之勞"@, Some(2u32), false, 1)
    &&& m[1].choices@[0].condition is None
    &&& m[1].choices@[0].consequences@[0]
        == DialogueConsequence::ChangeRelationship { npc_id: NPC_BETEL_NUT_BEAUTY, delta: 5 }
    &&& option_is(m[1].choices@[1], "以後有事隨時找我"@, Some(3u32), false, 1)
    &&& m[1].choices@[1].condition is None
    &&& m[1].choices@[1].consequences@[0]
        == DialogueConsequence::ChangeRelationship { npc_id: NPC_BETEL_NUT_BEAUTY, delta: 10 }
    &&& option_is(m[1].choices@[2], "要不要一起去吃個飯？"@, Some(4u32), false, 2)
    &&& m[1].choices@[2].condition == Some(
        DialogueCondition::RelationshipMin { npc_id: NPC_BETEL_NUT_BEAUTY, min: 20 },
    )
    &&& m[1].choices@[2].consequences@[0]
        == DialogueConsequence::ChangeRelationship { npc_id: NPC_BETEL_NUT_BEAUTY, delta: 15 }
    &&& sets_flag(m[1].choices@[2].consequences@[1], "betel_nut_beauty_date"@, true)
    &&& node_is(m[2], 2, npc, "你人真好！以後路過記得來買檳榔喔，算你便宜！"@, SpeakerEmotion::Happy, None, 0, 1, 0)
    &&& option_is(m[2].choices@[0], "好的，再見"@, None, true, 0)
    &&& m[2].choices@[0].condition is None
    &&& node_is(m[3], 3, npc, "有你在真的讓人安心！對了，我認識一些人，以後有消息我都會跟你說的！"@, SpeakerEmotion::Happy, None, 0, 1, 0)
    &&& option_is(m[3].choices@[0], "好，保持聯絡"@, None, true, 1)
    &&& m[3].choices@[0].condition is None
    &&& sets_flag(m[3].choices@[0].consequences@[0], "betel_nut_informant"@, true)
    &&& node_is(m[4], 4, npc, "欸！？吃飯？好……好啊！我下班之後可以……"@, SpeakerEmotion::Surprised, None, 0, 1, 0)
    &&& option_is(m[4].choices@[0], "那就這樣說定了"@, None, true, 0)
    &&& m[4].choices@[0].condition is None
}

/// Dialogue 201, 「檳榔西施：感謝」: 5 nodes from node 0.
fn create_betel_nut_end() -> (t: DialogueTree)
    ensures
        t.id == 201,
        t.name@ == "檳榔西施：感謝"@,
        t.start_node == 0,
        t.nodes@.dom() == Set::new(|k: u32| k < 5),
        t.on_complete@.len() == 0,
        tree_closed(&t),
        betel_nut_end_lines(t.nodes@),
        end_reachable(&t),
        has_relationship_change(&t),
        has_relationship_gate(&t),
{
    let npc = DialogueSpeaker::Npc(NPC_BETEL_NUT_BEAUTY);
    let mut tree = DialogueTree::new(201, "檳榔西施：感謝");

    tree.add_node(
        DialogueNode::new(0, npc, "太感謝你了！他們應該不敢再來了吧！")
            .with_emotion(SpeakerEmotion::Happy)
            .with_next_node(1),
    );

    tree.add_node(
        DialogueNode::new(1, npc, "這是一點心意，請你一定要收下！")
            .with_emotion(SpeakerEmotion::Happy)
            .with_choice(
                DialogueChoice::simple("不客氣，舉手之勞", 2)
                    .with_consequence(DialogueConsequence::ChangeRelationship {
                        npc_id: NPC_BETEL_NUT_BEAUTY,
                        delta: 5,
                    }),
            )
            .with_choice(
                DialogueChoice::simple("以後有事隨時找我", 3)
                    .with_consequence(DialogueConsequence::ChangeRelationship {
                        npc_id: NPC_BETEL_NUT_BEAUTY,
                        delta: 10,
                    }),
            )
            .with_choice(
                DialogueChoice::simple("要不要一起去吃個飯？", 4)
                    .with_condition(DialogueCondition::RelationshipMin {
                        npc_id: NPC_BETEL_NUT_BEAUTY,
                        min: 20,
                    })
                    .with_consequence(DialogueConsequence::ChangeRelationship {
                        npc_id: NPC_BETEL_NUT_BEAUTY,
                        delta: 15,
                    })
                    .with_consequence(DialogueConsequence::SetStoryFlag {
                        flag: "betel_nut_beauty_date".to_owned(),
                        value: true,
                    }),
            ),
    );

    tree.add_node(
        DialogueNode::new(2, npc, "你人真好！以後路過記得來買檳榔喔，算你便宜！")
            .with_emotion(SpeakerEmotion::Happy)
            .with_choice(DialogueChoice::end("好的，再見")),
    );

    tree.add_node(
        DialogueNode::new(3, npc, "有你在真的讓人安心！對了，我認識一些人，以後有消息我都會跟你說的！")
            .with_emotion(SpeakerEmotion::Happy)
            .with_choice(
                DialogueChoice::end("好，保持聯絡")
                    .with_consequence(DialogueConsequence::SetStoryFlag {
                        flag: "betel_nut_informant".to_owned(),
                        value: true,
                    }),
            ),
    );

    tree.add_node(
        DialogueNode::new(4, npc, "欸！？吃飯？好……好啊！我下班之後可以……")
            .with_emotion(SpeakerEmotion::Surprised)
            .with_choice(DialogueChoice::end("那就這樣說定了")),
    );

    assert(tree.nodes@.dom() =~= Set::new(|k: u32| k < 5));
    proof {
        let m = tree.nodes@;
        assert(m[2].choices@[0].ends_dialogue);
        assert(reaches_end(m, 2, 0));
        assert(m[1].choices@[0].next_node == Some(2u32));
        assert(reaches_end(m, 1, 1));
        assert(reaches_end(m, 0, 2));
        assert(m[1].choices@[0].consequences@[0] is ChangeRelationship);
        assert(m[1].choices@[2].condition matches Some(DialogueCondition::RelationshipMin { .. }));
    }
    tree
}

/// Every node of dialogue 202 「廟公：警告」: speaker, line, mood, next node and options.
pub open spec fn temple_start_lines(m: Map<u32, DialogueNode>) -> bool {
    let npc = DialogueSpeaker::Npc(NPC_TEMPLE_KEEPER);
    &&& node_is(m[0], 0, npc, "施主，老夫觀你面相，最近有劫數啊……"@, SpeakerEmotion::Serious, Some(1u32), 0, 0, 0)
    &&& node_is(m[1], 1, npc, "土地公有指示，你必須去三個地方化解這個劫。東邊水源地淨身、西邊大榕樹祈福、南邊山頂拜拜。"@, SpeakerEmotion::Serious, None, 0, 3, 0)
    &&& option_is(m[1].choices@[0], "好吧，我試試看"@, Some(2u32), false, 1)
    &&& m[1].choices@[0].condition is None
    &&& m[1].choices@[0].consequences@[0]
        == DialogueConsequence::ChangeRelationship { npc_id: NPC_TEMPLE_KEEPER, delta: 10 }
    &&& option_is(m[1].choices@[1], "我才不信迷信"@, Some(3u32), false, 1)
    &&& m[1].choices@[1].condition is None
    &&& m[1].choices@[1].consequences@[0]
        == DialogueConsequence::ChangeRelationship { npc_id: NPC_TEMPLE_KEEPER, delta: -5i32 }
    &&& option_is(m[1].choices@[2], "這要收費嗎？"@, Some(4u32), false, 0)
    &&& m[1].choices@[2].condition is None
    &&& node_is(m[2], 2, npc, "善哉善哉！記得到每個地方都要誠心祈禱，土地公保佑你。"@, SpeakerEmotion::Happy, None, 0, 1, 0)
    &&& option_is(m[2].choices@[0], "我這就出發"@, None, true, 0)
    &&& m[2].choices@[0].condition is None
    &&& node_is(m[3], 3, npc, "唉……年輕人不信也沒關係，但是寧可信其有。你去走一趟也不虧嘛！"@, SpeakerEmotion::Sad, None, 0, 2, 0)
    &&& option_is(m[3].choices@[0], "好吧好吧，去就去"@, Some(2u32), false, 1)
    &&& m[3].choices@[0].condition is None
    &&& m[3].choices@[0].consequences@[0]
        == DialogueConsequence::ChangeRelationship { npc_id: NPC_TEMPLE_KEEPER, delta: 5 }
    &&& option_is(m[3].choices@[1], "不了，謝謝"@, Some(5u32), false, 1)
    &&& m[3].choices@[1].condition is None
    &&& m[3].choices@[1].consequences@[0]
        == DialogueConsequence::ChangeRelationship { npc_id: NPC_TEMPLE_KEEPER, delta: -5i32 }
    &&& node_is(m[4], 4, npc, "不用不用！土地公的旨意，怎麼能收錢呢？你去做就好了。"@, SpeakerEmotion::Neutral, None, 0, 1, 0)
    &&& option_is(m[4].choices@[0], "那好，我去"@, Some(2u32), false, 1)
    &&& m[4].choices@[0].condition is None
    &&& m[4].choices@[0].consequences@[0]
        == DialogueConsequence::ChangeRelationship { npc_id: NPC_TEMPLE_KEEPER, delta: 5 }
    &&& node_is(m[5], 5, npc, "施主保重……"@, SpeakerEmotion::Sad, None, 0, 1, 0)
    &&& option_is(m[5].choices@[0], "離開"@, None, true, 0)
    &&& m[5].choices@[0].condition is None
}

/// Dialogue 202, 「廟公：警告」: 6 nodes from node 0.
fn create_temple_start() -> (t: DialogueTree)
    ensures
        t.id == 202,
        t.name@ == "廟公：警告"@,
        t.start_node == 0,
        t.nodes@.dom() == Set::new(|k: u32| k < 6),
        t.on_complete@.len() == 0,
        tree_closed(&t),
        temple_start_lines(t.nodes@),
        end_reachable(&t),
        has_branch(&t),
{
    let npc = DialogueSpeaker::Npc(NPC_TEMPLE_KEEPER);
    let mut tree = DialogueTree::new(202, "廟公：警告");

    tree.add_node(
        DialogueNode::new(0, npc, "施主，老夫觀你面相，最近有劫數啊……")
            .with_emotion(SpeakerEmotion::Serious)
            .with_next_node(1),
    );

    tree.add_node(
        DialogueNode::new(1, npc, "土地公有指示，你必須去三個地方化解這個劫。東邊水源地淨身、西邊大榕樹祈福、南邊山頂拜拜。")
            .with_emotion(SpeakerEmotion::Serious)
            .with_choice(
                DialogueChoice::simple("好吧，我試試看", 2)
                    .with_consequence(DialogueConsequence::ChangeRelationship {
                        npc_id: NPC_TEMPLE_KEEPER,
                        delta: 10,
                    }),
            )
            .with_choice(
                DialogueChoice::simple("我才不信迷信", 3)
                    .with_consequence(DialogueConsequence::ChangeRelationship {
                        npc_id: NPC_TEMPLE_KEEPER,
                        delta: -5,
                    }),
            )
            .with_choice(
                DialogueChoice::simple("這要收費嗎？", 4),
            ),
    );

    tree.add_node(
        DialogueNode::new(2, npc, "善哉善哉！記得到每個地方都要誠心祈禱，土地公保佑你。")
            .with_emotion(SpeakerEmotion::Happy)
            .with_choice(DialogueChoice::end("我這就出發")),
    );

    tree.add_node(
        DialogueNode::new(3, npc, "唉……年輕人不信也沒關係，但是寧可信其有。你去走一趟也不虧嘛！")
            .with_emotion(SpeakerEmotion::Sad)
            .with_choice(
                DialogueChoice::simple("好吧好吧，去就去", 2)
                    .with_consequence(DialogueConsequence::ChangeRelationship {
                        npc_id: NPC_TEMPLE_KEEPER,
                        delta: 5,
                    }),
            )
            .with_choice(
                DialogueChoice::simple("不了，謝謝", 5)
                    .with_consequence(DialogueConsequence::ChangeRelationship {
                        npc_id: NPC_TEMPLE_KEEPER,
                        delta: -5,
                    }),
            ),
    );

    tree.add_node(
        DialogueNode::new(4, npc, "不用不用！土地公的旨意，怎麼能收錢呢？你去做就好了。")
            .with_emotion(SpeakerEmotion::Neutral)
            .with_choice(
                DialogueChoice::simple("那好，我去", 2)
                    .with_consequence(DialogueConsequence::ChangeRelationship {
                        npc_id: NPC_TEMPLE_KEEPER,
                        delta: 5,
                    }),
            ),
    );

    tree.add_node(
        DialogueNode::new(5, npc, "施主保重……")
            .with_emotion(SpeakerEmotion::Sad)
            .with_choice(DialogueChoice::end("離開")),
    );

    assert(tree.nodes@.dom() =~= Set::new(|k: u32| k < 6));
    proof {
        let m = tree.nodes@;
        assert(m[2].choices@[0].ends_dialogue);
        assert(reaches_end(m, 2, 0));
        assert(m[1].choices@[0].next_node == Some(2u32));
        assert(reaches_end(m, 1, 1));
        assert(reaches_end(m, 0, 2));
        assert(m.contains_key(1));
    }
    tree
}

/// Every node of dialogue 203 「廟公：解劫」: speaker, line, mood, next node and options.
pub open spec fn temple_end_lines(m: Map<u32, DialogueNode>) -> bool {
    let npc = DialogueSpeaker::Npc(NPC_TEMPLE_KEEPER);
    &&& node_is(m[0], 0, npc, "哦！施主，你身上的煞氣已經散了！土地公果然靈驗！"@, SpeakerEmotion::Happy, Some(1u32), 0, 0, 0)
    &&& node_is(m[1], 1, npc, "老夫代土地公謝謝你的誠心。這個平安符送給你，保你出入平安。"@, SpeakerEmotion::Happy, None, 0, 3, 0)
    &&& option_is(m[1].choices@[0], "謝謝廟公，受教了"@, Some(2u32), false, 1)
    &&& m[1].choices@[0].condition is None
    &&& m[1].choices@[0].consequences@[0]
        == DialogueConsequence::ChangeRelationship { npc_id: NPC_TEMPLE_KEEPER, delta: 10 }
    &&& option_is(m[1].choices@[1], "大概只是巧合吧"@, Some(3u32), false, 1)
    &&& m[1].choices@[1].condition is None
    &&& m[1].choices@[1].consequences@[0]
        == DialogueConsequence::ChangeRelationship { npc_id: NPC_TEMPLE_KEEPER, delta: -10i32 }
    &&& option_is(m[1].choices@[2], "以後可以常來拜拜嗎？"@, Some(4u32), false, 2)
    &&& m[1].choices@[2].condition == Some(
        DialogueCondition::RelationshipMin { npc_id: NPC_TEMPLE_KEEPER, min: 15 },
    )
    &&& m[1].choices@[2].consequences@[0]
        == DialogueConsequence::ChangeRelationship { npc_id: NPC_TEMPLE_KEEPER, delta: 15 }
    &&& sets_flag(m[1].choices@[2].consequences@[1], "temple_regular"@, true)
    &&& node_is(m[2], 2, npc, "施主慢走，有空常來拜拜！"@, SpeakerEmotion::Happy, None, 0, 1, 0)
    &&& option_is(m[2].choices@[0], "好的，再見"@, None, true, 0)
    &&& m[2].choices@[0].condition is None
    &&& node_is(m[3], 3, npc, "呵呵，信不信由你。平安符還是拿著吧。"@, SpeakerEmotion::Neutral, None, 0, 1, 0)
    &&& option_is(m[3].choices@[0], "好吧，謝了"@, None, true, 0)
    &&& m[3].choices@[0].condition is None
    &&& node_is(m[4], 4, npc, "當然歡迎！你以後有什麼煩惱都可以來求籤，廟公幫你解！"@, SpeakerEmotion::Happy, None, 0, 1, 0)
    &&& option_is(m[4].choices@[0], "好的，感恩廟公"@, None, true, 0)
    &&& m[4].choices@[0].condition is None
}

/// Dialogue 203, 「廟公：解劫」: 5 nodes from node 0.
fn create_temple_end() -> (t: DialogueTree)
    ensures
        t.id == 203,
        t.name@ == "廟公：解劫"@,
        t.start_node == 0,
        t.nodes@.dom() == Set::new(|k: u32| k < 5),
        t.on_complete@.len() == 0,
        tree_closed(&t),
        temple_end_lines(t.nodes@),
        end_reachable(&t),
        has_relationship_change(&t),
        has_relationship_gate(&t),
{
    let npc = DialogueSpeaker::Npc(NPC_TEMPLE_KEEPER);
    let mut tree = DialogueTree::new(203, "廟公：解劫");

    tree.add_node(
        DialogueNode::new(0, npc, "哦！施主，你身上的煞氣已經散了！土地公果然靈驗！")
            .with_emotion(SpeakerEmotion::Happy)
            .with_next_node(1),
    );

    tree.add_node(
        DialogueNode::new(1, npc, "老夫代土地公謝謝你的誠心。這個平安符送給你，保你出入平安。")
            .with_emotion(SpeakerEmotion::Happy)
            .with_choice(
                DialogueChoice::simple("謝謝廟公，受教了", 2)
                    .with_consequence(DialogueConsequence::ChangeRelationship {
                        npc_id: NPC_TEMPLE_KEEPER,
                        delta: 10,
                    }),
            )
            .with_choice(
                DialogueChoice::simple("大概只是巧合吧", 3)
                    .with_consequence(DialogueConsequence::ChangeRelationship {
                        npc_id: NPC_TEMPLE_KEEPER,
                        delta: -10,
                    }),
            )
            .with_choice(
                DialogueChoice::simple("以後可以常來拜拜嗎？", 4)
                    .with_condition(DialogueCondition::RelationshipMin {
                        npc_id: NPC_TEMPLE_KEEPER,
                        min: 15,
                    })
                    .with_consequence(DialogueConsequence::ChangeRelationship {
                        npc_id: NPC_TEMPLE_KEEPER,
                        delta: 15,
                    })
                    .with_consequence(DialogueConsequence::SetStoryFlag {
                        flag: "temple_regular".to_owned(),
                        value: true,
                    }),
            ),
    );

    tree.add_node(
        DialogueNode::new(2, npc, "施主慢走，有空常來拜拜！")
            .with_emotion(SpeakerEmotion::Happy)
            .with_choice(DialogueChoice::end("好的，再見")),
    );

    tree.add_node(
        DialogueNode::new(3, npc, "呵呵，信不信由你。平安符還是拿著吧。")
            .with_emotion(SpeakerEmotion::Neutral)
            .with_choice(DialogueChoice::end("好吧，謝了")),
    );

    tree.add_node(
        DialogueNode::new(4, npc, "當然歡迎！你以後有什麼煩惱都可以來求籤，廟公幫你解！")
            .with_emotion(SpeakerEmotion::Happy)
            .with_choice(DialogueChoice::end("好的，感恩廟公")),
    );

    assert(tree.nodes@.dom() =~= Set::new(|k: u32| k < 5));
    proof {
        let m = tree.nodes@;
        assert(m[2].choices@[0].ends_dialogue);
        assert(reaches_end(m, 2, 0));
        assert(m[1].choices@[0].next_node == Some(2u32));
        assert(reaches_end(m, 1, 1));
        assert(reaches_end(m, 0, 2));
        assert(m[1].choices@[0].consequences@[0] is ChangeRelationship);
        assert(m[1].choices@[2].condition matches Some(DialogueCondition::RelationshipMin { .. }));
    }
    tree
}

/// Every node of dialogue 204 「夜市大廚：送貨」: speaker, line, mood, next node and options.
pub open spec fn chef_start_lines(m: Map<u32, DialogueNode>) -> bool {
    let npc = DialogueSpeaker::Npc(NPC_NIGHT_MARKET_CHEF);
    &&& node_is(m[0], 0, npc, "欸欸欸！兄弟！你看起來腳程很快！我這邊有個急單！"@, SpeakerEmotion::Surprised, Some(1u32), 0, 0, 0)
    &&& node_is(m[1], 1, npc, "三個客人的蚵仔煎要送，但我的外送仔今天請假！再不送就冷掉了！拜託幫個忙！"@, SpeakerEmotion::Afraid, None, 0, 3, 0)
    &&& option_is(m[1].choices@[0], "交給我吧！"@, Some(2u32), false, 1)
    &&& m[1].choices@[0].condition is None
    &&& m[1].choices@[0].consequences@[0]
        == DialogueConsequence::ChangeRelationship { npc_id: NPC_NIGHT_MARKET_CHEF, delta: 10 }
    &&& option_is(m[1].choices@[1], "報酬怎麼算？"@, Some(3u32), false, 0)
    &&& m[1].choices@[1].condition is None
    &&& option_is(m[1].choices@[2], "我又不是外送員"@, Some(4u32), false, 1)
    &&& m[1].choices@[2].condition is None
    &&& m[1].choices@[2].consequences@[0]
        == DialogueConsequence::ChangeRelationship { npc_id: NPC_NIGHT_MARKET_CHEF, delta: -5i32 }
    &&& node_is(m[2], 2, npc, "讚啦！三份蚵仔煎，地址在這，限時三分鐘！拜託趕快！"@, SpeakerEmotion::Happy, None, 0, 1, 0)
    &&& option_is(m[2].choices@[0], "收到，馬上出發"@, None, true, 0)
    &&& m[2].choices@[0].condition is None
    &&& node_is(m[3], 3, npc, "送完我請你吃一份招牌蚵仔煎加大份，再給你跑腿費！這樣可以嗎？"@, SpeakerEmotion::Neutral, None, 0, 2, 0)
    &&& option_is(m[3].choices@[0], "成交"@, Some(2u32), false, 1)
    &&& m[3].choices@[0].condition is None
    &&& m[3].choices@[0].consequences@[0]
        == DialogueConsequence::ChangeRelationship { npc_id: NPC_NIGHT_MARKET_CHEF, delta: 5 }
    &&& option_is(m[3].choices@[1], "太少了吧"@, Some(5u32), false, 1)
    &&& m[3].choices@[1].condition is None
    &&& m[3].choices@[1].consequences@[0]
        == DialogueConsequence::ChangeRelationship { npc_id: NPC_NIGHT_MARKET_CHEF, delta: -5i32 }
    &&& node_is(m[4], 4, npc, "唉……那我只好自己跑了……客人要罵死我了……"@, SpeakerEmotion::Sad, None, 0, 2, 0)
    &&& option_is(m[4].choices@[0], "好啦好啦我去"@, Some(2u32), false, 1)
    &&& m[4].choices@[0].condition is None
    &&& m[4].choices@[0].consequences@[0]
        == DialogueConsequence::ChangeRelationship { npc_id: NPC_NIGHT_MARKET_CHEF, delta: 5 }
    &&& option_is(m[4].choices@[1], "抱歉啊"@, None, true, 0)
    &&& m[4].choices@[1].condition is None
    &&& node_is(m[5], 5, npc, "拜託啦！我再加一百塊！蚵仔煎快冷掉了！"@, SpeakerEmotion::Afraid, None, 0, 1, 0)
    &&& option_is(m[5].choices@[0], "好吧，看你這麼著急"@, Some(2u32), false, 1)
    &&& m[5].choices@[0].condition is None
    &&& m[5].choices@[0].consequences@[0] == DialogueConsequence::GiveMoney(100)
}

/// Dialogue 204, 「夜市大廚：送貨」: 6 nodes from node 0.
fn create_chef_start() -> (t: DialogueTree)
    ensures
        t.id == 204,
        t.name@ == "夜市大廚：送貨"@,
        t.start_node == 0,
        t.nodes@.dom() == Set::new(|k: u32| k < 6),
        t.on_complete@.len() == 0,
        tree_closed(&t),
        chef_start_lines(t.nodes@),
        end_reachable(&t),
        has_branch(&t),
{
    let npc = DialogueSpeaker::Npc(NPC_NIGHT_MARKET_CHEF);
    let mut tree = DialogueTree::new(204, "夜市大廚：送貨");

    tree.add_node(
        DialogueNode::new(0, npc, "欸欸欸！兄弟！你看起來腳程很快！我這邊有個急單！")
            .with_emotion(SpeakerEmotion::Surprised)
            .with_next_node(1),
    );

    tree.add_node(
        DialogueNode::new(1, npc, "三個客人的蚵仔煎要送，但我的外送仔今天請假！再不送就冷掉了！拜託幫個忙！")
            .with_emotion(SpeakerEmotion::Afraid)
            .with_choice(
                DialogueChoice::simple("交給我吧！", 2)
                    .with_consequence(DialogueConsequence::ChangeRelationship {
                        npc_id: NPC_NIGHT_MARKET_CHEF,
                        delta: 10,
                    }),
            )
            .with_choice(
                DialogueChoice::simple("報酬怎麼算？", 3),
            )
            .with_choice(
                DialogueChoice::simple("我又不是外送員", 4)
                    .with_consequence(DialogueConsequence::ChangeRelationship {
                        npc_id: NPC_NIGHT_MARKET_CHEF,
                        delta: -5,
                    }),
            ),
    );

    tree.add_node(
        DialogueNode::new(2, npc, "讚啦！三份蚵仔煎，地址在這，限時三分鐘！拜託趕快！")
            .with_emotion(SpeakerEmotion::Happy)
            .with_choice(DialogueChoice::end("收到，馬上出發")),
    );

    tree.add_node(
        DialogueNode::new(3, npc, "送完我請你吃一份招牌蚵仔煎加大份，再給你跑腿費！這樣可以嗎？")
            .with_emotion(SpeakerEmotion::Neutral)
            .with_choice(
                DialogueChoice::simple("成交", 2)
                    .with_consequence(DialogueConsequence::ChangeRelationship {
                        npc_id: NPC_NIGHT_MARKET_CHEF,
                        delta: 5,
                    }),
            )
            .with_choice(
                DialogueChoice::simple("太少了吧", 5)
                    .with_consequence(DialogueConsequence::ChangeRelationship {
                        npc_id: NPC_NIGHT_MARKET_CHEF,
                        delta: -5,
                    }),
            ),
    );

    tree.add_node(
        DialogueNode::new(4, npc, "唉……那我只好自己跑了……客人要罵死我了……")
            .with_emotion(SpeakerEmotion::Sad)
            .with_choice(
                DialogueChoice::simple("好啦好啦我去", 2)
                    .with_consequence(DialogueConsequence::ChangeRelationship {
                        npc_id: NPC_NIGHT_MARKET_CHEF,
                        delta: 5,
                    }),
            )
            .with_choice(DialogueChoice::end("抱歉啊")),
    );

    tree.add_node(
        DialogueNode::new(5, npc, "拜託啦！我再加一百塊！蚵仔煎快冷掉了！")
            .with_emotion(SpeakerEmotion::Afraid)
            .with_choice(
                DialogueChoice::simple("好吧，看你這麼著急", 2)
                    .with_consequence(DialogueConsequence::GiveMoney(100)),
            ),
    );

    assert(tree.nodes@.dom() =~= Set::new(|k: u32| k < 6));
    proof {
        let m = tree.nodes@;
        assert(m[2].choices@[0].ends_dialogue);
        assert(reaches_end(m, 2, 0));
        assert(m[1].choices@[0].next_node == Some(2u32));
        assert(reaches_end(m, 1, 1));
        assert(reaches_end(m, 0, 2));
        assert(m.contains_key(1));
    }
    tree
}

/// Every node of dialogue 205 「夜市大廚：感謝」: speaker, line, mood, next node and options.
pub open spec fn chef_end_lines(m: Map<u32, DialogueNode>) -> bool {
    let npc = DialogueSpeaker::Npc(NPC_NIGHT_MARKET_CHEF);
    &&& node_is(m[0], 0, npc, "太厲害了！全部準時送到！客人都說讚！"@, SpeakerEmotion::Happy, Some(1u32), 0, 0, 0)
    &&& node_is(m[1], 1, npc, "這是你的報酬，辛苦了！以後有空常來吃喔！"@, SpeakerEmotion::Happy, None, 0, 3, 0)
    &&& option_is(m[1].choices@[0], "舉手之勞"@, Some(2u32), false, 1)
    &&& m[1].choices@[0].condition is None
    &&& m[1].choices@[0].consequences@[0]
        == DialogueConsequence::ChangeRelationship { npc_id: NPC_NIGHT_MARKET_CHEF, delta: 5 }
    &&& option_is(m[1].choices@[1], "你的蚵仔煎真的很好吃"@, Some(3u32), false, 1)
    &&& m[1].choices@[1].condition is None
    &&& m[1].choices@[1].consequences@[0]
        == DialogueConsequence::ChangeRelationship { npc_id: NPC_NIGHT_MARKET_CHEF, delta: 10 }
    &&& option_is(m[1].choices@[2], "以後可以打折嗎？"@, Some(4u32), false, 2)
    &&& m[1].choices@[2].condition == Some(
        DialogueCondition::RelationshipMin { npc_id: NPC_NIGHT_MARKET_CHEF, min: 15 },
    )
    &&& m[1].choices@[2].consequences@[0]
        == DialogueConsequence::ChangeRelationship { npc_id: NPC_NIGHT_MARKET_CHEF, delta: 10 }
    &&& sets_flag(m[1].choices@[2].consequences@[1], "night_market_discount"@, true)
    &&& node_is(m[2], 2, npc, "你人真好！下次來我多煎一份給你！"@, SpeakerEmotion::Happy, None, 0, 1, 0)
    &&& option_is(m[2].choices@[0], "好的，謝啦"@, None, true, 0)
    &&& m[2].choices@[0].condition is None
    &&& node_is(m[3], 3, npc, "哈哈！識貨！下次來我教你我的獨門醬料配方！"@, SpeakerEmotion::Happy, None, 0, 1, 0)
    &&& option_is(m[3].choices@[0], "一言為定"@, None, true, 1)
    &&& m[3].choices@[0].condition is None
    &&& sets_flag(m[3].choices@[0].consequences@[0], "chef_secret_recipe"@, true)
    &&& node_is(m[4], 4, npc, "打折？看在你今天幫了大忙的份上——以後來都半價！"@, SpeakerEmotion::Happy, None, 0, 1, 0)
    &&& option_is(m[4].choices@[0], "太感謝了！"@, None, true, 0)
    &&& m[4].choices@[0].condition is None
}

/// Dialogue 205, 「夜市大廚：感謝」: 5 nodes from node 0.
fn create_chef_end() -> (t: DialogueTree)
    ensures
        t.id == 205,
        t.name@ == "夜市大廚：感謝"@,
        t.start_node == 0,
        t.nodes@.dom() == Set::new(|k: u32| k < 5),
        t.on_complete@.len() == 0,
        tree_closed(&t),
        chef_end_lines(t.nodes@),
        end_reachable(&t),
        has_relationship_change(&t),
        has_relationship_gate(&t),
{
    let npc = DialogueSpeaker::Npc(NPC_NIGHT_MARKET_CHEF);
    let mut tree = DialogueTree::new(205, "夜市大廚：感謝");

    tree.add_node(
        DialogueNode::new(0, npc, "太厲害了！全部準時送到！客人都說讚！")
            .with_emotion(SpeakerEmotion::Happy)
            .with_next_node(1),
    );

    tree.add_node(
        DialogueNode::new(1, npc, "這是你的報酬，辛苦了！以後有空常來吃喔！")
            .with_emotion(SpeakerEmotion::Happy)
            .with_choice(
                DialogueChoice::simple("舉手之勞", 2)
                    .with_consequence(DialogueConsequence::ChangeRelationship {
                        npc_id: NPC_NIGHT_MARKET_CHEF,
                        delta: 5,
                    }),
            )
            .with_choice(
                DialogueChoice::simple("你的蚵仔煎真的很好吃", 3)
                    .with_consequence(DialogueConsequence::ChangeRelationship {
                        npc_id: NPC_NIGHT_MARKET_CHEF,
                        delta: 10,
                    }),
            )
            .with_choice(
                DialogueChoice::simple("以後可以打折嗎？", 4)
                    .with_condition(DialogueCondition::RelationshipMin {
                        npc_id: NPC_NIGHT_MARKET_CHEF,
                        min: 15,
                    })
                    .with_consequence(DialogueConsequence::ChangeRelationship {
                        npc_id: NPC_NIGHT_MARKET_CHEF,
                        delta: 10,
                    })
                    .with_consequence(DialogueConsequence::SetStoryFlag {
                        flag: "night_market_discount".to_owned(),
                        value: true,
                    }),
            ),
    );

    tree.add_node(
        DialogueNode::new(2, npc, "你人真好！下次來我多煎一份給你！")
            .with_emotion(SpeakerEmotion::Happy)
            .with_choice(DialogueChoice::end("好的，謝啦")),
    );

    tree.add_node(
        DialogueNode::new(3, npc, "哈哈！識貨！下次來我教你我的獨門醬料配方！")
            .with_emotion(SpeakerEmotion::Happy)
            .with_choice(
                DialogueChoice::end("一言為定")
                    .with_consequence(DialogueConsequence::SetStoryFlag {
                        flag: "chef_secret_recipe".to_owned(),
                        value: true,
                    }),
            ),
    );

    tree.add_node(
        DialogueNode::new(4, npc, "打折？看在你今天幫了大忙的份上——以後來都半價！")
            .with_emotion(SpeakerEmotion::Happy)
            .with_choice(DialogueChoice::end("太感謝了！")),
    );

    assert(tree.nodes@.dom() =~= Set::new(|k: u32| k < 5));
    proof {
        let m = tree.nodes@;
        assert(m[2].choices@[0].ends_dialogue);
        assert(reaches_end(m, 2, 0));
        assert(m[1].choices@[0].next_node == Some(2u32));
        assert(reaches_end(m, 1, 1));
        assert(reaches_end(m, 0, 2));
        assert(m[1].choices@[0].consequences@[0] is ChangeRelationship);
        assert(m[1].choices@[2].condition matches Some(DialogueCondition::RelationshipMin { .. }));
    }
    tree
}

/// Every node of dialogue 206 「大叔：求助」: speaker, line, mood, next node and options.
pub open spec fn dog_uncle_start_lines(m: Map<u32, DialogueNode>) -> bool {
    let npc = DialogueSpeaker::Npc(NPC_STRAY_DOG_UNCLE);
    &&& node_is(m[0], 0, npc, "年輕人，你看到那邊那幾個人了嗎？他們一直在欺負這些流浪狗……"@, SpeakerEmotion::Angry, Some(1u32), 0, 0, 0)
    &&& node_is(m[1], 1, npc, "我老了，打不過他們。你能不能幫我教訓教訓他們？拜託了。"@, SpeakerEmotion::Sad, None, 0, 3, 0)
    &&& option_is(m[1].choices@[0], "虐待動物的人最可惡！交給我"@, Some(2u32), false, 1)
    &&& m[1].choices@[0].condition is None
    &&& m[1].choices@[0].consequences@[0]
        == DialogueConsequence::ChangeRelationship { npc_id: NPC_STRAY_DOG_UNCLE, delta: 15 }
    &&& option_is(m[1].choices@[1], "我來處理"@, Some(3u32), false, 1)
    &&& m[1].choices@[1].condition is None
    &&& m[1].choices@[1].consequences@[0]
        == DialogueConsequence::ChangeRelationship { npc_id: NPC_STRAY_DOG_UNCLE, delta: 5 }
    &&& option_is(m[1].choices@[2], "你為什麼不自己去報警？"@, Some(4u32), false, 1)
    &&& m[1].choices@[2].condition is None
    &&& m[1].choices@[2].consequences@[0]
        == DialogueConsequence::ChangeRelationship { npc_id: NPC_STRAY_DOG_UNCLE, delta: -5i32 }
    &&& node_is(m[2], 2, npc, "好孩子！這些狗狗都是有感情的，牠們不該被這樣對待！"@, SpeakerEmotion::Happy, None, 0, 1, 0)
    &&& option_is(m[2].choices@[0], "我這就去"@, None, true, 0)
    &&& m[2].choices@[0].condition is None
    &&& node_is(m[3], 3, npc, "謝謝你，年輕人。小心一點。"@, SpeakerEmotion::Neutral, None, 0, 1, 0)
    &&& option_is(m[3].choices@[0], "放心"@, None, true, 0)
    &&& m[3].choices@[0].condition is None
    &&& node_is(m[4], 4, npc, "報警？上次報警警察說「只是流浪狗」就不理了。牠們也是生命啊……"@, SpeakerEmotion::Sad, None, 0, 2, 0)
    &&& option_is(m[4].choices@[0], "你說得對，我去教訓他們"@, Some(2u32), false, 1)
    &&& m[4].choices@[0].condition is None
    &&& m[4].choices@[0].consequences@[0]
        == DialogueConsequence::ChangeRelationship { npc_id: NPC_STRAY_DOG_UNCLE, delta: 10 }
    &&& option_is(m[4].choices@[1], "抱歉，我幫不了"@, Some(5u32), false, 1)
    &&& m[4].choices@[1].condition is None
    &&& m[4].choices@[1].consequences@[0]
        == DialogueConsequence::ChangeRelationship { npc_id: NPC_STRAY_DOG_UNCLE, delta: -10i32 }
    &&& node_is(m[5], 5, npc, "唉……算了……"@, SpeakerEmotion::Sad, None, 0, 1, 0)
    &&& option_is(m[5].choices@[0], "離開"@, None, true, 0)
    &&& m[5].choices@[0].condition is None
}

/// Dialogue 206, 「大叔：求助」: 6 nodes from node 0.
fn create_dog_uncle_start() -> (t: DialogueTree)
    ensures
        t.id == 206,
        t.name@ == "大叔：求助"@,
        t.start_node == 0,
        t.nodes@.dom() == Set::new(|k: u32| k < 6),
        t.on_complete@.len() == 0,
        tree_closed(&t),
        dog_uncle_start_lines(t.nodes@),
        end_reachable(&t),
        has_branch(&t),
{
    let npc = DialogueSpeaker::Npc(NPC_STRAY_DOG_UNCLE);
    let mut tree = DialogueTree::new(206, "大叔：求助");

    tree.add_node(
        DialogueNode::new(0, npc, "年輕人，你看到那邊那幾個人了嗎？他們一直在欺負這些流浪狗……")
            .with_emotion(SpeakerEmotion::Angry)
            .with_next_node(1),
    );

    tree.add_node(
        DialogueNode::new(1, npc, "我老了，打不過他們。你能不能幫我教訓教訓他們？拜託了。")
            .with_emotion(SpeakerEmotion::Sad)
            .with_choice(
                DialogueChoice::simple("虐待動物的人最可惡！交給我", 2)
                    .with_consequence(DialogueConsequence::ChangeRelationship {
                        npc_id: NPC_STRAY_DOG_UNCLE,
                        delta: 15,
                    }),
            )
            .with_choice(
                DialogueChoice::simple("我來處理", 3)
                    .with_consequence(DialogueConsequence::ChangeRelationship {
                        npc_id: NPC_STRAY_DOG_UNCLE,
                        delta: 5,
                    }),
            )
            .with_choice(
                DialogueChoice::simple("你為什麼不自己去報警？", 4)
                    .with_consequence(DialogueConsequence::ChangeRelationship {
                        npc_id: NPC_STRAY_DOG_UNCLE,
                        delta: -5,
                    }),
            ),
    );

    tree.add_node(
        DialogueNode::new(2, npc, "好孩子！這些狗狗都是有感情的，牠們不該被這樣對待！")
            .with_emotion(SpeakerEmotion::Happy)
            .with_choice(DialogueChoice::end("我這就去")),
    );

    tree.add_node(
        DialogueNode::new(3, npc, "謝謝你，年輕人。小心一點。")
            .with_emotion(SpeakerEmotion::Neutral)
            .with_choice(DialogueChoice::end("放心")),
    );

    tree.add_node(
        DialogueNode::new(4, npc, "報警？上次報警警察說「只是流浪狗」就不理了。牠們也是生命啊……")
            .with_emotion(SpeakerEmotion::Sad)
            .with_choice(
                DialogueChoice::simple("你說得對，我去教訓他們", 2)
                    .with_consequence(DialogueConsequence::ChangeRelationship {
                        npc_id: NPC_STRAY_DOG_UNCLE,
                        delta: 10,
                    }),
            )
            .with_choice(
                DialogueChoice::simple("抱歉，我幫不了", 5)
                    .with_consequence(DialogueConsequence::ChangeRelationship {
                        npc_id: NPC_STRAY_DOG_UNCLE,
                        delta: -10,
                    }),
            ),
    );

    tree.add_node(
        DialogueNode::new(5, npc, "唉……算了……")
            .with_emotion(SpeakerEmotion::Sad)
            .with_choice(DialogueChoice::end("離開")),
    );

    assert(tree.nodes@.dom() =~= Set::new(|k: u32| k < 6));
    proof {
        let m = tree.nodes@;
        assert(m[2].choices@[0].ends_dialogue);
        assert(reaches_end(m, 2, 0));
        assert(m[1].choices@[0].next_node == Some(2u32));
        assert(reaches_end(m, 1, 1));
        assert(reaches_end(m, 0, 2));
        assert(m.contains_key(1));
    }
    tree
}

/// Every node of dialogue 207 「大叔：感謝」: speaker, line, mood, next node and options.
pub open spec fn dog_uncle_end_lines(m: Map<u32, DialogueNode>) -> bool {
    let npc = DialogueSpeaker::Npc(NPC_STRAY_DOG_UNCLE);
    &&& node_is(m[0], 0, npc, "太好了！那些混蛋跑了！你看，狗狗們都在搖尾巴呢！"@, SpeakerEmotion::Happy, Some(1u32), 0, 0, 0)
    &&& node_is(m[1], 1, npc, "我沒什麼錢，但這個是我的一點心意。謝謝你，年輕人。"@, SpeakerEmotion::Happy, None, 0, 3, 0)
    &&& option_is(m[1].choices@[0], "照顧好狗狗們"@, Some(2u32), false, 1)
    &&& m[1].choices@[0].condition is None
    &&& m[1].choices@[0].consequences@[0]
        == DialogueConsequence::ChangeRelationship { npc_id: NPC_STRAY_DOG_UNCLE, delta: 10 }
    &&& option_is(m[1].choices@[1], "不用客氣"@, Some(3u32), false, 0)
    &&& m[1].choices@[1].condition is None
    &&& option_is(m[1].choices@[2], "以後我也想來幫忙餵狗"@, Some(4u32), false, 2)
    &&& m[1].choices@[2].condition == Some(
        DialogueCondition::RelationshipMin { npc_id: NPC_STRAY_DOG_UNCLE, min: 20 },
    )
    &&& m[1].choices@[2].consequences@[0]
        == DialogueConsequence::ChangeRelationship { npc_id: NPC_STRAY_DOG_UNCLE, delta: 20 }
    &&& sets_flag(m[1].choices@[2].consequences@[1], "dog_volunteer"@, true)
    &&& node_is(m[2], 2, npc, "放心，我會的。牠們就像我的家人一樣。"@, SpeakerEmotion::Happy, None, 0, 1, 0)
    &&& option_is(m[2].choices@[0], "再見，大叔"@, None, true, 1)
    &&& m[2].choices@[0].condition is None
    &&& sets_flag(m[2].choices@[0].consequences@[0], "dog_uncle_friend"@, true)
    &&& node_is(m[3], 3, npc, "好人有好報！"@, SpeakerEmotion::Happy, None, 0, 1, 0)
    &&& option_is(m[3].choices@[0], "再見"@, None, true, 0)
    &&& m[3].choices@[0].condition is None
    &&& node_is(m[4], 4, npc, "真的嗎！？太好了！你隨時都可以來！狗狗們肯定會很高興的！"@, SpeakerEmotion::Surprised, None, 0, 1, 0)
    &&& option_is(m[4].choices@[0], "一言為定！"@, None, true, 0)
    &&& m[4].choices@[0].condition is None
}

/// Dialogue 207, 「大叔：感謝」: 5 nodes from node 0.
fn create_dog_uncle_end() -> (t: DialogueTree)
    ensures
        t.id == 207,
        t.name@ == "大叔：感謝"@,
        t.start_node == 0,
        t.nodes@.dom() == Set::new(|k: u32| k < 5),
        t.on_complete@.len() == 0,
        tree_closed(&t),
        dog_uncle_end_lines(t.nodes@),
        end_reachable(&t),
        has_relationship_change(&t),
        has_relationship_gate(&t),
{
    let npc = DialogueSpeaker::Npc(NPC_STRAY_DOG_UNCLE);
    let mut tree = DialogueTree::new(207, "大叔：感謝");

    tree.add_node(
        DialogueNode::new(0, npc, "太好了！那些混蛋跑了！你看，狗狗們都在搖尾巴呢！")
            .with_emotion(SpeakerEmotion::Happy)
            .with_next_node(1),
    );

    tree.add_node(
        DialogueNode::new(1, npc, "我沒什麼錢，但這個是我的一點心意。謝謝你，年輕人。")
            .with_emotion(SpeakerEmotion::Happy)
            .with_choice(
                DialogueChoice::simple("照顧好狗狗們", 2)
                    .with_consequence(DialogueConsequence::ChangeRelationship {
                        npc_id: NPC_STRAY_DOG_UNCLE,
                        delta: 10,
                    }),
            )
            .with_choice(
                DialogueChoice::simple("不用客氣", 3),
            )
            .with_choice(
                DialogueChoice::simple("以後我也想來幫忙餵狗", 4)
                    .with_condition(DialogueCondition::RelationshipMin {
                        npc_id: NPC_STRAY_DOG_UNCLE,
                        min: 20,
                    })
                    .with_consequence(DialogueConsequence::ChangeRelationship {
                        npc_id: NPC_STRAY_DOG_UNCLE,
                        delta: 20,
                    })
                    .with_consequence(DialogueConsequence::SetStoryFlag {
                        flag: "dog_volunteer".to_owned(),
                        value: true,
                    }),
            ),
    );

    tree.add_node(
        DialogueNode::new(2, npc, "放心，我會的。牠們就像我的家人一樣。")
            .with_emotion(SpeakerEmotion::Happy)
            .with_choice(
                DialogueChoice::end("再見，大叔")
                    .with_consequence(DialogueConsequence::SetStoryFlag {
                        flag: "dog_uncle_friend".to_owned(),
                        value: true,
                    }),
            ),
    );

    tree.add_node(
        DialogueNode::new(3, npc, "好人有好報！")
            .with_emotion(SpeakerEmotion::Happy)
            .with_choice(DialogueChoice::end("再見")),
    );

    tree.add_node(
        DialogueNode::new(4, npc, "真的嗎！？太好了！你隨時都可以來！狗狗們肯定會很高興的！")
            .with_emotion(SpeakerEmotion::Surprised)
            .with_choice(DialogueChoice::end("一言為定！")),
    );

    assert(tree.nodes@.dom() =~= Set::new(|k: u32| k < 5));
    proof {
        let m = tree.nodes@;
        assert(m[2].choices@[0].ends_dialogue);
        assert(reaches_end(m, 2, 0));
        assert(m[1].choices@[0].next_node == Some(2u32));
        assert(reaches_end(m, 1, 1));
        assert(reaches_end(m, 0, 2));
        assert(m[1].choices@[0].consequences@[0] is ChangeRelationship);
        assert(m[1].choices@[2].condition matches Some(DialogueCondition::RelationshipMin { .. }));
    }
    tree
}

/// Every node of dialogue 208 「飆車族：挑戰」: speaker, line, mood, next node and options.
pub open spec fn racer_start_lines(m: Map<u32, DialogueNode>) -> bool {
    let npc = DialogueSpeaker::Npc(NPC_STREET_RACER);
    &&& node_is(m[0], 0, npc, "喲！你就是最近在島上鬧很兇的那個？"@, SpeakerEmotion::Smirk, Some(1u32), 0, 0, 0)
    &&& node_is(m[1], 1, npc, "我是海岸線車隊的頭。聽說你車開得不錯？來跟我比一場怎樣？有膽就來！"@, SpeakerEmotion::Smirk, None, 0, 3, 0)
    &&& option_is(m[1].choices@[0], "來就來，誰怕誰！"@, Some(2u32), false, 1)
    &&& m[1].choices@[0].condition is None
    &&& m[1].choices@[0].consequences@[0]
        == DialogueConsequence::ChangeRelationship { npc_id: NPC_STREET_RACER, delta: 10 }
    &&& option_is(m[1].choices@[1], "賭注加碼，敢不敢？"@, Some(3u32), false, 1)
    &&& m[1].choices@[1].condition == Some(DialogueCondition::HasMoney(1000))
    &&& m[1].choices@[1].consequences@[0]
        == DialogueConsequence::ChangeRelationship { npc_id: NPC_STREET_RACER, delta: 5 }
    &&& option_is(m[1].choices@[2], "我沒興趣跟你比"@, Some(4u32), false, 1)
    &&& m[1].choices@[2].condition is None
    &&& m[1].choices@[2].consequences@[0]
        == DialogueConsequence::ChangeRelationship { npc_id: NPC_STREET_RACER, delta: -10i32 }
    &&& node_is(m[2], 2, npc, "哈！有種！起點在這裡，終點在南邊的燈塔。輸的人請客！"@, SpeakerEmotion::Happy, None, 0, 1, 0)
    &&& option_is(m[2].choices@[0], "準備好了，開始吧"@, None, true, 0)
    &&& m[2].choices@[0].condition is None
    &&& node_is(m[3], 3, npc, "喔？有膽量！好，賭注翻倍！你贏了我給你雙倍獎金。你輸了……嘿嘿。"@, SpeakerEmotion::Smirk, None, 0, 2, 0)
    &&& option_is(m[3].choices@[0], "成交！"@, Some(2u32), false, 1)
    &&& m[3].choices@[0].condition is None
    &&& sets_flag(m[3].choices@[0].consequences@[0], "racer_double_bet"@, true)
    &&& option_is(m[3].choices@[1], "算了，一般賭注就好"@, Some(2u32), false, 0)
    &&& m[3].choices@[1].condition is None
    &&& node_is(m[4], 4, npc, "切！膽小鬼。不敢就別在島上混。"@, SpeakerEmotion::Angry, None, 0, 2, 0)
    &&& option_is(m[4].choices@[0], "你說誰膽小！我來！"@, Some(2u32), false, 1)
    &&& m[4].choices@[0].condition is None
    &&& m[4].choices@[0].consequences@[0]
        == DialogueConsequence::ChangeRelationship { npc_id: NPC_STREET_RACER, delta: 15 }
    &&& option_is(m[4].choices@[1], "隨便你"@, None, true, 0)
    &&& m[4].choices@[1].condition is None
}

/// Dialogue 208, 「飆車族：挑戰」: 5 nodes from node 0.
fn create_racer_start() -> (t: DialogueTree)
    ensures
        t.id == 208,
        t.name@ == "飆車族：挑戰"@,
        t.start_node == 0,
        t.nodes@.dom() == Set::new(|k: u32| k < 5),
        t.on_complete@.len() == 0,
        tree_closed(&t),
        racer_start_lines(t.nodes@),
        end_reachable(&t),
        has_branch(&t),
{
    let npc = DialogueSpeaker::Npc(NPC_STREET_RACER);
    let mut tree = DialogueTree::new(208, "飆車族：挑戰");

    tree.add_node(
        DialogueNode::new(0, npc, "喲！你就是最近在島上鬧很兇的那個？")
            .with_emotion(SpeakerEmotion::Smirk)
            .with_next_node(1),
    );

    tree.add_node(
        DialogueNode::new(1, npc, "我是海岸線車隊的頭。聽說你車開得不錯？來跟我比一場怎樣？有膽就來！")
            .with_emotion(SpeakerEmotion::Smirk)
            .with_choice(
                DialogueChoice::simple("來就來，誰怕誰！", 2)
                    .with_consequence(DialogueConsequence::ChangeRelationship {
                        npc_id: NPC_STREET_RACER,
                        delta: 10,
                    }),
            )
            .with_choice(
                DialogueChoice::simple("賭注加碼，敢不敢？", 3)
                    .with_condition(DialogueCondition::HasMoney(1000))
                    .with_consequence(DialogueConsequence::ChangeRelationship {
                        npc_id: NPC_STREET_RACER,
                        delta: 5,
                    }),
            )
            .with_choice(
                DialogueChoice::simple("我沒興趣跟你比", 4)
                    .with_consequence(DialogueConsequence::ChangeRelationship {
                        npc_id: NPC_STREET_RACER,
                        delta: -10,
                    }),
            ),
    );

    tree.add_node(
        DialogueNode::new(2, npc, "哈！有種！起點在這裡，終點在南邊的燈塔。輸的人請客！")
            .with_emotion(SpeakerEmotion::Happy)
            .with_choice(DialogueChoice::end("準備好了，開始吧")),
    );

    tree.add_node(
        DialogueNode::new(3, npc, "喔？有膽量！好，賭注翻倍！你贏了我給你雙倍獎金。你輸了……嘿嘿。")
            .with_emotion(SpeakerEmotion::Smirk)
            .with_choice(
                DialogueChoice::simple("成交！", 2)
                    .with_consequence(DialogueConsequence::SetStoryFlag {
                        flag: "racer_double_bet".to_owned(),
                        value: true,
                    }),
            )
            .with_choice(DialogueChoice::simple("算了，一般賭注就好", 2)),
    );

    tree.add_node(
        DialogueNode::new(4, npc, "切！膽小鬼。不敢就別在島上混。")
            .with_emotion(SpeakerEmotion::Angry)
            .with_choice(
                DialogueChoice::simple("你說誰膽小！我來！", 2)
                    .with_consequence(DialogueConsequence::ChangeRelationship {
                        npc_id: NPC_STREET_RACER,
                        delta: 15,
                    }),
            )
            .with_choice(DialogueChoice::end("隨便你")),
    );

    assert(tree.nodes@.dom() =~= Set::new(|k: u32| k < 5));
    proof {
        let m = tree.nodes@;
        assert(m[2].choices@[0].ends_dialogue);
        assert(reaches_end(m, 2, 0));
        assert(m[1].choices@[0].next_node == Some(2u32));
        assert(reaches_end(m, 1, 1));
        assert(reaches_end(m, 0, 2));
        assert(m.contains_key(1));
    }
    tree
}

/// Every node of dialogue 209 「飆車族：認輸」: speaker, line, mood, next node and options.
pub open spec fn racer_end_lines(m: Map<u32, DialogueNode>) -> bool {
    let npc = DialogueSpeaker::Npc(NPC_STREET_RACER);
    &&& node_is(m[0], 0, npc, "靠！你真的贏了！我都不敢相信……那幾個彎你是怎麼過的！？"@, SpeakerEmotion::Surprised, Some(1u32), 0, 0, 0)
    &&& node_is(m[1], 1, npc, "行，你夠厲害。這是賭金，一毛不少。"@, SpeakerEmotion::Serious, None, 0, 3, 0)
    &&& option_is(m[1].choices@[0], "承讓了"@, Some(2u32), false, 1)
    &&& m[1].choices@[0].condition is None
    &&& m[1].choices@[0].consequences@[0]
        == DialogueConsequence::ChangeRelationship { npc_id: NPC_STREET_RACER, delta: 5 }
    &&& option_is(m[1].choices@[1], "下次再來一場！"@, Some(3u32), false, 1)
    &&& m[1].choices@[1].condition is None
    &&& m[1].choices@[1].consequences@[0]
        == DialogueConsequence::ChangeRelationship { npc_id: NPC_STREET_RACER, delta: 10 }
    &&& option_is(m[1].choices@[2], "想不想加入我？"@, Some(4u32), false, 2)
    &&& m[1].choices@[2].condition == Some(
        DialogueCondition::RelationshipMin { npc_id: NPC_STREET_RACER, min: 15 },
    )
    &&& m[1].choices@[2].consequences@[0]
        == DialogueConsequence::ChangeRelationship { npc_id: NPC_STREET_RACER, delta: 20 }
    &&& sets_flag(m[1].choices@[2].consequences@[1], "racer_ally"@, true)
    &&& node_is(m[2], 2, npc, "哼，下次我不會輸的。"@, SpeakerEmotion::Serious, None, 0, 1, 0)
    &&& option_is(m[2].choices@[0], "期待"@, None, true, 0)
    &&& m[2].choices@[0].condition is None
    &&& node_is(m[3], 3, npc, "哈！你有種！好，下次我用我的改裝車來，看誰快！"@, SpeakerEmotion::Smirk, None, 0, 1, 0)
    &&& option_is(m[3].choices@[0], "隨時奉陪"@, None, true, 1)
    &&& m[3].choices@[0].condition is None
    &&& sets_flag(m[3].choices@[0].consequences@[0], "racer_rematch"@, true)
    &&& node_is(m[4], 4, npc, "加入你？……你是認真的？嗯……你開車確實比我強。好！以後你就是老大！"@, SpeakerEmotion::Surprised, None, 0, 1, 0)
    &&& option_is(m[4].choices@[0], "歡迎加入"@, None, true, 0)
    &&& m[4].choices@[0].condition is None
}

/// Dialogue 209, 「飆車族：認輸」: 5 nodes from node 0.
fn create_racer_end() -> (t: DialogueTree)
    ensures
        t.id == 209,
        t.name@ == "飆車族：認輸"@,
        t.start_node == 0,
        t.nodes@.dom() == Set::new(|k: u32| k < 5),
        t.on_complete@.len() == 0,
        tree_closed(&t),
        racer_end_lines(t.nodes@),
        end_reachable(&t),
        has_relationship_change(&t),
        has_relationship_gate(&t),
{
    let npc = DialogueSpeaker::Npc(NPC_STREET_RACER);
    let mut tree = DialogueTree::new(209, "飆車族：認輸");

    tree.add_node(
        DialogueNode::new(0, npc, "靠！你真的贏了！我都不敢相信……那幾個彎你是怎麼過的！？")
            .with_emotion(SpeakerEmotion::Surprised)
            .with_next_node(1),
    );

    tree.add_node(
        DialogueNode::new(1, npc, "行，你夠厲害。這是賭金，一毛不少。")
            .with_emotion(SpeakerEmotion::Serious)
            .with_choice(
                DialogueChoice::simple("承讓了", 2)
                    .with_consequence(DialogueConsequence::ChangeRelationship {
                        npc_id: NPC_STREET_RACER,
                        delta: 5,
                    }),
            )
            .with_choice(
                DialogueChoice::simple("下次再來一場！", 3)
                    .with_consequence(DialogueConsequence::ChangeRelationship {
                        npc_id: NPC_STREET_RACER,
                        delta: 10,
                    }),
            )
            .with_choice(
                DialogueChoice::simple("想不想加入我？", 4)
                    .with_condition(DialogueCondition::RelationshipMin {
                        npc_id: NPC_STREET_RACER,
                        min: 15,
                    })
                    .with_consequence(DialogueConsequence::ChangeRelationship {
                        npc_id: NPC_STREET_RACER,
                        delta: 20,
                    })
                    .with_consequence(DialogueConsequence::SetStoryFlag {
                        flag: "racer_ally".to_owned(),
                        value: true,
                    }),
            ),
    );

    tree.add_node(
        DialogueNode::new(2, npc, "哼，下次我不會輸的。")
            .with_emotion(SpeakerEmotion::Serious)
            .with_choice(DialogueChoice::end("期待")),
    );

    tree.add_node(
        DialogueNode::new(3, npc, "哈！你有種！好，下次我用我的改裝車來，看誰快！")
            .with_emotion(SpeakerEmotion::Smirk)
            .with_choice(
                DialogueChoice::end("隨時奉陪")
                    .with_consequence(DialogueConsequence::SetStoryFlag {
                        flag: "racer_rematch".to_owned(),
                        value: true,
                    }),
            ),
    );

    tree.add_node(
        DialogueNode::new(4, npc, "加入你？……你是認真的？嗯……你開車確實比我強。好！以後你就是老大！")
            .with_emotion(SpeakerEmotion::Surprised)
            .with_choice(DialogueChoice::end("歡迎加入")),
    );

    assert(tree.nodes@.dom() =~= Set::new(|k: u32| k < 5));
    proof {
        let m = tree.nodes@;
        assert(m[2].choices@[0].ends_dialogue);
        assert(reaches_end(m, 2, 0));
        assert(m[1].choices@[0].next_node == Some(2u32));
        assert(reaches_end(m, 1, 1));
        assert(reaches_end(m, 0, 2));
        assert(m[1].choices@[0].consequences@[0] is ChangeRelationship);
        assert(m[1].choices@[2].condition matches Some(DialogueCondition::RelationshipMin { .. }));
    }
    tree
}

/// Every node of dialogue 210 「部落客：真相」: speaker, line, mood, next node and options.
pub open spec fn blogger_start_lines(m: Map<u32, DialogueNode>) -> bool {
    let npc = DialogueSpeaker::Npc(NPC_CONSPIRACY_BLOGGER);
    &&& node_is(m[0], 0, npc, "噓！你！對，就是你！過來過來！"@, SpeakerEmotion::Afraid, Some(1u32), 0, 0, 0)
    &&& node_is(m[1], 1, npc, "這座島有秘密！政府不想讓你知道的那種！我發現了三個可疑地點——廢棄工廠、山上電塔、港口貨櫃——都有異常電磁波！"@, SpeakerEmotion::Surprised, Some(2u32), 0, 0, 0)
    &&& node_is(m[2], 2, npc, "我需要有人去現場拍照蒐證。你願意幫我揭發真相嗎！？"@, SpeakerEmotion::Serious, None, 0, 3, 0)
    &&& option_is(m[2].choices@[0], "聽起來很有趣，我去查查"@, Some(3u32), false, 1)
    &&& m[2].choices@[0].condition is None
    &&& m[2].choices@[0].consequences@[0]
        == DialogueConsequence::ChangeRelationship { npc_id: NPC_CONSPIRACY_BLOGGER, delta: 10 }
    &&& option_is(m[2].choices@[1], "你是不是想太多了？"@, Some(4u32), false, 1)
    &&& m[2].choices@[1].condition is None
    &&& m[2].choices@[1].consequences@[0]
        == DialogueConsequence::ChangeRelationship { npc_id: NPC_CONSPIRACY_BLOGGER, delta: -10i32 }
    &&& option_is(m[2].choices@[2], "有報酬嗎？"@, Some(5u32), false, 0)
    &&& m[2].choices@[2].condition is None
    &&& node_is(m[3], 3, npc, "太好了！你是第一個相信我的人！去這三個地方看看，有什麼發現回來告訴我！"@, SpeakerEmotion::Happy, None, 0, 1, 0)
    &&& option_is(m[3].choices@[0], "我這就去"@, None, true, 0)
    &&& m[3].choices@[0].condition is None
    &&& node_is(m[4], 4, npc, "想太多！？你看看我的鋁箔帽！這是防止他們讀取腦波的！你去看了就知道我說的是真的！"@, SpeakerEmotion::Angry, None, 0, 2, 0)
    &&& option_is(m[4].choices@[0], "好吧，我去看看總行了吧"@, Some(3u32), false, 1)
    &&& m[4].choices@[0].condition is None
    &&& m[4].choices@[0].consequences@[0]
        == DialogueConsequence::ChangeRelationship { npc_id: NPC_CONSPIRACY_BLOGGER, delta: 5 }
    &&& option_is(m[4].choices@[1], "你需要看醫生"@, Some(6u32), false, 1)
    &&& m[4].choices@[1].condition is None
    &&& m[4].choices@[1].consequences@[0]
        == DialogueConsequence::ChangeRelationship { npc_id: NPC_CONSPIRACY_BLOGGER, delta: -15i32 }
    &&& node_is(m[5], 5, npc, "報酬？真相就是最好的報酬！……好啦，我部落格有贊助商，事成之後分你一點。"@, SpeakerEmotion::Thinking, None, 0, 1, 0)
    &&& option_is(m[5].choices@[0], "好，成交"@, Some(3u32), false, 1)
    &&& m[5].choices@[0].condition is None
    &&& m[5].choices@[0].consequences@[0]
        == DialogueConsequence::ChangeRelationship { npc_id: NPC_CONSPIRACY_BLOGGER, delta: 5 }
    &&& node_is(m[6], 6, npc, "他們都這樣說！你也是他們的人！走開！"@, SpeakerEmotion::Angry, None, 0, 1, 0)
    &&& option_is(m[6].choices@[0], "告辭"@, None, true, 0)
    &&& m[6].choices@[0].condition is None
}

/// Dialogue 210, 「部落客：真相」: 7 nodes from node 0.
fn create_blogger_start() -> (t: DialogueTree)
    ensures
        t.id == 210,
        t.name@ == "部落客：真相"@,
        t.start_node == 0,
        t.nodes@.dom() == Set::new(|k: u32| k < 7),
        t.on_complete@.len() == 0,
        tree_closed(&t),
        blogger_start_lines(t.nodes@),
        end_reachable(&t),
        has_branch(&t),
{
    let npc = DialogueSpeaker::Npc(NPC_CONSPIRACY_BLOGGER);
    let mut tree = DialogueTree::new(210, "部落客：真相");

    tree.add_node(
        DialogueNode::new(0, npc, "噓！你！對，就是你！過來過來！")
            .with_emotion(SpeakerEmotion::Afraid)
            .with_next_node(1),
    );

    tree.add_node(
        DialogueNode::new(1, npc, "這座島有秘密！政府不想讓你知道的那種！我發現了三個可疑地點——廢棄工廠、山上電塔、港口貨櫃——都有異常電磁波！")
            .with_emotion(SpeakerEmotion::Surprised)
            .with_next_node(2),
    );

    tree.add_node(
        DialogueNode::new(2, npc, "我需要有人去現場拍照蒐證。你願意幫我揭發真相嗎！？")
            .with_emotion(SpeakerEmotion::Serious)
            .with_choice(
                DialogueChoice::simple("聽起來很有趣，我去查查", 3)
                    .with_consequence(DialogueConsequence::ChangeRelationship {
                        npc_id: NPC_CONSPIRACY_BLOGGER,
                        delta: 10,
                    }),
            )
            .with_choice(
                DialogueChoice::simple("你是不是想太多了？", 4)
                    .with_consequence(DialogueConsequence::ChangeRelationship {
                        npc_id: NPC_CONSPIRACY_BLOGGER,
                        delta: -10,
                    }),
            )
            .with_choice(
                DialogueChoice::simple("有報酬嗎？", 5),
            ),
    );

    tree.add_node(
        DialogueNode::new(3, npc, "太好了！你是第一個相信我的人！去這三個地方看看，有什麼發現回來告訴我！")
            .with_emotion(SpeakerEmotion::Happy)
            .with_choice(DialogueChoice::end("我這就去")),
    );

    tree.add_node(
        DialogueNode::new(4, npc, "想太多！？你看看我的鋁箔帽！這是防止他們讀取腦波的！你去看了就知道我說的是真的！")
            .with_emotion(SpeakerEmotion::Angry)
            .with_choice(
                DialogueChoice::simple("好吧，我去看看總行了吧", 3)
                    .with_consequence(DialogueConsequence::ChangeRelationship {
                        npc_id: NPC_CONSPIRACY_BLOGGER,
                        delta: 5,
                    }),
            )
            .with_choice(
                DialogueChoice::simple("你需要看醫生", 6)
                    .with_consequence(DialogueConsequence::ChangeRelationship {
                        npc_id: NPC_CONSPIRACY_BLOGGER,
                        delta: -15,
                    }),
            ),
    );

    tree.add_node(
        DialogueNode::new(5, npc, "報酬？真相就是最好的報酬！……好啦，我部落格有贊助商，事成之後分你一點。")
            .with_emotion(SpeakerEmotion::Thinking)
            .with_choice(
                DialogueChoice::simple("好，成交", 3)
                    .with_consequence(DialogueConsequence::ChangeRelationship {
                        npc_id: NPC_CONSPIRACY_BLOGGER,
                        delta: 5,
                    }),
            ),
    );

    tree.add_node(
        DialogueNode::new(6, npc, "他們都這樣說！你也是他們的人！走開！")
            .with_emotion(SpeakerEmotion::Angry)
            .with_choice(DialogueChoice::end("告辭")),
    );

    assert(tree.nodes@.dom() =~= Set::new(|k: u32| k < 7));
    proof {
        let m = tree.nodes@;
        assert(m[3].choices@[0].ends_dialogue);
        assert(reaches_end(m, 3, 0));
        assert(m[2].choices@[0].next_node == Some(3u32));
        assert(reaches_end(m, 2, 1));
        assert(reaches_end(m, 1, 2));
        assert(reaches_end(m, 0, 3));
        assert(m.contains_key(2));
    }
    tree
}

/// Every node of dialogue 211 「部落客：發現」: speaker, line, mood, next node and options.
pub open spec fn blogger_end_lines(m: Map<u32, DialogueNode>) -> bool {
    let npc = DialogueSpeaker::Npc(NPC_CONSPIRACY_BLOGGER);
    &&& node_is(m[0], 0, npc, "你回來了！讓我看看——天啊！這些照片！我就知道！"@, SpeakerEmotion::Surprised, Some(1u32), 0, 0, 0)
    &&& node_is(m[1], 1, npc, "廢棄工廠裡有奇怪的設備、電塔發出不明訊號、港口的貨櫃都是空的卻有警衛！這絕對不正常！"@, SpeakerEmotion::Serious, None, 0, 3, 0)
    &&& option_is(m[1].choices@[0], "確實有點可疑"@, Some(2u32), false, 2)
    &&& m[1].choices@[0].condition is None
    &&& m[1].choices@[0].consequences@[0]
        == DialogueConsequence::ChangeRelationship { npc_id: NPC_CONSPIRACY_BLOGGER, delta: 10 }
    &&& sets_flag(m[1].choices@[0].consequences@[1], "believes_conspiracy"@, true)
    &&& option_is(m[1].choices@[1], "可能只是巧合吧"@, Some(3u32), false, 1)
    &&& m[1].choices@[1].condition is None
    &&& m[1].choices@[1].consequences@[0]
        == DialogueConsequence::ChangeRelationship { npc_id: NPC_CONSPIRACY_BLOGGER, delta: -5i32 }
    &&& option_is(m[1].choices@[2], "我們一起繼續調查"@, Some(4u32), false, 2)
    &&& m[1].choices@[2].condition == Some(
        DialogueCondition::RelationshipMin { npc_id: NPC_CONSPIRACY_BLOGGER, min: 15 },
    )
    &&& m[1].choices@[2].consequences@[0]
        == DialogueConsequence::ChangeRelationship { npc_id: NPC_CONSPIRACY_BLOGGER, delta: 15 }
    &&& sets_flag(m[1].choices@[2].consequences@[1], "conspiracy_partner"@, true)
    &&& node_is(m[2], 2, npc, "對吧對吧！我要把這些全部寫到部落格上！謝謝你的幫忙！這是你的報酬！"@, SpeakerEmotion::Happy, None, 0, 1, 0)
    &&& option_is(m[2].choices@[0], "小心一點"@, None, true, 0)
    &&& m[2].choices@[0].condition is None
    &&& node_is(m[3], 3, npc, "巧合？才不是！不過沒關係，我自己會繼續追查的。謝謝你的照片。"@, SpeakerEmotion::Sad, None, 0, 1, 0)
    &&& option_is(m[3].choices@[0], "隨你"@, None, true, 0)
    &&& m[3].choices@[0].condition is None
    &&& node_is(m[4], 4, npc, "真的嗎！？太好了！我一個人調查好孤獨……有你在我更有信心了！我們下次去挖更深的真相！"@, SpeakerEmotion::Happy, None, 0, 1, 0)
    &&& option_is(m[4].choices@[0], "好，隨時通知我"@, None, true, 0)
    &&& m[4].choices@[0].condition is None
}

/// Dialogue 211, 「部落客：發現」: 5 nodes from node 0.
fn create_blogger_end() -> (t: DialogueTree)
    ensures
        t.id == 211,
        t.name@ == "部落客：發現"@,
        t.start_node == 0,
        t.nodes@.dom() == Set::new(|k: u32| k < 5),
        t.on_complete@.len() == 0,
        tree_closed(&t),
        blogger_end_lines(t.nodes@),
        end_reachable(&t),
        has_relationship_change(&t),
        has_relationship_gate(&t),
{
    let npc = DialogueSpeaker::Npc(NPC_CONSPIRACY_BLOGGER);
    let mut tree = DialogueTree::new(211, "部落客：發現");

    tree.add_node(
        DialogueNode::new(0, npc, "你回來了！讓我看看——天啊！這些照片！我就知道！")
            .with_emotion(SpeakerEmotion::Surprised)
            .with_next_node(1),
    );

    tree.add_node(
        DialogueNode::new(1, npc, "廢棄工廠裡有奇怪的設備、電塔發出不明訊號、港口的貨櫃都是空的卻有警衛！這絕對不正常！")
            .with_emotion(SpeakerEmotion::Serious)
            .with_choice(
                DialogueChoice::simple("確實有點可疑", 2)
                    .with_consequence(DialogueConsequence::ChangeRelationship {
                        npc_id: NPC_CONSPIRACY_BLOGGER,
                        delta: 10,
                    })
                    .with_consequence(DialogueConsequence::SetStoryFlag {
                        flag: "believes_conspiracy".to_owned(),
                        value: true,
                    }),
            )
            .with_choice(
                DialogueChoice::simple("可能只是巧合吧", 3)
                    .with_consequence(DialogueConsequence::ChangeRelationship {
                        npc_id: NPC_CONSPIRACY_BLOGGER,
                        delta: -5,
                    }),
            )
            .with_choice(
                DialogueChoice::simple("我們一起繼續調查", 4)
                    .with_condition(DialogueCondition::RelationshipMin {
                        npc_id: NPC_CONSPIRACY_BLOGGER,
                        min: 15,
                    })
                    .with_consequence(DialogueConsequence::ChangeRelationship {
                        npc_id: NPC_CONSPIRACY_BLOGGER,
                        delta: 15,
                    })
                    .with_consequence(DialogueConsequence::SetStoryFlag {
                        flag: "conspiracy_partner".to_owned(),
                        value: true,
                    }),
            ),
    );

    tree.add_node(
        DialogueNode::new(2, npc, "對吧對吧！我要把這些全部寫到部落格上！謝謝你的幫忙！這是你的報酬！")
            .with_emotion(SpeakerEmotion::Happy)
            .with_choice(DialogueChoice::end("小心一點")),
    );

    tree.add_node(
        DialogueNode::new(3, npc, "巧合？才不是！不過沒關係，我自己會繼續追查的。謝謝你的照片。")
            .with_emotion(SpeakerEmotion::Sad)
            .with_choice(DialogueChoice::end("隨你")),
    );

    tree.add_node(
        DialogueNode::new(4, npc, "真的嗎！？太好了！我一個人調查好孤獨……有你在我更有信心了！我們下次去挖更深的真相！")
            .with_emotion(SpeakerEmotion::Happy)
            .with_choice(DialogueChoice::end("好，隨時通知我")),
    );

    assert(tree.nodes@.dom() =~= Set::new(|k: u32| k < 5));
    proof {
        let m = tree.nodes@;
        assert(m[2].choices@[0].ends_dialogue);
        assert(reaches_end(m, 2, 0));
        assert(m[1].choices@[0].next_node == Some(2u32));
        assert(reaches_end(m, 1, 1));
        assert(reaches_end(m, 0, 2));
        assert(m[1].choices@[0].consequences@[0] is ChangeRelationship);
        assert(m[1].choices@[2].condition matches Some(DialogueCondition::RelationshipMin { .. }));
    }
    tree
}

/// Name of each side-mission NPC.
pub open spec fn side_npc_name(id: u32) -> Seq<char> {
    if id == 200 {
        "檳榔西施"@
    } else if id == 201 {
        "廟公"@
    } else if id == 202 {
        "夜市大廚"@
    } else if id == 203 {
        "流浪狗大叔"@
    } else if id == 204 {
        "飆車族老大"@
    } else {
        "陰謀論部落客"@
    }
}

/// Name of side dialogue `id` (200 to 211).
pub open spec fn side_dialogue_name(id: u32) -> Seq<char> {
    if id == 200 {
        "檳榔西施：求助"@
    } else if id == 201 {
        "檳榔西施：感謝"@
    } else if id == 202 {
        "廟公：警告"@
    } else if id == 203 {
        "廟公：解劫"@
    } else if id == 204 {
        "夜市大廚：送貨"@
    } else if id == 205 {
        "夜市大廚：感謝"@
    } else if id == 206 {
        "大叔：求助"@
    } else if id == 207 {
        "大叔：感謝"@
    } else if id == 208 {
        "飆車族：挑戰"@
    } else if id == 209 {
        "飆車族：認輸"@
    } else if id == 210 {
        "部落客：真相"@
    } else {
        "部落客：發現"@
    }
}

/// Every node of side dialogue `id` (200 to 211).
pub open spec fn side_dialogue_lines(id: u32, m: Map<u32, DialogueNode>) -> bool {
    if id == 200 {
        betel_nut_start_lines(m)
    } else if id == 201 {
        betel_nut_end_lines(m)
    } else if id == 202 {
        temple_start_lines(m)
    } else if id == 203 {
        temple_end_lines(m)
    } else if id == 204 {
        chef_start_lines(m)
    } else if id == 205 {
        chef_end_lines(m)
    } else if id == 206 {
        dog_uncle_start_lines(m)
    } else if id == 207 {
        dog_uncle_end_lines(m)
    } else if id == 208 {
        racer_start_lines(m)
    } else if id == 209 {
        racer_end_lines(m)
    } else if id == 210 {
        blogger_start_lines(m)
    } else {
        blogger_end_lines(m)
    }
}

/// Registers the six side-mission NPCs (ids 200 to 205) and their twelve
/// dialogues (ids 200 to 211), each with its name and every node as its
/// builder writes it (see `side_dialogue_lines`). Every dialogue starts on
/// node 0, never jumps outside itself and can reach an end from its start.
/// Each start dialogue (even id) offers options; each end dialogue (odd id)
/// has an option that changes the relationship and one offered only above a
/// relationship level. Other entries are kept.
pub fn register_side_dialogues(database: &mut DialogueDatabase)
    ensures
        forall|id: u32| 200 <= id <= 211 ==> #[trigger] final(database).dialogues@.contains_key(id)
            && final(database).dialogues@[id].id == id && tree_closed(&final(database).dialogues@[id])
            && final(database).dialogues@[id].name@ == side_dialogue_name(id) && final(database).dialogues@[id].start_node
            == 0 && side_dialogue_lines(id, final(database).dialogues@[id].nodes@)
            && end_reachable(&final(database).dialogues@[id]) && (id % 2 == 0 ==> has_branch(
            &final(database).dialogues@[id],
        )) && (id % 2 == 1 ==> has_relationship_change(&final(database).dialogues@[id]) && has_relationship_gate(
            &final(database).dialogues@[id],
        )),
        forall|id: u32| !(200 <= id <= 211) ==> (#[trigger] final(database).dialogues@.contains_key(id)
            == old(database).dialogues@.contains_key(id)) && (old(database).dialogues@.contains_key(id)
            ==> final(database).dialogues@[id] == old(database).dialogues@[id]),
        forall|id: u32| 200 <= id <= 205 ==> #[trigger] final(database).npcs@.contains_key(id)
            && final(database).npcs@[id].id == id && final(database).npcs@[id].name@ == side_npc_name(id)
            && final(database).npcs@[id].voice_style is None,
        forall|id: u32| !(200 <= id <= 205) ==> (#[trigger] final(database).npcs@.contains_key(id)
            == old(database).npcs@.contains_key(id)) && (old(database).npcs@.contains_key(id)
            ==> final(database).npcs@[id] == old(database).npcs@[id]),
{
    database.register_npc(
        NpcDialogueData { id: NPC_BETEL_NUT_BEAUTY, name: "檳榔西施".to_owned(), portrait: String::new(), voice_style: None },
    );
    database.register_npc(
        NpcDialogueData { id: NPC_TEMPLE_KEEPER, name: "廟公".to_owned(), portrait: String::new(), voice_style: None },
    );
    database.register_npc(
        NpcDialogueData { id: NPC_NIGHT_MARKET_CHEF, name: "夜市大廚".to_owned(), portrait: String::new(), voice_style: None },
    );
    database.register_npc(
        NpcDialogueData { id: NPC_STRAY_DOG_UNCLE, name: "流浪狗大叔".to_owned(), portrait: String::new(), voice_style: None },
    );
    database.register_npc(
        NpcDialogueData { id: NPC_STREET_RACER, name: "飆車族老大".to_owned(), portrait: String::new(), voice_style: None },
    );
    database.register_npc(
        NpcDialogueData { id: NPC_CONSPIRACY_BLOGGER, name: "陰謀論部落客".to_owned(), portrait: String::new(), voice_style: None },
    );
    database.register_dialogue(create_betel_nut_start());
    database.register_dialogue(create_betel_nut_end());
    database.register_dialogue(create_temple_start());
    database.register_dialogue(create_temple_end());
    database.register_dialogue(create_chef_start());
    database.register_dialogue(create_chef_end());
    database.register_dialogue(create_dog_uncle_start());
    database.register_dialogue(create_dog_uncle_end());
    database.register_dialogue(create_racer_start());
    database.register_dialogue(create_racer_end());
    database.register_dialogue(create_blogger_start());
    database.register_dialogue(create_blogger_end());
}

} // verus!
