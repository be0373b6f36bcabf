//! The side-mission dialogue trees and their NPCs.

use island_rampage::mission::dialogue::{DialogueCondition, DialogueConsequence, DialogueDatabase};
use island_rampage::mission::side_dialogues::register_side_dialogues;

#[test]
fn test_all_side_dialogues_registered() {
    let mut database = DialogueDatabase::default();
    register_side_dialogues(&mut database);

    // 12 個對話（6 個支線 × 2 start/end）
    for id in 200..=211 {
        assert!(
            database.get_dialogue(id).is_some(),
            "對話 ID {} 未註冊",
            id
        );
    }
}

#[test]
fn test_all_side_npcs_registered() {
    let mut database = DialogueDatabase::default();
    register_side_dialogues(&mut database);

    // 6 個 NPC
    for id in 200..=205 {
        assert!(
            database.get_npc(id).is_some(),
            "NPC ID {} 未註冊",
            id
        );
    }
}

#[test]
fn test_dialogues_have_start_nodes() {
    let mut database = DialogueDatabase::default();
    register_side_dialogues(&mut database);

    for id in 200..=211 {
        let tree = database.get_dialogue(id).unwrap();
        assert!(
            tree.get_node(tree.start_node).is_some(),
            "對話 {} 的起始節點 {} 不存在",
            id,
            tree.start_node
        );
    }
}

#[test]
fn test_start_dialogues_have_choices() {
    let mut database = DialogueDatabase::default();
    register_side_dialogues(&mut database);

    // 每個開始對話（偶數 ID）至少有一個節點含分支選項
    for id in (200..=210).step_by(2) {
        let tree = database.get_dialogue(id).unwrap();
        let has_choices = tree.nodes.values().any(|node| !node.choices.is_empty());
        assert!(
            has_choices,
            "開始對話 {} 缺少分支選項",
            id
        );
    }
}

#[test]
fn test_end_dialogues_have_relationship_choices() {
    let mut database = DialogueDatabase::default();
    register_side_dialogues(&mut database);

    // 每個結束對話（奇數 ID）至少有一個選項包含 ChangeRelationship
    for id in (201..=211).step_by(2) {
        let tree = database.get_dialogue(id).unwrap();
        let has_relationship_consequence = tree.nodes.values().any(|node| {
            node.choices.iter().any(|choice| {
                choice.consequences.iter().any(|c| {
                    matches!(c, DialogueConsequence::ChangeRelationship { .. })
                })
            })
        });
        assert!(
            has_relationship_consequence,
            "結束對話 {} 缺少好感度變化選項",
            id
        );
    }
}

#[test]
fn test_end_dialogues_have_high_relationship_branch() {
    let mut database = DialogueDatabase::default();
    register_side_dialogues(&mut database);

    // 每個結束對話應有 RelationshipMin 條件的高好感度分支
    for id in (201..=211).step_by(2) {
        let tree = database.get_dialogue(id).unwrap();
        let has_relationship_gate = tree.nodes.values().any(|node| {
            node.choices.iter().any(|choice| {
                matches!(
                    &choice.condition,
                    Some(DialogueCondition::RelationshipMin { .. })
                )
            })
        });
        assert!(
            has_relationship_gate,
            "結束對話 {} 缺少高好感度專屬分支",
            id
        );
    }
}

#[test]
fn test_dialogue_node_reachability() {
    let mut database = DialogueDatabase::default();
    register_side_dialogues(&mut database);

    // 驗證所有對話的起始節點可以到達至少一個結束點
    for id in 200..=211 {
        let tree = database.get_dialogue(id).unwrap();
        let mut visited = std::collections::HashSet::new();
        let mut stack = vec![tree.start_node];
        let mut found_end = false;

        while let Some(node_id) = stack.pop() {
            if !visited.insert(node_id) {
                continue;
            }
            if let Some(node) = tree.get_node(node_id) {
                if node.choices.is_empty() {
                    // 無選項：檢查 next_node 或已到結尾
                    if let Some(next) = node.next_node {
                        stack.push(next);
                    } else {
                        found_end = true;
                    }
                } else {
                    for choice in &node.choices {
                        if choice.ends_dialogue {
                            found_end = true;
                        } else if let Some(next) = choice.next_node {
                            stack.push(next);
                        }
                    }
                }
            }
        }

        assert!(
            found_end,
            "對話 {} 從起始節點無法到達任何結束點",
            id
        );
    }
}
