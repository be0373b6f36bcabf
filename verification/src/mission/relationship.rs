//! How much each NPC likes the player, from -100 to 100.
use vstd::prelude::*;
use std::collections::HashMap;
use crate::mission::story_data::types::NpcId;

verus! {

broadcast use vstd::std_specs::hash::group_hash_axioms;

/// Affinity of each NPC met; an NPC never met stands at 0.
#[derive(Clone, Debug)]
pub struct RelationshipManager {
    pub relationships: HashMap<NpcId, i32>,
}

/// The affinity an NPC has in a table (0 when absent).
pub open spec fn affinity(m: Map<NpcId, i32>, npc: NpcId) -> int {
    if m.contains_key(npc) { m[npc] as int } else { 0 }
}

/// `v` kept within -100..=100.
pub open spec fn clamp_affinity(v: int) -> int {
    if v < -100 { -100 } else if v > 100 { 100 } else { v }
}

impl Default for RelationshipManager {
    fn default() -> (r: RelationshipManager)
        ensures
            r.relationships@ == Map::<NpcId, i32>::empty(),
    {
        RelationshipManager { relationships: HashMap::new() }
    }
}

impl RelationshipManager {
    /// An NPC's affinity (0 for one never met).
    pub fn get_relationship(&self, npc_id: NpcId) -> (v: i32)
        ensures
            v == affinity(self.relationships@, npc_id),
    {
        match self.relationships.get(&npc_id) {
            Some(v) => *v,
            None => 0,
        }
    }

    /// Changes an NPC's affinity by `delta`, kept within -100..=100.
    pub fn change_relationship(&mut self, npc_id: NpcId, delta: i32)
        ensures
            final(self).relationships@ == old(self).relationships@.insert(
                npc_id,
                clamp_affinity(affinity(old(self).relationships@, npc_id) + delta) as i32,
            ),
    {
        let current = self.get_relationship(npc_id) as i64;
        let v = current + delta as i64;
        let clamped: i32 = if v < -100 { -100 } else if v > 100 { 100 } else { v as i32 };
        self.relationships.insert(npc_id, clamped);
    }
}

/// After any change, an NPC's affinity lies within -100..=100, and changing
/// one NPC leaves the others as they were.
pub proof fn affinity_stays_in_range(m: Map<NpcId, i32>, npc: NpcId, other: NpcId, delta: i32)
    ensures
        ({
            let m2 = m.insert(npc, clamp_affinity(affinity(m, npc) + delta) as i32);
            &&& -100 <= affinity(m2, npc) <= 100
            &&& other != npc ==> affinity(m2, other) == affinity(m, other)
        }),
{
}

} // verus!
