//! What the player has unlocked: items (weapons, vehicles, by save key) and
//! areas.
use vstd::prelude::*;
use crate::mission::story_data::types::AreaId;

verus! {

/// Unlocked items and areas, each listed once.
#[derive(Clone, Debug)]
pub struct UnlockManager {
    pub unlocked_items: Vec<String>,
    pub unlocked_areas: Vec<AreaId>,
}

/// The keys of a list of items.
pub open spec fn item_keys(v: Seq<String>) -> Set<Seq<char>> {
    Set::new(|k: Seq<char>| exists|i: int| 0 <= i < v.len() && (#[trigger] v[i])@ == k)
}

/// Nothing is listed twice.
pub open spec fn unlocks_wf(u: UnlockManager) -> bool {
    &&& forall|i: int, j: int| 0 <= i < j < u.unlocked_items@.len() ==> (#[trigger] u.unlocked_items@[i])@
        != (#[trigger] u.unlocked_items@[j])@
    &&& u.unlocked_areas@.no_duplicates()
}

impl Default for UnlockManager {
    fn default() -> (u: UnlockManager)
        ensures
            unlocks_wf(u),
            u.unlocked_items@.len() == 0,
            u.unlocked_areas@.len() == 0,
    {
        UnlockManager { unlocked_items: Vec::new(), unlocked_areas: Vec::new() }
    }
}

impl UnlockManager {
    /// Whether an item is unlocked.
    pub fn is_item_unlocked(&self, key: &str) -> (b: bool)
        ensures
            b == item_keys(self.unlocked_items@).contains(key@),
    {
        let k = key.to_owned();
        let mut i: usize = 0;
        while i < self.unlocked_items.len()
            invariant
                0 <= i <= self.unlocked_items@.len(),
                k@ == key@,
                forall|j: int| 0 <= j < i ==> (#[trigger] self.unlocked_items@[j])@ != key@,
            decreases self.unlocked_items.len() - i,
        {
            if self.unlocked_items[i] == k {
                assert(item_keys(self.unlocked_items@).contains(key@)) by {
                    assert(self.unlocked_items@[i as int]@ == key@);
                }
                return true;
            }
            i = i + 1;
        }
        assert(!item_keys(self.unlocked_items@).contains(key@));
        false
    }

    /// Unlocks an item (once).
    pub fn unlock_item(&mut self, key: String)
        requires
            unlocks_wf(*old(self)),
        ensures
            unlocks_wf(*final(self)),
            item_keys(final(self).unlocked_items@) == item_keys(old(self).unlocked_items@).insert(key@),
            final(self).unlocked_areas == old(self).unlocked_areas,
    {
        if !self.is_item_unlocked(key.as_str()) {
            let ghost before = self.unlocked_items@;
            self.unlocked_items.push(key);
            assert(item_keys(self.unlocked_items@) =~= item_keys(before).insert(key@)) by {
                assert forall|k: Seq<char>| item_keys(before).insert(key@).contains(k) implies item_keys(
                    self.unlocked_items@,
                ).contains(k) by {
                    if k == key@ {
                        assert(self.unlocked_items@[before.len() as int]@ == k);
                    } else {
                        let i = choose|i: int| 0 <= i < before.len() && (#[trigger] before[i])@ == k;
                        assert(self.unlocked_items@[i]@ == k);
                    }
                }
                assert forall|k: Seq<char>| item_keys(self.unlocked_items@).contains(k) implies item_keys(
                    before,
                ).insert(key@).contains(k) by {
                    let i = choose|i: int| 0 <= i < self.unlocked_items@.len() && (#[trigger] self.unlocked_items@[i])@ == k;
                    if i < before.len() {
                        assert(before[i]@ == k);
                    }
                }
            }
        } else {
            assert(item_keys(self.unlocked_items@) =~= item_keys(self.unlocked_items@).insert(key@));
        }
    }

    /// Unlocks an area (once).
    pub fn unlock_area(&mut self, area: AreaId)
        requires
            unlocks_wf(*old(self)),
        ensures
            unlocks_wf(*final(self)),
            final(self).unlocked_areas@.to_set() == old(self).unlocked_areas@.to_set().insert(area),
            final(self).unlocked_items == old(self).unlocked_items,
    {
        let mut i: usize = 0;
        while i < self.unlocked_areas.len()
            invariant
                0 <= i <= self.unlocked_areas@.len(),
                *self == *old(self),
                unlocks_wf(*self),
                forall|j: int| 0 <= j < i ==> self.unlocked_areas@[j] != area,
            decreases self.unlocked_areas.len() - i,
        {
            if self.unlocked_areas[i] == area {
                assert(self.unlocked_areas@.to_set() =~= self.unlocked_areas@.to_set().insert(area)) by {
                    assert(self.unlocked_areas@.contains(area));
                }
                return;
            }
            i = i + 1;
        }
        let ghost before = self.unlocked_areas@;
        self.unlocked_areas.push(area);
        assert(self.unlocked_areas@.to_set() =~= before.to_set().insert(area)) by {
            assert forall|a: AreaId| before.to_set().insert(area).contains(a) implies self.unlocked_areas@.to_set().contains(a) by {
                if a != area {
                    let j = choose|j: int| 0 <= j < before.len() && before[j] == a;
                    assert(self.unlocked_areas@[j] == a);
                } else {
                    assert(self.unlocked_areas@[before.len() as int] == a);
                }
            }
            assert forall|a: AreaId| self.unlocked_areas@.to_set().contains(a) implies before.to_set().insert(area).contains(a) by {
                let j = choose|j: int| 0 <= j < self.unlocked_areas@.len() && self.unlocked_areas@[j] == a;
                if j < before.len() {
                    assert(before[j] == a);
                }
            }
        }
    }

    /// Whether an area is unlocked.
    pub fn is_area_unlocked(&self, area: AreaId) -> (b: bool)
        ensures
            b == self.unlocked_areas@.contains(area),
    {
        let mut i: usize = 0;
        while i < self.unlocked_areas.len()
            invariant
                0 <= i <= self.unlocked_areas@.len(),
                forall|j: int| 0 <= j < i ==> self.unlocked_areas@[j] != area,
            decreases self.unlocked_areas.len() - i,
        {
            if self.unlocked_areas[i] == area {
                return true;
            }
            i = i + 1;
        }
        false
    }
}

} // verus!
