//! Mission difficulty and rewards.
use vstd::prelude::*;
use crate::mission::story_data::types::{AreaId, StoryMissionId};

verus! {

/// How hard a mission is.
#[derive(Clone, Copy, Debug, PartialEq, Eq, Structural)]
pub enum Difficulty {
    Easy,
    Normal,
    Hard,
    Extreme,
}

impl Default for Difficulty {
    fn default() -> (d: Difficulty)
        ensures
            d == Difficulty::Normal,
    {
        Difficulty::Normal
    }
}

/// What completing a mission gives. Weapons and vehicles are listed by
/// their save keys.
#[derive(Clone, Debug)]
pub struct MissionRewards {
    pub money: u32,
    pub respect: u32,
    pub unlock_weapons: Vec<String>,
    pub unlock_vehicles: Vec<String>,
    pub unlock_areas: Vec<AreaId>,
    pub unlock_missions: Vec<StoryMissionId>,
    pub set_flags: Vec<String>,
}

/// The reward that gives only `amount` of money.
pub open spec fn money_only(r: MissionRewards, amount: u32) -> bool {
    &&& r.money == amount
    &&& r.respect == 0
    &&& r.unlock_weapons@.len() == 0
    &&& r.unlock_vehicles@.len() == 0
    &&& r.unlock_areas@.len() == 0
    &&& r.unlock_missions@.len() == 0
    &&& r.set_flags@.len() == 0
}

impl Default for MissionRewards {
    fn default() -> (r: MissionRewards)
        ensures
            money_only(r, 0),
    {
        MissionRewards::money(0)
    }
}

impl MissionRewards {
    /// A money reward.
    pub fn money(amount: u32) -> (r: MissionRewards)
        ensures
            money_only(r, amount),
    {
        MissionRewards {
            money: amount,
            respect: 0,
            unlock_weapons: Vec::new(),
            unlock_vehicles: Vec::new(),
            unlock_areas: Vec::new(),
            unlock_missions: Vec::new(),
            set_flags: Vec::new(),
        }
    }

    /// Sets the respect given.
    pub fn with_respect(self, respect: u32) -> (r: MissionRewards)
        ensures
            r == (MissionRewards { respect, ..self }),
    {
        let mut r = self;
        r.respect = respect;
        r
    }

    /// Unlocks a further mission.
    pub fn unlock_mission(self, mission_id: StoryMissionId) -> (r: MissionRewards)
        ensures
            r == (MissionRewards { unlock_missions: r.unlock_missions, ..self }),
            r.unlock_missions@ == self.unlock_missions@.push(mission_id),
    {
        let mut r = self;
        r.unlock_missions.push(mission_id);
        r
    }

    /// Unlocks a weapon (by save key).
    pub fn unlock_weapon(self, weapon_key: &str) -> (r: MissionRewards)
        ensures
            r == (MissionRewards { unlock_weapons: r.unlock_weapons, ..self }),
            r.unlock_weapons@.len() == self.unlock_weapons@.len() + 1,
            forall|i: int| 0 <= i < self.unlock_weapons@.len() ==> #[trigger] r.unlock_weapons@[i] == self.unlock_weapons@[i],
            r.unlock_weapons@.last()@ == weapon_key@,
    {
        let mut r = self;
        r.unlock_weapons.push(weapon_key.to_owned());
        r
    }

    /// Unlocks a vehicle (by save key).
    pub fn unlock_vehicle(self, vehicle_key: &str) -> (r: MissionRewards)
        ensures
            r == (MissionRewards { unlock_vehicles: r.unlock_vehicles, ..self }),
            r.unlock_vehicles@.len() == self.unlock_vehicles@.len() + 1,
            forall|i: int| 0 <= i < self.unlock_vehicles@.len() ==> #[trigger] r.unlock_vehicles@[i] == self.unlock_vehicles@[i],
            r.unlock_vehicles@.last()@ == vehicle_key@,
    {
        let mut r = self;
        r.unlock_vehicles.push(vehicle_key.to_owned());
        r
    }

    /// Sets a story flag on completion.
    pub fn set_flag(self, flag: String) -> (r: MissionRewards)
        ensures
            r == (MissionRewards { set_flags: r.set_flags, ..self }),
            r.set_flags@ == self.set_flags@.push(flag),
    {
        let mut r = self;
        r.set_flags.push(flag);
        r
    }
}

} // verus!
