//! Advanced jobs: assassinations, escorts, chases and photo assignments.
//!
//! Positions and distances are in centimetres, times in milliseconds,
//! ratios in thousandths and multipliers in percent.
use vstd::prelude::*;
use crate::mission::story_data::types::Position;
use crate::mission::data::{
    MissionData, MissionManager, MissionType, distance_cm, distance_squared, is_floor_sqrt, position_in_range,
    distance_bound, squared_bound,
};
use crate::random::random_in;
use crate::text::{push_decimal, decimal};

verus! {

/// How hard an assassination target is.
#[derive(Clone, Copy, Debug, PartialEq, Eq, Structural)]
pub enum TargetDifficulty {
    /// No guards.
    Easy,
    /// One or two guards.
    Medium,
    /// Three or four guards and an armoured car.
    Hard,
}

/// Reward multiplier of a difficulty, in percent.
pub open spec fn difficulty_percent(d: TargetDifficulty) -> int {
    match d {
        TargetDifficulty::Easy => 100,
        TargetDifficulty::Medium => 150,
        TargetDifficulty::Hard => 250,
    }
}

/// Guards of a difficulty.
pub open spec fn difficulty_guards(d: TargetDifficulty) -> int {
    match d {
        TargetDifficulty::Easy => 0,
        TargetDifficulty::Medium => 2,
        TargetDifficulty::Hard => 4,
    }
}

impl TargetDifficulty {
    /// Reward multiplier, in percent.
    pub fn reward_multiplier(&self) -> (p: u32)
        ensures
            p == difficulty_percent(*self),
    {
        match self {
            TargetDifficulty::Easy => 100,
            TargetDifficulty::Medium => 150,
            TargetDifficulty::Hard => 250,
        }
    }

    /// Number of guards.
    pub fn guard_count(&self) -> (n: u32)
        ensures
            n == difficulty_guards(*self),
    {
        match self {
            TargetDifficulty::Easy => 0,
            TargetDifficulty::Medium => 2,
            TargetDifficulty::Hard => 4,
        }
    }
}

/// An assassination.
#[derive(Clone, Debug)]
pub struct AssassinationData {
    pub target_name: String,
    pub target_pos: Position,
    pub difficulty: TargetDifficulty,
    /// Extra reward for a silent kill.
    pub silent_kill_bonus: bool,
    pub time_limit: Option<u64>,
}

/// An escort.
#[derive(Clone, Debug)]
pub struct EscortData {
    pub vip_name: String,
    pub start_pos: Position,
    pub destination: Position,
    pub vip_max_hp: u32,
    pub vip_hp: u32,
    /// Ambush waves on the way.
    pub ambush_waves: u32,
    pub use_vehicle: bool,
}

impl EscortData {
    /// An escort on foot of a VIP with 100 health.
    pub fn new(vip_name: String, start: Position, dest: Position, waves: u32) -> (e: EscortData)
        ensures
            e.vip_name == vip_name,
            e.start_pos == start,
            e.destination == dest,
            e.vip_max_hp == 100,
            e.vip_hp == 100,
            e.ambush_waves == waves,
            !e.use_vehicle,
    {
        EscortData { vip_name, start_pos: start, destination: dest, vip_max_hp: 100, vip_hp: 100, ambush_waves: waves, use_vehicle: false }
    }

    /// The VIP takes damage (health never below zero).
    pub fn damage_vip(&mut self, amount: u32)
        ensures
            final(self).vip_hp == if old(self).vip_hp >= amount { old(self).vip_hp - amount } else { 0 },
            final(self).vip_max_hp == old(self).vip_max_hp,
            final(self).vip_name == old(self).vip_name,
            final(self).ambush_waves == old(self).ambush_waves,
    {
        self.vip_hp = if self.vip_hp >= amount { self.vip_hp - amount } else { 0 };
    }

    /// Whether the VIP is alive.
    pub fn vip_alive(&self) -> (b: bool)
        ensures
            b == (self.vip_hp > 0),
    {
        self.vip_hp > 0
    }

    /// The VIP's health, in thousandths of the maximum.
    pub fn vip_hp_ratio(&self) -> (r: u64)
        requires
            self.vip_max_hp > 0,
        ensures
            r == self.vip_hp * 1000 / self.vip_max_hp as int,
    {
        self.vip_hp as u64 * 1000 / self.vip_max_hp as u64
    }
}

/// A chase.
#[derive(Clone, Debug)]
pub struct ChaseData {
    pub target_vehicle: String,
    pub chase_start: Position,
    pub escape_route: Vec<Position>,
    /// How close counts as caught.
    pub intercept_radius: u32,
    pub time_limit: u64,
    /// Speed of the target, in centimetres per second.
    pub target_speed: u32,
}

impl ChaseData {
    /// Whether the player is close enough to the target to stop it.
    pub fn is_intercepted(&self, player_pos: Position, target_pos: Position) -> (b: bool)
        requires
            position_in_range(player_pos),
            position_in_range(target_pos),
        ensures
            b == (distance_squared(player_pos, target_pos) <= self.intercept_radius * self.intercept_radius),
    {
        squared_distance(player_pos, target_pos) <= square_u32(self.intercept_radius)
    }
}

/// The square of `x`.
pub fn square_u32(x: u32) -> (r: u128)
    ensures
        r == x * x,
{
    assert(x as int * x as int <= 0xffff_ffff * 0xffff_ffff) by (nonlinear_arith)
        requires
            x <= 0xffff_ffffu32,
    ;
    x as u128 * x as u128
}

/// The squared distance between two points.
pub fn squared_distance(a: Position, b: Position) -> (d: u128)
    requires
        position_in_range(a),
        position_in_range(b),
    ensures
        d == distance_squared(a, b),
{
    let dx = (a.x - b.x) as i128;
    let dy = (a.y - b.y) as i128;
    let dz = (a.z - b.z) as i128;
    assert(0 <= dx * dx <= 4_000_000_000_000_000_000) by (nonlinear_arith)
        requires
            -2_000_000_000 <= dx <= 2_000_000_000,
    ;
    assert(0 <= dy * dy <= 4_000_000_000_000_000_000) by (nonlinear_arith)
        requires
            -2_000_000_000 <= dy <= 2_000_000_000,
    ;
    assert(0 <= dz * dz <= 4_000_000_000_000_000_000) by (nonlinear_arith)
        requires
            -2_000_000_000 <= dz <= 2_000_000_000,
    ;
    (dx * dx + dy * dy + dz * dz) as u128
}

/// A place to photograph.
#[derive(Clone, Debug)]
pub struct PhotoTarget {
    pub description: String,
    pub position: Position,
    /// How close the shot must be taken.
    pub required_distance: u32,
    /// Direction to face, if any.
    pub required_facing: Option<Position>,
    pub captured: bool,
}

/// A photo assignment.
#[derive(Clone, Debug)]
pub struct PhotographyData {
    pub theme: String,
    pub targets: Vec<PhotoTarget>,
    /// Shots taken.
    pub captured_count: u32,
}

/// Whether a photo target can be shot from `p`.
pub open spec fn in_shot(t: PhotoTarget, p: Position) -> bool {
    !t.captured && distance_squared(p, t.position) <= t.required_distance * t.required_distance
}

/// Every target lies in range.
pub open spec fn targets_in_range(ts: Seq<PhotoTarget>) -> bool {
    forall|i: int| 0 <= i < ts.len() ==> position_in_range(#[trigger] ts[i].position)
}

impl PhotographyData {
    /// An assignment with nothing shot yet.
    pub fn new(theme: String, targets: Vec<PhotoTarget>) -> (p: PhotographyData)
        ensures
            p.theme == theme,
            p.targets@ == targets@,
            p.captured_count == 0,
    {
        PhotographyData { theme, targets, captured_count: 0 }
    }

    /// Takes a photo from `player_pos`: the first target not shot yet that
    /// is close enough is shot, and its description returned.
    pub fn try_capture(&mut self, player_pos: Position) -> (r: Option<String>)
        requires
            position_in_range(player_pos),
            targets_in_range(old(self).targets@),
            old(self).captured_count < u32::MAX,
        ensures
            targets_in_range(final(self).targets@),
            final(self).theme == old(self).theme,
            (forall|i: int| 0 <= i < old(self).targets@.len() ==> !in_shot(#[trigger] old(self).targets@[i], player_pos))
                ==> r is None && final(self).targets@ == old(self).targets@ && final(self).captured_count == old(
                self,
            ).captured_count,
            forall|k: int|
                0 <= k < old(self).targets@.len() && in_shot(old(self).targets@[k], player_pos) && (forall|j: int|
                    0 <= j < k ==> !in_shot(#[trigger] old(self).targets@[j], player_pos)) ==> {
                    &&& r is Some && r->0@ == old(self).targets@[k].description@
                    &&& final(self).targets@ == old(self).targets@.update(
                        k,
                        PhotoTarget { captured: true, ..old(self).targets@[k] },
                    )
                    &&& final(self).captured_count == old(self).captured_count + 1
                },
    {
        let mut i: usize = 0;
        while i < self.targets.len()
            invariant
                0 <= i <= self.targets@.len(),
                *self == *old(self),
                old(self).captured_count < u32::MAX,
                position_in_range(player_pos),
                targets_in_range(self.targets@),
                forall|j: int| 0 <= j < i ==> !in_shot(#[trigger] self.targets@[j], player_pos),
            decreases self.targets.len() - i,
        {
            let t = &self.targets[i];
            if !t.captured {
                let dist_sq = squared_distance(player_pos, t.position);
                if dist_sq <= square_u32(t.required_distance) {
                    let description = t.description.clone();
                    let count = self.captured_count;
                    assert(count < u32::MAX);
                    let ghost before = self.targets@;
                    let mut target = self.targets.remove(i);
                    target.captured = true;
                    self.targets.insert(i, target);
                    self.captured_count = count + 1;
                    proof {
                        assert(self.targets@ =~= before.update(i as int, PhotoTarget { captured: true, ..before[i as int] }));
                        assert forall|k: int|
                            0 <= k < before.len() && in_shot(before[k], player_pos) && (forall|j: int|
                                0 <= j < k ==> !in_shot(#[trigger] before[j], player_pos)) implies k == i by {
                            if k < i {
                            } else if k > i {
                                assert(in_shot(before[i as int], player_pos));
                            }
                        }
                    }
                    return Some(description);
                }
            }
            i = i + 1;
        }
        None
    }

    /// Whether every target is shot.
    pub fn all_captured(&self) -> (b: bool)
        ensures
            b == forall|i: int| 0 <= i < self.targets@.len() ==> (#[trigger] self.targets@[i]).captured,
    {
        let mut i: usize = 0;
        while i < self.targets.len()
            invariant
                0 <= i <= self.targets@.len(),
                forall|j: int| 0 <= j < i ==> (#[trigger] self.targets@[j]).captured,
            decreases self.targets.len() - i,
        {
            if !self.targets[i].captured {
                return false;
            }
            i = i + 1;
        }
        true
    }

    /// Shots taken and shots to take.
    pub fn progress(&self) -> (p: (u32, u32))
        ensures
            p.0 == self.captured_count,
            p.1 == self.targets@.len() as u32,
    {
        (self.captured_count, self.targets.len() as u32)
    }
}

/// A photo assignment's theme and targets as generated.
pub open spec fn photo_from(d: MissionData, k: int, id: u32) -> bool {
    let (theme, count, first, reward) = photo_mission(k);
    &&& d.id == id
    &&& d.mission_type == MissionType::Photography
    &&& d.title@ == "拍照: "@ + theme
    &&& d.description@ == "拍攝 "@ + decimal(count as nat) + " 個指定場景（"@ + theme + "）"@
    &&& d.start_pos == first
    &&& d.end_pos == first
    &&& d.reward == reward
    &&& d.time_limit is None
    &&& d.delivery_order is None && d.race_data is None && d.taxi_data is None
}

/// An assassination as generated from target `k`.
pub open spec fn assassination_from(d: MissionData, k: int, id: u32) -> bool {
    let (name, pos, difficulty, base) = assassination_target(k);
    &&& d.id == id
    &&& d.mission_type == MissionType::Assassination
    &&& d.title@ == "暗殺: "@ + name
    &&& d.description@ == "消滅目標 "@ + name + "（護衛 "@ + decimal(difficulty_guards(difficulty) as nat) + " 人）"@
    &&& d.start_pos == (Position { x: 0, y: 0, z: 0 })
    &&& d.end_pos == pos
    &&& d.reward == base * difficulty_percent(difficulty) / 100
    &&& d.time_limit == match difficulty {
        TargetDifficulty::Easy => Some(120_000u64),
        TargetDifficulty::Medium => Some(180_000u64),
        TargetDifficulty::Hard => None,
    }
    &&& d.delivery_order is None && d.race_data is None && d.taxi_data is None
}

/// An escort as generated from VIP `k`: one second per eight metres, at
/// least a minute.
pub open spec fn escort_from(d: MissionData, k: int, id: u32, dist: int) -> bool {
    let (name, start, dest, waves, reward) = escort_vip(k);
    let t = dist * 5 / 4;
    &&& is_floor_sqrt(dist, distance_squared(start, dest))
    &&& d.id == id
    &&& d.mission_type == MissionType::Escort
    &&& d.title@ == "護送: "@ + name
    &&& d.description@ == "護送 "@ + name + " 安全抵達目的地（"@ + decimal(waves as nat) + " 波伏擊）"@
    &&& d.start_pos == start
    &&& d.end_pos == dest
    &&& d.reward == reward
    &&& d.time_limit == Some((if t < 60_000 { 60_000 } else { t }) as u64)
    &&& d.delivery_order is None && d.race_data is None && d.taxi_data is None
}

/// A chase as generated from scenario `k`.
pub open spec fn chase_from(d: MissionData, k: int, id: u32) -> bool {
    let (vehicle, start, last, reward) = chase_scenario(k);
    &&& d.id == id
    &&& d.mission_type == MissionType::ChaseDown
    &&& d.title@ == "追逐: "@ + vehicle
    &&& d.description@ == "追上並攔截 "@ + vehicle
    &&& d.start_pos == start
    &&& d.end_pos == last
    &&& d.reward == reward
    &&& d.time_limit == Some(90_000u64)
    &&& d.delivery_order is None && d.race_data is None && d.taxi_data is None
}

impl MissionManager {
    /// Generates an assassination of a random target.
    pub fn generate_assassination_mission(&mut self) -> (d: MissionData)
        requires
            old(self).next_mission_id < u32::MAX,
        ensures
            exists|k: int| 0 <= k < 5 && #[trigger] assassination_from(d, k, old(self).next_mission_id),
            final(self).next_mission_id == old(self).next_mission_id + 1,
            final(self).available_missions == old(self).available_missions,
    {
        let targets = create_assassination_targets();
        let k = random_in(0, (targets.len() - 1) as u64) as usize;
        let (name, pos, difficulty, base_reward) = (&targets[k].0, targets[k].1, targets[k].2, targets[k].3);
        let id = self.next_mission_id;
        self.next_mission_id = self.next_mission_id + 1;
        assert(base_reward <= 8000);
        let reward = (base_reward as u64 * difficulty.reward_multiplier() as u64 / 100) as u32;
        let time_limit: Option<u64> = match difficulty {
            TargetDifficulty::Easy => Some(120_000),
            TargetDifficulty::Medium => Some(180_000),
            TargetDifficulty::Hard => None,
        };
        let mut title = "暗殺: ".to_owned();
        title.append(name.as_str());
        let mut description = "消滅目標 ".to_owned();
        description.append(name.as_str());
        description.append("（護衛 ");
        push_decimal(&mut description, difficulty.guard_count());
        description.append(" 人）");
        let d = MissionData {
            id,
            mission_type: MissionType::Assassination,
            title,
            description,
            start_pos: Position::new(0, 0, 0),
            end_pos: pos,
            reward,
            time_limit,
            delivery_order: None,
            race_data: None,
            taxi_data: None,
        };
        proof {
            assert(assassination_from(d, k as int, id));
        }
        d
    }

    /// Generates an escort of a random VIP.
    pub fn generate_escort_mission(&mut self) -> (d: MissionData)
        requires
            old(self).next_mission_id < u32::MAX,
        ensures
            exists|k: int, dist: int| 0 <= k < 4 && #[trigger] escort_from(d, k, old(self).next_mission_id, dist),
            final(self).next_mission_id == old(self).next_mission_id + 1,
            final(self).available_missions == old(self).available_missions,
    {
        let vips = create_escort_vips();
        let k = random_in(0, (vips.len() - 1) as u64) as usize;
        let name = &vips[k].0;
        let start = vips[k].1;
        let dest = vips[k].2;
        let waves = vips[k].3;
        let reward = vips[k].4;
        let id = self.next_mission_id;
        self.next_mission_id = self.next_mission_id + 1;
        let _escort = EscortData::new(name.clone(), start, dest, waves);
        let distance = distance_cm(start, dest);
        proof {
            squared_bound(start, dest);
            distance_bound(distance as int, distance_squared(start, dest));
        }
        let t: u64 = distance * 5 / 4;
        let time_limit: u64 = if t < 60_000 { 60_000 } else { t };
        let mut title = "護送: ".to_owned();
        title.append(name.as_str());
        let mut description = "護送 ".to_owned();
        description.append(name.as_str());
        description.append(" 安全抵達目的地（");
        push_decimal(&mut description, waves);
        description.append(" 波伏擊）");
        let d = MissionData {
            id,
            mission_type: MissionType::Escort,
            title,
            description,
            start_pos: start,
            end_pos: dest,
            reward,
            time_limit: Some(time_limit),
            delivery_order: None,
            race_data: None,
            taxi_data: None,
        };
        proof {
            assert(escort_from(d, k as int, id, distance as int));
        }
        d
    }

    /// Generates a chase of a random vehicle.
    pub fn generate_chase_mission(&mut self) -> (d: MissionData)
        requires
            old(self).next_mission_id < u32::MAX,
        ensures
            exists|k: int| 0 <= k < 3 && #[trigger] chase_from(d, k, old(self).next_mission_id),
            final(self).next_mission_id == old(self).next_mission_id + 1,
            final(self).available_missions == old(self).available_missions,
    {
        let chases = create_chase_scenarios();
        let k = random_in(0, (chases.len() - 1) as u64) as usize;
        let desc = &chases[k].0;
        let start = chases[k].1;
        let route = &chases[k].2;
        let reward = chases[k].3;
        let id = self.next_mission_id;
        self.next_mission_id = self.next_mission_id + 1;
        let end_pos = if route.len() > 0 { route[route.len() - 1] } else { start };
        let mut title = "追逐: ".to_owned();
        title.append(desc.as_str());
        let mut description = "追上並攔截 ".to_owned();
        description.append(desc.as_str());
        let d = MissionData {
            id,
            mission_type: MissionType::ChaseDown,
            title,
            description,
            start_pos: start,
            end_pos,
            reward,
            time_limit: Some(90_000),
            delivery_order: None,
            race_data: None,
            taxi_data: None,
        };
        proof {
            assert(chase_from(d, k as int, id));
        }
        d
    }

    /// Generates a random photo assignment.
    pub fn generate_photography_mission(&mut self) -> (d: MissionData)
        requires
            old(self).next_mission_id < u32::MAX,
        ensures
            exists|k: int| 0 <= k < 3 && #[trigger] photo_from(d, k, old(self).next_mission_id),
            final(self).next_mission_id == old(self).next_mission_id + 1,
            final(self).available_missions == old(self).available_missions,
    {
        let missions = create_photo_missions();
        let k = random_in(0, (missions.len() - 1) as u64) as usize;
        let theme = &missions[k].0;
        let targets = &missions[k].1;
        let reward = missions[k].2;
        let id = self.next_mission_id;
        self.next_mission_id = self.next_mission_id + 1;
        let start_pos = if targets.len() > 0 { targets[0].position } else { Position::new(0, 0, 0) };
        let mut title = "拍照: ".to_owned();
        title.append(theme.as_str());
        let mut description = "拍攝 ".to_owned();
        push_decimal(&mut description, targets.len() as u32);
        description.append(" 個指定場景（");
        description.append(theme.as_str());
        description.append("）");
        let d = MissionData {
            id,
            mission_type: MissionType::Photography,
            title,
            description,
            start_pos,
            end_pos: start_pos,
            reward,
            time_limit: None,
            delivery_order: None,
            race_data: None,
            taxi_data: None,
        };
        proof {
            assert(photo_from(d, k as int, id));
        }
        d
    }

    /// Adds one assassination, escort, chase and photo assignment to the
    /// jobs on offer, numbered in that order from the next free id; the
    /// chase has a 90-second limit and the photo assignment none.
    pub fn refresh_advanced_missions(&mut self)
        requires
            old(self).next_mission_id + 4 <= u32::MAX,
        ensures
            final(self).available_missions@.len() == old(self).available_missions@.len() + 4,
            forall|i: int| 0 <= i < old(self).available_missions@.len() ==> #[trigger] final(self).available_missions@[i]
                == old(self).available_missions@[i],
            final(self).available_missions@[old(self).available_missions@.len() as int].mission_type
                == MissionType::Assassination,
            final(self).available_missions@[old(self).available_missions@.len() as int + 1].mission_type == MissionType::Escort,
            final(self).available_missions@[old(self).available_missions@.len() as int + 2].mission_type
                == MissionType::ChaseDown,
            final(self).available_missions@[old(self).available_missions@.len() as int + 3].mission_type
                == MissionType::Photography,
            final(self).next_mission_id == old(self).next_mission_id + 4,
            exists|k: int|
                0 <= k < 5 && #[trigger] assassination_from(
                    final(self).available_missions@[old(self).available_missions@.len() as int],
                    k,
                    old(self).next_mission_id,
                ),
            exists|k: int, dist: int|
                0 <= k < 4 && #[trigger] escort_from(
                    final(self).available_missions@[old(self).available_missions@.len() as int + 1],
                    k,
                    (old(self).next_mission_id + 1) as u32,
                    dist,
                ),
            exists|k: int|
                0 <= k < 3 && #[trigger] chase_from(
                    final(self).available_missions@[old(self).available_missions@.len() as int + 2],
                    k,
                    (old(self).next_mission_id + 2) as u32,
                ),
            exists|k: int|
                0 <= k < 3 && #[trigger] photo_from(
                    final(self).available_missions@[old(self).available_missions@.len() as int + 3],
                    k,
                    (old(self).next_mission_id + 3) as u32,
                ),
    {
        let ghost n0 = self.next_mission_id;
        let a = self.generate_assassination_mission();
        self.available_missions.push(a);
        let ghost n1 = self.next_mission_id;
        let e = self.generate_escort_mission();
        self.available_missions.push(e);
        let ghost n2 = self.next_mission_id;
        let c = self.generate_chase_mission();
        self.available_missions.push(c);
        let ghost n3 = self.next_mission_id;
        let p = self.generate_photography_mission();
        self.available_missions.push(p);
        proof {
            let jobs = self.available_missions@;
            let n = old(self).available_missions@.len() as int;
            let ka = choose|k: int| 0 <= k < 5 && #[trigger] assassination_from(a, k, n0);
            assert(assassination_from(jobs[n], ka, n0));
            let (ke, de) = choose|k: int, dist: int| 0 <= k < 4 && #[trigger] escort_from(e, k, n1, dist);
            assert(n1 == (n0 + 1) as u32);
            assert(escort_from(jobs[n + 1], ke, (n0 + 1) as u32, de));
            let kc = choose|k: int| 0 <= k < 3 && #[trigger] chase_from(c, k, n2);
            assert(n2 == (n0 + 2) as u32);
            assert(chase_from(jobs[n + 2], kc, (n0 + 2) as u32));
            let kp = choose|k: int| 0 <= k < 3 && #[trigger] photo_from(p, k, n3);
            assert(n3 == (n0 + 3) as u32);
            assert(photo_from(jobs[n + 3], kp, (n0 + 3) as u32));
        }
    }
}

/// The assassination targets: name, place, difficulty, base reward.
pub open spec fn assassination_target(i: int) -> (Seq<char>, Position, TargetDifficulty, u32) {
    if i == 0 {
        ("黑道會計師"@, Position { x: -3000i64, y: 50i64, z: -4000i64 }, TargetDifficulty::Easy, 3000)
    } else if i == 1 {
        ("毒品批發商"@, Position { x: 6000i64, y: 50i64, z: 2000i64 }, TargetDifficulty::Medium, 5000)
    } else if i == 2 {
        ("軍火走私頭目"@, Position { x: -5000i64, y: 50i64, z: 5000i64 }, TargetDifficulty::Hard, 8000)
    } else if i == 3 {
        ("貪腐議員"@, Position { x: 4000i64, y: 50i64, z: -3000i64 }, TargetDifficulty::Medium, 6000)
    } else {
        ("仿冒品大王"@, Position { x: -2000i64, y: 50i64, z: 6000i64 }, TargetDifficulty::Easy, 2500)
    }
}

/// The people to escort: name, start, destination, ambush waves, reward.
pub open spec fn escort_vip(i: int) -> (Seq<char>, Position, Position, u32, u32) {
    if i == 0 {
        ("證人張先生"@, Position { x: -4000i64, y: 50i64, z: -2000i64 }, Position { x: 5000i64, y: 50i64, z: 4000i64 }, 2, 4000)
    } else if i == 1 {
        ("外交官李小姐"@, Position { x: 3000i64, y: 50i64, z: -5000i64 }, Position { x: -6000i64, y: 50i64, z: 3000i64 }, 3, 6000)
    } else if i == 2 {
        ("藝人陳大哥"@, Position { x: 0i64, y: 50i64, z: 0i64 }, Position { x: 7000i64, y: 50i64, z: 6000i64 }, 1, 2500)
    } else {
        ("科學家王博士"@, Position { x: -6000i64, y: 50i64, z: -6000i64 }, Position { x: 4000i64, y: 50i64, z: 5000i64 }, 4, 8000)
    }
}

/// The chases: vehicle, start, last point of the escape route, reward.
pub open spec fn chase_scenario(i: int) -> (Seq<char>, Position, Position, u32) {
    if i == 0 {
        ("黑色轎車"@, Position { x: 0i64, y: 50i64, z: 0i64 }, Position { x: 4000i64, y: 50i64, z: 6000i64 }, 3500)
    } else if i == 1 {
        ("改裝機車"@, Position { x: -2000i64, y: 50i64, z: -3000i64 }, Position { x: -3000i64, y: 50i64, z: 5000i64 }, 2500)
    } else {
        ("運鈔車"@, Position { x: 5000i64, y: 50i64, z: 5000i64 }, Position { x: -6000i64, y: 50i64, z: -5000i64 }, 5000)
    }
}

/// The photo assignments: theme, number of shots, first place, reward.
pub open spec fn photo_mission(i: int) -> (Seq<char>, int, Position, u32) {
    if i == 0 {
        ("西門町地標巡禮"@, 3, Position { x: 5000i64, y: 50i64, z: 6900i64 }, 1500)
    } else if i == 1 {
        ("街頭美食攝影"@, 2, Position { x: -1000i64, y: 50i64, z: -2000i64 }, 1000)
    } else {
        ("夜景特輯"@, 4, Position { x: 0i64, y: 50i64, z: 0i64 }, 2000)
    }
}

/// Shot `j` of photo assignment `i`: what to shoot, where, and how close
/// (centimetres).
pub open spec fn photo_target(i: int, j: int) -> (Seq<char>, Position, u32) {
    if i == 0 {
        if j == 0 {
            ("西門紅樓"@, Position { x: 5000i64, y: 50i64, z: 6900i64 }, 1500)
        } else if j == 1 {
            ("電影街"@, Position { x: -1000i64, y: 50i64, z: -2000i64 }, 1500)
        } else {
            ("萬年大樓"@, Position { x: -6800i64, y: 50i64, z: -1200i64 }, 1500)
        }
    } else if i == 1 {
        if j == 0 {
            ("阿宗麵線攤位"@, Position { x: -1000i64, y: 50i64, z: -2000i64 }, 800)
        } else {
            ("成都楊桃冰"@, Position { x: -1500i64, y: 50i64, z: 3000i64 }, 800)
        }
    } else {
        if j == 0 {
            ("霓虹招牌街"@, Position { x: 0i64, y: 50i64, z: 0i64 }, 2000)
        } else if j == 1 {
            ("紅樓夜景"@, Position { x: 5000i64, y: 50i64, z: 6900i64 }, 2500)
        } else if j == 2 {
            ("獅子林霓虹"@, Position { x: -6900i64, y: 50i64, z: -6600i64 }, 2000)
        } else {
            ("漢中街入口"@, Position { x: -4500i64, y: 50i64, z: 1000i64 }, 1500)
        }
    }
}

/// The assassination targets.
fn create_assassination_targets() -> (r: Vec<(String, Position, TargetDifficulty, u32)>)
    ensures
        r@.len() == 5,
        forall|i: int| 0 <= i < 5 ==> {
            let (n, p, d, b) = assassination_target(i);
            &&& (#[trigger] r@[i]).0@ == n && r@[i].1 == p && r@[i].2 == d && r@[i].3 == b
        },
{
    vec![
        (
            "黑道會計師".to_owned(),
            Position::new(-3000, 50, -4000),
            TargetDifficulty::Easy,
            3000,
        ),
        (
            "毒品批發商".to_owned(),
            Position::new(6000, 50, 2000),
            TargetDifficulty::Medium,
            5000,
        ),
        (
            "軍火走私頭目".to_owned(),
            Position::new(-5000, 50, 5000),
            TargetDifficulty::Hard,
            8000,
        ),
        (
            "貪腐議員".to_owned(),
            Position::new(4000, 50, -3000),
            TargetDifficulty::Medium,
            6000,
        ),
        (
            "仿冒品大王".to_owned(),
            Position::new(-2000, 50, 6000),
            TargetDifficulty::Easy,
            2500,
        ),
    ]
}

/// The people to escort.
fn create_escort_vips() -> (r: Vec<(String, Position, Position, u32, u32)>)
    ensures
        r@.len() == 4,
        forall|i: int| 0 <= i < 4 ==> {
            let (n, s, d, w, rw) = escort_vip(i);
            &&& (#[trigger] r@[i]).0@ == n && r@[i].1 == s && r@[i].2 == d && r@[i].3 == w && r@[i].4 == rw
            &&& position_in_range(s) && position_in_range(d)
        },
{
    vec![
        (
            "證人張先生".to_owned(),
            Position::new(-4000, 50, -2000),
            Position::new(5000, 50, 4000),
            2,
            4000,
        ),
        (
            "外交官李小姐".to_owned(),
            Position::new(3000, 50, -5000),
            Position::new(-6000, 50, 3000),
            3,
            6000,
        ),
        (
            "藝人陳大哥".to_owned(),
            Position::new(0, 50, 0),
            Position::new(7000, 50, 6000),
            1,
            2500,
        ),
        (
            "科學家王博士".to_owned(),
            Position::new(-6000, 50, -6000),
            Position::new(4000, 50, 5000),
            4,
            8000,
        ),
    ]
}

/// The chases.
fn create_chase_scenarios() -> (r: Vec<(String, Position, Vec<Position>, u32)>)
    ensures
        r@.len() == 3,
        forall|i: int| 0 <= i < 3 ==> {
            let (n, s, l, rw) = chase_scenario(i);
            &&& (#[trigger] r@[i]).0@ == n && r@[i].1 == s && r@[i].2@.len() > 0 && r@[i].2@.last() == l && r@[i].3 == rw
        },
{
    vec![
        (
            "黑色轎車".to_owned(),
            Position::new(0, 50, 0),
            vec![
                Position::new(3000, 50, 1000),
                Position::new(6000, 50, 3000),
                Position::new(4000, 50, 6000),
            ],
            3500,
        ),
        (
            "改裝機車".to_owned(),
            Position::new(-2000, 50, -3000),
            vec![
                Position::new(-4000, 50, -1000),
                Position::new(-6000, 50, 2000),
                Position::new(-3000, 50, 5000),
            ],
            2500,
        ),
        (
            "運鈔車".to_owned(),
            Position::new(5000, 50, 5000),
            vec![
                Position::new(3000, 50, 3000),
                Position::new(0, 50, 1000),
                Position::new(-3000, 50, -2000),
                Position::new(-6000, 50, -5000),
            ],
            5000,
        ),
    ]
}

/// The photo assignments.
fn create_photo_missions() -> (r: Vec<(String, Vec<PhotoTarget>, u32)>)
    ensures
        r@.len() == 3,
        forall|i: int| 0 <= i < 3 ==> {
            let (n, c, f, rw) = photo_mission(i);
            &&& (#[trigger] r@[i]).0@ == n && r@[i].1@.len() == c && r@[i].1@[0].position == f && r@[i].2 == rw
        },
        forall|i: int, j: int| 0 <= i < 3 && 0 <= j < r@[i].1@.len() ==> {
            let (desc, pos, dist) = photo_target(i, j);
            &&& (#[trigger] r@[i].1@[j]).description@ == desc
            &&& r@[i].1@[j].position == pos
            &&& r@[i].1@[j].required_distance == dist
            &&& r@[i].1@[j].required_facing is None
            &&& !r@[i].1@[j].captured
        },
{
    vec![
        (
            "西門町地標巡禮".to_owned(),
            vec![
                PhotoTarget {
                    description: "西門紅樓".to_owned(),
                    position: Position::new(5000, 50, 6900),
                    required_distance: 1500,
                    required_facing: None,
                    captured: false,
                },
                PhotoTarget {
                    description: "電影街".to_owned(),
                    position: Position::new(-1000, 50, -2000),
                    required_distance: 1500,
                    required_facing: None,
                    captured: false,
                },
                PhotoTarget {
                    description: "萬年大樓".to_owned(),
                    position: Position::new(-6800, 50, -1200),
                    required_distance: 1500,
                    required_facing: None,
                    captured: false,
                },
            ],
            1500,
        ),
        (
            "街頭美食攝影".to_owned(),
            vec![
                PhotoTarget {
                    description: "阿宗麵線攤位".to_owned(),
                    position: Position::new(-1000, 50, -2000),
                    required_distance: 800,
                    required_facing: None,
                    captured: false,
                },
                PhotoTarget {
                    description: "成都楊桃冰".to_owned(),
                    position: Position::new(-1500, 50, 3000),
                    required_distance: 800,
                    required_facing: None,
                    captured: false,
                },
            ],
            1000,
        ),
        (
            "夜景特輯".to_owned(),
            vec![
                PhotoTarget {
                    description: "霓虹招牌街".to_owned(),
                    position: Position::new(0, 50, 0),
                    required_distance: 2000,
                    required_facing: None,
                    captured: false,
                },
                PhotoTarget {
                    description: "紅樓夜景".to_owned(),
                    position: Position::new(5000, 50, 6900),
                    required_distance: 2500,
                    required_facing: None,
                    captured: false,
                },
                PhotoTarget {
                    description: "獅子林霓虹".to_owned(),
                    position: Position::new(-6900, 50, -6600),
                    required_distance: 2000,
                    required_facing: None,
                    captured: false,
                },
                PhotoTarget {
                    description: "漢中街入口".to_owned(),
                    position: Position::new(-4500, 50, 1000),
                    required_distance: 1500,
                    required_facing: None,
                    captured: false,
                },
            ],
            2000,
        ),
    ]
}

} // verus!
