//! Street jobs: food deliveries, races and taxi rides, their ratings and
//! rewards, and the manager that offers them.
//!
//! Positions are in centimetres, distances in centimetres, times in
//! milliseconds, ratios in thousandths and multipliers in percent.
use vstd::prelude::*;
use crate::mission::story_data::types::Position;
use crate::random::random_in;
use crate::text::{push_decimal, decimal};

verus! {

/// Remaining-time ratio below which a delivery is late (one star).
pub const OVERTIME_THRESHOLD: i32 = 0;
/// Ratio below which a delivery gets two stars.
pub const ONE_STAR_TIME_THRESHOLD: i32 = 100;
/// Ratio below which a delivery gets three stars.
pub const TWO_STAR_TIME_THRESHOLD: i32 = 300;
/// Ratio below which a delivery gets four stars.
pub const THREE_STAR_TIME_THRESHOLD: i32 = 500;
pub const ONE_STAR_REWARD_MULTIPLIER: u32 = 50;
pub const TWO_STAR_REWARD_MULTIPLIER: u32 = 100;
pub const THREE_STAR_REWARD_MULTIPLIER: u32 = 120;
pub const FOUR_STAR_REWARD_MULTIPLIER: u32 = 150;
pub const FIVE_STAR_REWARD_MULTIPLIER: u32 = 200;
pub const GOLD_MEDAL_MULTIPLIER: u32 = 200;
pub const SILVER_MEDAL_MULTIPLIER: u32 = 150;
pub const BRONZE_MEDAL_MULTIPLIER: u32 = 120;
/// Highest passenger satisfaction.
pub const MAX_SATISFACTION: u32 = 1500;
pub const SATISFACTION_TO_TIP_BASE: u32 = 500;
pub const EXCELLENT_RATING_THRESHOLD: u32 = 1300;
pub const GOOD_RATING_THRESHOLD: u32 = 1000;
pub const AVERAGE_RATING_THRESHOLD: u32 = 700;
pub const POOR_RATING_THRESHOLD: u32 = 400;
/// Smallest tip, in percent of the pay.
pub const TIP_MIN_RATIO: u32 = 10;
/// Largest tip, in percent of the pay.
pub const TIP_MAX_RATIO: u32 = 30;
/// Shortest delivery time limit.
pub const MIN_TIME_LIMIT: u64 = 30_000;
/// Longest delivery time limit.
pub const MAX_TIME_LIMIT: u64 = 180_000;
/// Bonus per delivery of a streak, in percent.
pub const STREAK_BONUS_PER_DELIVERY: u32 = 5;
/// Longest streak that counts.
pub const MAX_STREAK_COUNT: u32 = 10;

/// Where a job stands.
#[derive(Clone, Copy, Debug, PartialEq, Eq, Structural)]
pub enum MissionStatus {
    Available,
    Active,
    Completed,
    Failed,
}

impl Default for MissionStatus {
    fn default() -> (s: MissionStatus)
        ensures
            s == MissionStatus::Available,
    {
        MissionStatus::Available
    }
}

/// Kind of job.
#[derive(Clone, Copy, Debug, PartialEq, Eq, Structural)]
pub enum MissionType {
    Delivery,
    Taxi,
    Race,
    Explore,
    Assassination,
    Escort,
    ChaseDown,
    Photography,
}

/// Stars of a delivery.
#[derive(Clone, Copy, Debug, PartialEq, Eq, Structural)]
pub enum DeliveryRating {
    /// Not rated yet.
    Unrated,
    /// Late.
    OneStar,
    /// Just in time.
    TwoStars,
    /// Early.
    ThreeStars,
    /// Well ahead.
    FourStars,
    /// Lightning fast.
    FiveStars,
}

impl Default for DeliveryRating {
    fn default() -> (r: DeliveryRating)
        ensures
            r == DeliveryRating::Unrated,
    {
        DeliveryRating::Unrated
    }
}

/// Stars earned for the share of the time limit left (thousandths).
pub open spec fn rating_for_ratio(ratio: int) -> DeliveryRating {
    if ratio < OVERTIME_THRESHOLD {
        DeliveryRating::OneStar
    } else if ratio < ONE_STAR_TIME_THRESHOLD {
        DeliveryRating::TwoStars
    } else if ratio < TWO_STAR_TIME_THRESHOLD {
        DeliveryRating::ThreeStars
    } else if ratio < THREE_STAR_TIME_THRESHOLD {
        DeliveryRating::FourStars
    } else {
        DeliveryRating::FiveStars
    }
}

/// Reward multiplier of a delivery rating, in percent.
pub open spec fn delivery_bonus_percent(r: DeliveryRating) -> int {
    match r {
        DeliveryRating::Unrated => TWO_STAR_REWARD_MULTIPLIER as int,
        DeliveryRating::OneStar => ONE_STAR_REWARD_MULTIPLIER as int,
        DeliveryRating::TwoStars => TWO_STAR_REWARD_MULTIPLIER as int,
        DeliveryRating::ThreeStars => THREE_STAR_REWARD_MULTIPLIER as int,
        DeliveryRating::FourStars => FOUR_STAR_REWARD_MULTIPLIER as int,
        DeliveryRating::FiveStars => FIVE_STAR_REWARD_MULTIPLIER as int,
    }
}

/// Number of stars of a delivery rating.
pub open spec fn delivery_stars(r: DeliveryRating) -> int {
    match r {
        DeliveryRating::Unrated => 0,
        DeliveryRating::OneStar => 1,
        DeliveryRating::TwoStars => 2,
        DeliveryRating::ThreeStars => 3,
        DeliveryRating::FourStars => 4,
        DeliveryRating::FiveStars => 5,
    }
}

impl DeliveryRating {
    /// The rating for the share of the time limit left, in thousandths
    /// (negative when late).
    pub fn from_time_ratio(remaining_ratio: i32) -> (r: DeliveryRating)
        ensures
            r == rating_for_ratio(remaining_ratio as int),
    {
        if remaining_ratio < OVERTIME_THRESHOLD {
            DeliveryRating::OneStar
        } else if remaining_ratio < ONE_STAR_TIME_THRESHOLD {
            DeliveryRating::TwoStars
        } else if remaining_ratio < TWO_STAR_TIME_THRESHOLD {
            DeliveryRating::ThreeStars
        } else if remaining_ratio < THREE_STAR_TIME_THRESHOLD {
            DeliveryRating::FourStars
        } else {
            DeliveryRating::FiveStars
        }
    }

    /// Reward multiplier, in percent.
    pub fn bonus_multiplier(&self) -> (p: u32)
        ensures
            p == delivery_bonus_percent(*self),
    {
        match self {
            DeliveryRating::Unrated => TWO_STAR_REWARD_MULTIPLIER,
            DeliveryRating::OneStar => ONE_STAR_REWARD_MULTIPLIER,
            DeliveryRating::TwoStars => TWO_STAR_REWARD_MULTIPLIER,
            DeliveryRating::ThreeStars => THREE_STAR_REWARD_MULTIPLIER,
            DeliveryRating::FourStars => FOUR_STAR_REWARD_MULTIPLIER,
            DeliveryRating::FiveStars => FIVE_STAR_REWARD_MULTIPLIER,
        }
    }

    /// The stars as emoji.
    pub fn stars(&self) -> (s: &'static str)
        ensures
            s@ == match *self {
                DeliveryRating::Unrated => ""@,
                DeliveryRating::OneStar => "⭐"@,
                DeliveryRating::TwoStars => "⭐⭐"@,
                DeliveryRating::ThreeStars => "⭐⭐⭐"@,
                DeliveryRating::FourStars => "⭐⭐⭐⭐"@,
                DeliveryRating::FiveStars => "⭐⭐⭐⭐⭐"@,
            },
    {
        match self {
            DeliveryRating::Unrated => "",
            DeliveryRating::OneStar => "⭐",
            DeliveryRating::TwoStars => "⭐⭐",
            DeliveryRating::ThreeStars => "⭐⭐⭐",
            DeliveryRating::FourStars => "⭐⭐⭐⭐",
            DeliveryRating::FiveStars => "⭐⭐⭐⭐⭐",
        }
    }
}

/// The more time is left, the more stars a delivery earns.
pub proof fn earlier_deliveries_rate_higher(a: int, b: int)
    requires
        a <= b,
    ensures
        delivery_stars(rating_for_ratio(a)) <= delivery_stars(rating_for_ratio(b)),
        delivery_bonus_percent(rating_for_ratio(a)) <= delivery_bonus_percent(rating_for_ratio(b)),
{
}

/// An order to deliver.
#[derive(Debug)]
pub struct DeliveryOrder {
    pub restaurant_name: String,
    pub customer_address: String,
    pub food_item: String,
    pub base_pay: u32,
    /// Smallest and largest tip.
    pub tip_range: (u32, u32),
    /// Distance from the restaurant to the customer.
    pub distance: u64,
}

/// A restaurant orders are picked up from.
#[derive(Clone, Debug)]
pub struct Restaurant {
    pub name: String,
    pub position: Position,
    pub food_types: Vec<String>,
}

/// A place orders are delivered to.
#[derive(Clone, Debug)]
pub struct CustomerLocation {
    pub address: String,
    pub position: Position,
}

/// A job offered to the player.
#[derive(Debug)]
pub struct MissionData {
    pub id: u32,
    pub mission_type: MissionType,
    pub title: String,
    pub description: String,
    pub start_pos: Position,
    pub end_pos: Position,
    pub reward: u32,
    pub time_limit: Option<u64>,
    pub delivery_order: Option<DeliveryOrder>,
    pub race_data: Option<RaceData>,
    pub taxi_data: Option<TaxiData>,
}

/// A race: its checkpoints and medal times.
#[derive(Clone, Debug)]
pub struct RaceData {
    pub checkpoints: Vec<Position>,
    /// Index of the checkpoint to reach next.
    pub current_checkpoint: usize,
    pub best_time: Option<u32>,
    pub gold_time: u32,
    pub silver_time: u32,
    pub bronze_time: u32,
}

/// Medal of a race.
#[derive(Clone, Copy, Debug, PartialEq, Eq, Structural)]
pub enum RaceMedal {
    NoMedal,
    Bronze,
    Silver,
    Gold,
}

impl Default for RaceMedal {
    fn default() -> (m: RaceMedal)
        ensures
            m == RaceMedal::NoMedal,
    {
        RaceMedal::NoMedal
    }
}

/// The medal for a finishing time: gold up to the gold time, then silver,
/// bronze, none.
pub open spec fn medal_for(gold: int, silver: int, bronze: int, time: int) -> RaceMedal {
    if time <= gold {
        RaceMedal::Gold
    } else if time <= silver {
        RaceMedal::Silver
    } else if time <= bronze {
        RaceMedal::Bronze
    } else {
        RaceMedal::NoMedal
    }
}

/// Rank of a medal (none 0 to gold 3).
pub open spec fn medal_rank(m: RaceMedal) -> int {
    match m {
        RaceMedal::NoMedal => 0,
        RaceMedal::Bronze => 1,
        RaceMedal::Silver => 2,
        RaceMedal::Gold => 3,
    }
}

impl RaceData {
    /// A race at its first checkpoint with the given medal times.
    pub fn new(checkpoints: Vec<Position>, gold: u32, silver: u32, bronze: u32) -> (r: RaceData)
        ensures
            r.checkpoints@ == checkpoints@,
            r.current_checkpoint == 0,
            r.best_time is None,
            r.gold_time == gold && r.silver_time == silver && r.bronze_time == bronze,
    {
        RaceData { checkpoints, current_checkpoint: 0, best_time: None, gold_time: gold, silver_time: silver, bronze_time: bronze }
    }

    /// The checkpoint to reach next, if any.
    pub fn current_checkpoint_pos(&self) -> (p: Option<Position>)
        ensures
            self.current_checkpoint < self.checkpoints@.len() ==> p == Some(self.checkpoints@[self.current_checkpoint as int]),
            self.current_checkpoint >= self.checkpoints@.len() ==> p is None,
    {
        if self.current_checkpoint < self.checkpoints.len() {
            Some(self.checkpoints[self.current_checkpoint])
        } else {
            None
        }
    }

    /// Moves to the next checkpoint, unless at the last one.
    pub fn advance_checkpoint(&mut self) -> (moved: bool)
        ensures
            moved == (old(self).current_checkpoint + 1 < old(self).checkpoints@.len()),
            moved ==> final(self).current_checkpoint == old(self).current_checkpoint + 1,
            !moved ==> final(self).current_checkpoint == old(self).current_checkpoint,
            final(self).checkpoints == old(self).checkpoints,
            final(self).best_time == old(self).best_time,
            final(self).gold_time == old(self).gold_time,
            final(self).silver_time == old(self).silver_time,
            final(self).bronze_time == old(self).bronze_time,
    {
        if self.current_checkpoint < self.checkpoints.len() && self.current_checkpoint + 1 < self.checkpoints.len() {
            self.current_checkpoint = self.current_checkpoint + 1;
            true
        } else {
            false
        }
    }

    /// Whether every checkpoint is passed.
    pub fn is_finished(&self) -> (b: bool)
        ensures
            b == (self.current_checkpoint >= self.checkpoints@.len()),
    {
        self.current_checkpoint >= self.checkpoints.len()
    }

    /// The medal for a finishing time.
    pub fn medal_for_time(&self, time: u32) -> (m: RaceMedal)
        ensures
            m == medal_for(self.gold_time as int, self.silver_time as int, self.bronze_time as int, time as int),
    {
        if time <= self.gold_time {
            RaceMedal::Gold
        } else if time <= self.silver_time {
            RaceMedal::Silver
        } else if time <= self.bronze_time {
            RaceMedal::Bronze
        } else {
            RaceMedal::NoMedal
        }
    }
}

/// With ordered medal times, a faster finish never earns a lesser medal.
pub proof fn faster_never_worse(gold: int, silver: int, bronze: int, t1: int, t2: int)
    requires
        gold <= silver <= bronze,
        t1 <= t2,
    ensures
        medal_rank(medal_for(gold, silver, bronze, t1)) >= medal_rank(medal_for(gold, silver, bronze, t2)),
{
}

impl RaceMedal {
    /// The medal as emoji.
    pub fn emoji(&self) -> (s: &'static str)
        ensures
            s@ == match *self {
                RaceMedal::Gold => "🥇"@,
                RaceMedal::Silver => "🥈"@,
                RaceMedal::Bronze => "🥉"@,
                RaceMedal::NoMedal => ""@,
            },
    {
        match self {
            RaceMedal::Gold => "🥇",
            RaceMedal::Silver => "🥈",
            RaceMedal::Bronze => "🥉",
            RaceMedal::NoMedal => "",
        }
    }

    /// Reward multiplier, in percent.
    pub fn bonus_multiplier(&self) -> (p: u32)
        ensures
            p == match *self {
                RaceMedal::Gold => 200int,
                RaceMedal::Silver => 150int,
                RaceMedal::Bronze => 120int,
                RaceMedal::NoMedal => 100int,
            },
    {
        match self {
            RaceMedal::Gold => GOLD_MEDAL_MULTIPLIER,
            RaceMedal::Silver => SILVER_MEDAL_MULTIPLIER,
            RaceMedal::Bronze => BRONZE_MEDAL_MULTIPLIER,
            RaceMedal::NoMedal => TWO_STAR_REWARD_MULTIPLIER,
        }
    }
}

/// A taxi ride.
#[derive(Clone, Debug)]
pub struct TaxiData {
    pub passenger_name: String,
    pub passenger_mood: String,
    pub destination_name: String,
    pub passenger_picked_up: bool,
    /// Patience left, in thousandths.
    pub patience: u32,
    /// Satisfaction, in thousandths (0 to 1500).
    pub satisfaction: u32,
    /// Tip multiplier, in thousandths.
    pub tip_multiplier: u32,
}

/// Rating of a taxi ride.
#[derive(Clone, Copy, Debug, PartialEq, Eq, Structural)]
pub enum TaxiRating {
    Excellent,
    Good,
    Average,
    Poor,
    Terrible,
}

impl Default for TaxiRating {
    fn default() -> (r: TaxiRating)
        ensures
            r == TaxiRating::Good,
    {
        TaxiRating::Good
    }
}

/// The rating for a satisfaction (thousandths).
pub open spec fn taxi_rating_for(s: int) -> TaxiRating {
    if s >= EXCELLENT_RATING_THRESHOLD {
        TaxiRating::Excellent
    } else if s >= GOOD_RATING_THRESHOLD {
        TaxiRating::Good
    } else if s >= AVERAGE_RATING_THRESHOLD {
        TaxiRating::Average
    } else if s >= POOR_RATING_THRESHOLD {
        TaxiRating::Poor
    } else {
        TaxiRating::Terrible
    }
}

/// `v` kept within 0..=1500.
pub open spec fn clamp_satisfaction(v: int) -> int {
    if v < 0 { 0 } else if v > MAX_SATISFACTION { MAX_SATISFACTION as int } else { v }
}

impl TaxiData {
    /// A ride not picked up yet, patient, satisfied and in a normal mood.
    pub fn new(passenger_name: String, destination_name: String) -> (t: TaxiData)
        ensures
            t.passenger_name == passenger_name,
            t.passenger_mood@ == "普通"@,
            t.destination_name == destination_name,
            !t.passenger_picked_up,
            t.patience == 1000,
            t.satisfaction == 1000,
            t.tip_multiplier == 1000,
    {
        TaxiData {
            passenger_name,
            passenger_mood: "普通".to_owned(),
            destination_name,
            passenger_picked_up: false,
            patience: 1000,
            satisfaction: 1000,
            tip_multiplier: 1000,
        }
    }

    /// Changes the satisfaction (kept within 0..=1500) by the driving;
    /// the tip multiplier follows it.
    pub fn update_satisfaction(&mut self, delta: i32)
        ensures
            final(self).satisfaction == clamp_satisfaction(old(self).satisfaction + delta),
            final(self).tip_multiplier == SATISFACTION_TO_TIP_BASE + final(self).satisfaction,
            final(self).passenger_name == old(self).passenger_name,
            final(self).passenger_mood == old(self).passenger_mood,
            final(self).destination_name == old(self).destination_name,
            final(self).passenger_picked_up == old(self).passenger_picked_up,
            final(self).patience == old(self).patience,
    {
        let v: i64 = self.satisfaction as i64 + delta as i64;
        self.satisfaction = if v < 0 { 0 } else if v > MAX_SATISFACTION as i64 { MAX_SATISFACTION } else { v as u32 };
        self.tip_multiplier = SATISFACTION_TO_TIP_BASE + self.satisfaction;
    }

    /// The rating of the ride.
    pub fn rating(&self) -> (r: TaxiRating)
        ensures
            r == taxi_rating_for(self.satisfaction as int),
    {
        if self.satisfaction >= EXCELLENT_RATING_THRESHOLD {
            TaxiRating::Excellent
        } else if self.satisfaction >= GOOD_RATING_THRESHOLD {
            TaxiRating::Good
        } else if self.satisfaction >= AVERAGE_RATING_THRESHOLD {
            TaxiRating::Average
        } else if self.satisfaction >= POOR_RATING_THRESHOLD {
            TaxiRating::Poor
        } else {
            TaxiRating::Terrible
        }
    }
}

impl TaxiRating {
    /// The rating as emoji.
    pub fn emoji(&self) -> (s: &'static str)
        ensures
            s@ == match *self {
                TaxiRating::Excellent => "😍"@,
                TaxiRating::Good => "😊"@,
                TaxiRating::Average => "😐"@,
                TaxiRating::Poor => "😒"@,
                TaxiRating::Terrible => "😠"@,
            },
    {
        match self {
            TaxiRating::Excellent => "😍",
            TaxiRating::Good => "😊",
            TaxiRating::Average => "😐",
            TaxiRating::Poor => "😒",
            TaxiRating::Terrible => "😠",
        }
    }

    /// Tip multiplier, in percent.
    pub fn tip_multiplier(&self) -> (p: u32)
        ensures
            p == match *self {
                TaxiRating::Excellent => 200int,
                TaxiRating::Good => 150int,
                TaxiRating::Average => 100int,
                TaxiRating::Poor => 50int,
                TaxiRating::Terrible => 0int,
            },
    {
        match self {
            TaxiRating::Excellent => 200,
            TaxiRating::Good => 150,
            TaxiRating::Average => 100,
            TaxiRating::Poor => 50,
            TaxiRating::Terrible => 0,
        }
    }
}

/// A job done (for the job log).
#[derive(Clone, Debug)]
pub struct CompletedMissionRecord {
    pub title: String,
    pub mission_type: MissionType,
    pub reward: u32,
    pub stars: u8,
    pub rating_label: String,
}

/// `n` stars in a row.
pub open spec fn star_text(n: nat) -> Seq<char>
    decreases n,
{
    if n == 0 { Seq::empty() } else { star_text((n - 1) as nat) + "★"@ }
}

/// Name shown for a kind of job.
pub open spec fn job_kind_name(t: MissionType) -> Seq<char> {
    match t {
        MissionType::Delivery => "外送"@,
        MissionType::Taxi => "載客"@,
        MissionType::Race => "競速"@,
        MissionType::Explore => "探索"@,
        MissionType::Assassination => "暗殺"@,
        MissionType::Escort => "護送"@,
        MissionType::ChaseDown => "飛車追逐"@,
        MissionType::Photography => "拍照"@,
    }
}

impl CompletedMissionRecord {
    /// The stars as a row of "★".
    pub fn stars_display(&self) -> (s: String)
        ensures
            s@ == star_text(self.stars as nat),
    {
        let mut s = String::new();
        let mut i: u8 = 0;
        while i < self.stars
            invariant
                0 <= i <= self.stars,
                s@ == star_text(i as nat),
            decreases self.stars - i,
        {
            s.append("★");
            i = i + 1;
        }
        s
    }

    /// Name of the job's kind.
    pub fn type_label(&self) -> (s: &'static str)
        ensures
            s@ == job_kind_name(self.mission_type),
    {
        match self.mission_type {
            MissionType::Delivery => "外送",
            MissionType::Taxi => "載客",
            MissionType::Race => "競速",
            MissionType::Explore => "探索",
            MissionType::Assassination => "暗殺",
            MissionType::Escort => "護送",
            MissionType::ChaseDown => "飛車追逐",
            MissionType::Photography => "拍照",
        }
    }
}

/// The job being done.
#[derive(Debug)]
pub struct ActiveMission {
    pub data: MissionData,
    pub status: MissionStatus,
    pub time_elapsed: u64,
    /// Whether the food was picked up.
    pub picked_up: bool,
    pub last_rating: DeliveryRating,
}

/// A marker on a job's start or end.
#[derive(Clone, Copy, Debug, PartialEq, Eq, Structural)]
pub struct MissionMarker {
    pub mission_id: u32,
    pub is_start: bool,
}

/// Coordinates small enough for distances to be computed exactly.
pub open spec fn position_in_range(p: Position) -> bool {
    &&& -1_000_000_000 <= p.x <= 1_000_000_000
    &&& -1_000_000_000 <= p.y <= 1_000_000_000
    &&& -1_000_000_000 <= p.z <= 1_000_000_000
}

/// Square of the distance between two points.
pub open spec fn distance_squared(a: Position, b: Position) -> int {
    (a.x - b.x) * (a.x - b.x) + (a.y - b.y) * (a.y - b.y) + (a.z - b.z) * (a.z - b.z)
}

/// `r` is the distance rounded down: the integer square root.
pub open spec fn is_floor_sqrt(r: int, n: int) -> bool {
    r >= 0 && r * r <= n < (r + 1) * (r + 1)
}

/// The integer square root of `n`.
pub fn isqrt(n: u64) -> (r: u64)
    ensures
        is_floor_sqrt(r as int, n as int),
{
    let mut lo: u64 = 0;
    let mut hi: u64 = 0x1_0000_0000;
    assert(hi as int * hi as int > n as int) by (nonlinear_arith)
        requires
            hi == 0x1_0000_0000u64,
    ;
    while hi - lo > 1
        invariant
            lo < hi <= 0x1_0000_0000,
            lo as int * lo as int <= n as int,
            (n as int) < (hi as int) * (hi as int),
        decreases hi - lo,
    {
        let mid: u64 = lo + (hi - lo) / 2;
        assert(mid as int * mid as int <= 0x1_0000_0000 * 0x1_0000_0000) by (nonlinear_arith)
            requires
                mid <= 0x1_0000_0000u64,
        ;
        if (mid as u128) * (mid as u128) <= n as u128 {
            lo = mid;
        } else {
            hi = mid;
        }
    }
    assert(hi == lo + 1);
    lo
}

/// The distance between two points, rounded down.
pub fn distance_cm(a: Position, b: Position) -> (d: u64)
    requires
        position_in_range(a),
        position_in_range(b),
    ensures
        is_floor_sqrt(d as int, distance_squared(a, b)),
{
    let dx: i64 = a.x - b.x;
    let dy: i64 = a.y - b.y;
    let dz: i64 = a.z - b.z;
    assert(0 <= dx as int * dx as int <= 4_000_000_000_000_000_000) by (nonlinear_arith)
        requires
            -2_000_000_000 <= dx <= 2_000_000_000,
    ;
    assert(0 <= dy as int * dy as int <= 4_000_000_000_000_000_000) by (nonlinear_arith)
        requires
            -2_000_000_000 <= dy <= 2_000_000_000,
    ;
    assert(0 <= dz as int * dz as int <= 4_000_000_000_000_000_000) by (nonlinear_arith)
        requires
            -2_000_000_000 <= dz <= 2_000_000_000,
    ;
    let sq: u128 = (dx as i128 * dx as i128 + dy as i128 * dy as i128 + dz as i128 * dz as i128) as u128;
    isqrt(sq as u64)
}

/// Pay of a delivery over `distance`: 30 plus 5 for every full 10 metres.
pub open spec fn delivery_pay(distance: int) -> int {
    30 + (distance / 1000) * 5
}

/// Fare of a taxi ride over `distance`: 70 plus 5 for every full 200 metres.
pub open spec fn taxi_fare(distance: int) -> int {
    70 + (distance / 20000) * 5
}

/// The pay of a delivery over a distance.
fn calculate_delivery_pay(distance: u64) -> (p: u32)
    requires
        distance <= 10_000_000_000,
    ensures
        p == delivery_pay(distance as int),
{
    30 + (distance / 1000) as u32 * 5
}

/// The fare of a taxi ride over a distance.
fn calculate_taxi_fare(distance: u64) -> (p: u32)
    requires
        distance <= 10_000_000_000,
    ensures
        p == taxi_fare(distance as int),
{
    70 + (distance / 20000) as u32 * 5
}


/// The taxi passengers: name and where they wait.
pub open spec fn taxi_passenger(i: int) -> (Seq<char>, Position) {
    if i == 0 {
        ("陳先生"@, Position { x: -2000i64, y: 50i64, z: 1500i64 })
    } else if i == 1 {
        ("林小姐"@, Position { x: 1500i64, y: 50i64, z: -3500i64 })
    } else if i == 2 {
        ("王太太"@, Position { x: -4500i64, y: 50i64, z: 2500i64 })
    } else if i == 3 {
        ("張同學"@, Position { x: 3000i64, y: 50i64, z: 4200i64 })
    } else if i == 4 {
        ("李伯伯"@, Position { x: -1500i64, y: 50i64, z: -5500i64 })
    } else if i == 5 {
        ("劉小弟"@, Position { x: 5000i64, y: 50i64, z: 2000i64 })
    } else if i == 6 {
        ("黃阿姨"@, Position { x: -6000i64, y: 50i64, z: -2000i64 })
    } else {
        ("趙經理"@, Position { x: 2500i64, y: 50i64, z: 4500i64 })
    }
}

/// The taxi destinations: name and place.
pub open spec fn taxi_destination(i: int) -> (Seq<char>, Position) {
    if i == 0 {
        ("西門紅樓"@, Position { x: 4500i64, y: 50i64, z: 4500i64 })
    } else if i == 1 {
        ("捷運西門站"@, Position { x: 5500i64, y: 50i64, z: 3600i64 })
    } else if i == 2 {
        ("誠品西門店"@, Position { x: -1800i64, y: 50i64, z: -1800i64 })
    } else if i == 3 {
        ("萬年大樓"@, Position { x: -6800i64, y: 50i64, z: -1500i64 })
    } else if i == 4 {
        ("獅子林大樓"@, Position { x: -6500i64, y: 50i64, z: -6000i64 })
    } else if i == 5 {
        ("錢櫃 KTV"@, Position { x: 7000i64, y: 50i64, z: 3000i64 })
    } else if i == 6 {
        ("電影公園"@, Position { x: -6500i64, y: 50i64, z: -4000i64 })
    } else {
        ("成都路口"@, Position { x: 1000i64, y: 50i64, z: 4500i64 })
    }
}

/// The race courses: name, gold, silver and bronze times, reward.
pub open spec fn race_course(i: int) -> (Seq<char>, u32, u32, u32, u32) {
    if i == 0 {
        ("西門環城賽"@, 45000, 55000, 70000, 1500)
    } else if i == 1 {
        ("漢中街衝刺"@, 20000, 25000, 35000, 800)
    } else if i == 2 {
        ("峨嵋蛇行"@, 30000, 40000, 50000, 1000)
    } else {
        ("紅樓繞圈"@, 25000, 32000, 40000, 900)
    }
}

/// Restaurant `i`: name, place and dishes.
pub open spec fn restaurant_entry(i: int) -> (Seq<char>, Position, Seq<Seq<char>>) {
    if i == 0 {
        ("阿宗麵線"@, Position { x: -1000i64, y: 50i64, z: -2000i64 }, seq!["大腸麵線"@, "綜合麵線"@])
    } else if i == 1 {
        ("老天祿滷味"@, Position { x: 500i64, y: 50i64, z: -2500i64 }, seq!["滷鴨舌"@, "滷豆干"@, "滷雞翅"@])
    } else if i == 2 {
        ("成都楊桃冰"@, Position { x: -1500i64, y: 50i64, z: 3000i64 }, seq!["楊桃冰"@, "酸梅冰"@])
    } else if i == 3 {
        ("鴨肉扁"@, Position { x: 2000i64, y: 50i64, z: -1000i64 }, seq!["鴨肉飯"@, "鴨肉切盤"@, "米粉湯"@])
    } else if i == 4 {
        ("天天利美食坊"@, Position { x: -3000i64, y: 50i64, z: 1500i64 }, seq!["蚵仔煎"@, "肉圓"@])
    } else if i == 5 {
        ("萬年排骨"@, Position { x: -6800i64, y: 50i64, z: -1200i64 }, seq!["排骨飯"@, "雞腿飯"@])
    } else if i == 6 {
        ("50嵐"@, Position { x: 1000i64, y: 50i64, z: 4000i64 }, seq!["珍珠奶茶"@, "四季春"@, "波霸鮮奶"@])
    } else {
        ("麥當勞西門店"@, Position { x: 4500i64, y: 50i64, z: 3500i64 }, seq!["大麥克"@, "麥香雞"@, "薯條"@])
    }
}

/// Delivery address `i` and its place.
pub open spec fn customer_location(i: int) -> (Seq<char>, Position) {
    if i == 0 {
        ("西門紅樓附近"@, Position { x: 5000i64, y: 50i64, z: 6900i64 })
    } else if i == 1 {
        ("捷運西門站出口"@, Position { x: 5500i64, y: 50i64, z: 3600i64 })
    } else if i == 2 {
        ("誠品西門店"@, Position { x: -1350i64, y: 50i64, z: -1350i64 })
    } else if i == 3 {
        ("武昌街商圈"@, Position { x: -1200i64, y: 50i64, z: -3800i64 })
    } else if i == 4 {
        ("漢中街夜市"@, Position { x: -4500i64, y: 50i64, z: 1000i64 })
    } else if i == 5 {
        ("萬年大樓"@, Position { x: -6800i64, y: 50i64, z: -1200i64 })
    } else if i == 6 {
        ("獅子林大樓"@, Position { x: -6900i64, y: 50i64, z: -6600i64 })
    } else if i == 7 {
        ("錢櫃 KTV"@, Position { x: 9750i64, y: 50i64, z: 3350i64 })
    } else if i == 8 {
        ("電影公園"@, Position { x: -6900i64, y: 50i64, z: -3500i64 })
    } else {
        ("成都路口"@, Position { x: 0i64, y: 50i64, z: 5000i64 })
    }
}

/// Starting delivery job `i`: title, description, start, destination,
/// reward and time limit (milliseconds).
pub open spec fn default_mission(i: int) -> (Seq<char>, Seq<char>, Position, Position, u32, u64) {
    if i == 0 {
        ("西門町送貨"@, "將包裹從便利商店送到西門紅樓前"@, Position { x: -2000i64, y: 50i64, z: 1500i64 }, Position { x: 5000i64, y: 50i64, z: 6900i64 }, 500, 60000)
    } else if i == 1 {
        ("便利商店補貨"@, "將貨物從武昌街送到漢中街"@, Position { x: -4000i64, y: 50i64, z: -8000i64 }, Position { x: -1500i64, y: 50i64, z: -5000i64 }, 600, 90000)
    } else {
        ("緊急快遞"@, "限時送達！從錢櫃送到誠品"@, Position { x: 9750i64, y: 50i64, z: 3350i64 }, Position { x: -1350i64, y: 50i64, z: -1350i64 }, 1000, 45000)
    }
}

/// The restaurants orders are picked up from (real shops of Ximending).
fn create_restaurants() -> (r: Vec<Restaurant>)
    ensures
        r@.len() == 8,
        forall|i: int| 0 <= i < r@.len() ==> (#[trigger] r@[i]).food_types@.len() > 0 && position_in_range(r@[i].position),
        forall|i: int| 0 <= i < 8 ==> {
            let (name, place, foods) = restaurant_entry(i);
            &&& (#[trigger] r@[i]).name@ == name && r@[i].position == place
            &&& r@[i].food_types@.len() == foods.len()
            &&& forall|j: int| 0 <= j < foods.len() ==> (#[trigger] r@[i].food_types@[j])@ == foods[j]
        },
{
    vec![
        Restaurant {
            name: "阿宗麵線".to_owned(),
            position: Position::new(-1000, 50, -2000),
            food_types: vec!["大腸麵線".to_owned(), "綜合麵線".to_owned()],
        },
        Restaurant {
            name: "老天祿滷味".to_owned(),
            position: Position::new(500, 50, -2500),
            food_types: vec!["滷鴨舌".to_owned(), "滷豆干".to_owned(), "滷雞翅".to_owned()],
        },
        Restaurant {
            name: "成都楊桃冰".to_owned(),
            position: Position::new(-1500, 50, 3000),
            food_types: vec!["楊桃冰".to_owned(), "酸梅冰".to_owned()],
        },
        Restaurant {
            name: "鴨肉扁".to_owned(),
            position: Position::new(2000, 50, -1000),
            food_types: vec!["鴨肉飯".to_owned(), "鴨肉切盤".to_owned(), "米粉湯".to_owned()],
        },
        Restaurant {
            name: "天天利美食坊".to_owned(),
            position: Position::new(-3000, 50, 1500),
            food_types: vec!["蚵仔煎".to_owned(), "肉圓".to_owned()],
        },
        Restaurant {
            name: "萬年排骨".to_owned(),
            position: Position::new(-6800, 50, -1200),
            food_types: vec!["排骨飯".to_owned(), "雞腿飯".to_owned()],
        },
        Restaurant {
            name: "50嵐".to_owned(),
            position: Position::new(1000, 50, 4000),
            food_types: vec!["珍珠奶茶".to_owned(), "四季春".to_owned(), "波霸鮮奶".to_owned()],
        },
        Restaurant {
            name: "麥當勞西門店".to_owned(),
            position: Position::new(4500, 50, 3500),
            food_types: vec!["大麥克".to_owned(), "麥香雞".to_owned(), "薯條".to_owned()],
        },
    ]
}

/// The places orders are delivered to.
fn create_customer_locations() -> (r: Vec<CustomerLocation>)
    ensures
        r@.len() == 10,
        forall|i: int| 0 <= i < r@.len() ==> position_in_range((#[trigger] r@[i]).position),
        forall|i: int|
            0 <= i < 10 ==> (#[trigger] r@[i]).address@ == customer_location(i).0 && r@[i].position
                == customer_location(i).1,
{
    vec![
        CustomerLocation {
            address: "西門紅樓附近".to_owned(),
            position: Position::new(5000, 50, 6900),
        },
        CustomerLocation {
            address: "捷運西門站出口".to_owned(),
            position: Position::new(5500, 50, 3600),
        },
        CustomerLocation {
            address: "誠品西門店".to_owned(),
            position: Position::new(-1350, 50, -1350),
        },
        CustomerLocation {
            address: "武昌街商圈".to_owned(),
            position: Position::new(-1200, 50, -3800),
        },
        CustomerLocation {
            address: "漢中街夜市".to_owned(),
            position: Position::new(-4500, 50, 1000),
        },
        CustomerLocation {
            address: "萬年大樓".to_owned(),
            position: Position::new(-6800, 50, -1200),
        },
        CustomerLocation {
            address: "獅子林大樓".to_owned(),
            position: Position::new(-6900, 50, -6600),
        },
        CustomerLocation {
            address: "錢櫃 KTV".to_owned(),
            position: Position::new(9750, 50, 3350),
        },
        CustomerLocation {
            address: "電影公園".to_owned(),
            position: Position::new(-6900, 50, -3500),
        },
        CustomerLocation {
            address: "成都路口".to_owned(),
            position: Position::new(0, 50, 5000),
        },
    ]
}

/// The three starting delivery missions.
fn create_default_missions() -> (r: Vec<MissionData>)
    ensures
        r@.len() == 3,
        r@[0].id == 1 && r@[1].id == 2 && r@[2].id == 3,
        forall|i: int| 0 <= i < 3 ==> {
            let (title, description, start, end, reward, limit) = default_mission(i);
            &&& (#[trigger] r@[i]).mission_type == MissionType::Delivery
            &&& r@[i].title@ == title && r@[i].description@ == description
            &&& r@[i].start_pos == start && r@[i].end_pos == end
            &&& r@[i].reward == reward && r@[i].time_limit == Some(limit)
            &&& r@[i].delivery_order is None && r@[i].race_data is None && r@[i].taxi_data is None
        },
{
    vec![
        MissionData {
            id: 1, mission_type: MissionType::Delivery,
            title: "西門町送貨".to_owned(),
            description: "將包裹從便利商店送到西門紅樓前".to_owned(),
            start_pos: Position::new(-2000, 50, 1500),
            end_pos: Position::new(5000, 50, 6900),
            reward: 500, time_limit: Some(60000),
            delivery_order: None,
            race_data: None,
            taxi_data: None,
        },
        MissionData {
            id: 2, mission_type: MissionType::Delivery,
            title: "便利商店補貨".to_owned(),
            description: "將貨物從武昌街送到漢中街".to_owned(),
            start_pos: Position::new(-4000, 50, -8000),
            end_pos: Position::new(-1500, 50, -5000),
            reward: 600, time_limit: Some(90000),
            delivery_order: None,
            race_data: None,
            taxi_data: None,
        },
        MissionData {
            id: 3, mission_type: MissionType::Delivery,
            title: "緊急快遞".to_owned(),
            description: "限時送達！從錢櫃送到誠品".to_owned(),
            start_pos: Position::new(9750, 50, 3350),
            end_pos: Position::new(-1350, 50, -1350),
            reward: 1000, time_limit: Some(45000),
            delivery_order: None,
            race_data: None,
            taxi_data: None,
        },
    ]
}

/// The race courses: name, checkpoints, gold, silver and bronze times
/// (milliseconds) and reward.
fn create_race_courses() -> (r: Vec<(String, Vec<Position>, u32, u32, u32, u32)>)
    ensures
        r@.len() == 4,
        forall|i: int| 0 <= i < r@.len() ==> {
            &&& (#[trigger] r@[i]).1@.len() > 0
            &&& forall|j: int| 0 <= j < r@[i].1@.len() ==> position_in_range(#[trigger] r@[i].1@[j])
            &&& r@[i].0@ == race_course(i).0
            &&& r@[i].2 == race_course(i).1 && r@[i].3 == race_course(i).2
            &&& r@[i].4 == race_course(i).3 && r@[i].5 == race_course(i).4
        },
{
    vec![

        (
            "西門環城賽".to_owned(),
            vec![
                Position::new(0, 50, 0),
                Position::new(3000, 50, 0),
                Position::new(5000, 50, 3000),
                Position::new(3000, 50, 6000),
                Position::new(-3000, 50, 6000),
                Position::new(-5000, 50, 3000),
                Position::new(-5000, 50, -3000),
                Position::new(-2000, 50, -5000),
                Position::new(2000, 50, -5000),
                Position::new(0, 50, 0),
            ],
            45000,
            55000,
            70000,
            1500,
        ),

        (
            "漢中街衝刺".to_owned(),
            vec![
                Position::new(0, 50, -6000),
                Position::new(0, 50, -3000),
                Position::new(0, 50, 0),
                Position::new(0, 50, 3000),
                Position::new(0, 50, 6000),
            ],
            20000,
            25000,
            35000,
            800,
        ),

        (
            "峨嵋蛇行".to_owned(),
            vec![
                Position::new(-5000, 50, 0),
                Position::new(-3000, 50, 1500),
                Position::new(-1000, 50, -1000),
                Position::new(1000, 50, 1500),
                Position::new(3000, 50, -1000),
                Position::new(5000, 50, 0),
            ],
            30000,
            40000,
            50000,
            1000,
        ),

        (
            "紅樓繞圈".to_owned(),
            vec![
                Position::new(4000, 50, 5000),
                Position::new(6000, 50, 7000),
                Position::new(4000, 50, 9000),
                Position::new(2000, 50, 7000),
                Position::new(4000, 50, 5000),
            ],
            25000,
            32000,
            40000,
            900,
        ),
    ]
}

/// Taxi passengers and where they wait.
fn create_taxi_passengers() -> (r: Vec<(String, Position)>)
    ensures
        r@.len() == 8,
        forall|i: int| 0 <= i < r@.len() ==> position_in_range((#[trigger] r@[i]).1) && r@[i].0@ == taxi_passenger(i).0 && r@[i].1 == taxi_passenger(i).1,
{
    vec![
        ("陳先生".to_owned(), Position::new(-2000, 50, 1500)),
        ("林小姐".to_owned(), Position::new(1500, 50, -3500)),
        ("王太太".to_owned(), Position::new(-4500, 50, 2500)),
        ("張同學".to_owned(), Position::new(3000, 50, 4200)),
        ("李伯伯".to_owned(), Position::new(-1500, 50, -5500)),
        ("劉小弟".to_owned(), Position::new(5000, 50, 2000)),
        ("黃阿姨".to_owned(), Position::new(-6000, 50, -2000)),
        ("趙經理".to_owned(), Position::new(2500, 50, 4500)),
    ]
}

/// Taxi destinations.
fn create_taxi_destinations() -> (r: Vec<(String, Position)>)
    ensures
        r@.len() == 8,
        forall|i: int| 0 <= i < r@.len() ==> position_in_range((#[trigger] r@[i]).1) && r@[i].0@ == taxi_destination(i).0 && r@[i].1 == taxi_destination(i).1,
{
    vec![
        ("西門紅樓".to_owned(), Position::new(4500, 50, 4500)),
        ("捷運西門站".to_owned(), Position::new(5500, 50, 3600)),
        ("誠品西門店".to_owned(), Position::new(-1800, 50, -1800)),
        ("萬年大樓".to_owned(), Position::new(-6800, 50, -1500)),
        ("獅子林大樓".to_owned(), Position::new(-6500, 50, -6000)),
        ("錢櫃 KTV".to_owned(), Position::new(7000, 50, 3000)),
        ("電影公園".to_owned(), Position::new(-6500, 50, -4000)),
        ("成都路口".to_owned(), Position::new(1000, 50, 4500)),
    ]
}

/// The jobs on offer, the job being done and the delivery statistics.
pub struct MissionManager {
    pub available_missions: Vec<MissionData>,
    pub active_mission: Option<ActiveMission>,
    pub completed_count: u32,
    pub total_earnings: u32,
    pub completed_missions: Vec<CompletedMissionRecord>,
    /// Delivery orders that can be taken.
    pub delivery_orders: Vec<MissionData>,
    /// Whether the order list changed (for the display).
    pub delivery_orders_changed: bool,
    /// Deliveries done in a row.
    pub delivery_streak: u32,
    /// Average delivery stars, in thousandths of a star.
    pub average_rating: u32,
    pub total_deliveries: u32,
    pub restaurants: Vec<Restaurant>,
    pub customer_locations: Vec<CustomerLocation>,
    /// Id of the next generated job.
    pub next_mission_id: u32,
}

/// The manager's places can be used to generate orders.
pub open spec fn places_wf(m: &MissionManager) -> bool {
    &&& m.restaurants@.len() > 0
    &&& forall|i: int| 0 <= i < m.restaurants@.len() ==> (#[trigger] m.restaurants@[i]).food_types@.len() > 0
        && position_in_range(m.restaurants@[i].position)
    &&& m.customer_locations@.len() > 0
    &&& forall|i: int| 0 <= i < m.customer_locations@.len() ==> position_in_range((#[trigger] m.customer_locations@[i]).position)
}

impl Default for MissionManager {
    fn default() -> (m: MissionManager)
        ensures
            places_wf(&m),
            m.restaurants@.len() == 8,
            m.customer_locations@.len() == 10,
            m.available_missions@.len() == 3,
            m.active_mission is None,
            m.completed_count == 0,
            m.total_earnings == 0,
            m.completed_missions@.len() == 0,
            m.delivery_orders@.len() == 0,
            m.delivery_orders_changed,
            m.delivery_streak == 0,
            m.average_rating == 0,
            m.total_deliveries == 0,
            m.next_mission_id == 100,
    {
        MissionManager {
            available_missions: create_default_missions(),
            active_mission: None,
            completed_count: 0,
            total_earnings: 0,
            completed_missions: Vec::new(),
            delivery_orders: Vec::new(),
            delivery_orders_changed: true,
            delivery_streak: 0,
            average_rating: 0,
            total_deliveries: 0,
            restaurants: create_restaurants(),
            customer_locations: create_customer_locations(),
            next_mission_id: 100,
        }
    }
}

/// The time limit of a delivery over a distance: one second per ten
/// metres, between 30 seconds and 3 minutes.
pub open spec fn delivery_time_limit(distance: int) -> int {
    if distance < MIN_TIME_LIMIT { MIN_TIME_LIMIT as int } else if distance > MAX_TIME_LIMIT { MAX_TIME_LIMIT as int } else { distance }
}

/// `d` is the delivery job `id` from restaurant `r` to customer `c` with
/// food `fi` of the restaurant's menu.
pub open spec fn delivery_from(d: MissionData, r: Restaurant, c: CustomerLocation, fi: int, id: u32) -> bool {
    let food = r.food_types@[fi]@;
    let dist = d.delivery_order->0.distance;
    let pay = delivery_pay(dist as int);
    &&& d.delivery_order is Some
    &&& is_floor_sqrt(dist as int, distance_squared(r.position, c.position))
    &&& d.id == id
    &&& d.mission_type == MissionType::Delivery
    &&& d.title@ == "🍜 "@ + r.name@ + " 外送"@
    &&& d.description@ == "將 "@ + food + " 送到 "@ + c.address@
    &&& d.start_pos == r.position
    &&& d.end_pos == c.position
    &&& d.reward == pay
    &&& d.time_limit == Some(delivery_time_limit(dist as int) as u64)
    &&& d.delivery_order->0.restaurant_name@ == r.name@
    &&& d.delivery_order->0.customer_address@ == c.address@
    &&& d.delivery_order->0.food_item@ == food
    &&& d.delivery_order->0.base_pay == pay
    &&& d.delivery_order->0.tip_range == ((pay * TIP_MIN_RATIO / 100) as u32, (pay * TIP_MAX_RATIO / 100) as u32)
    &&& d.race_data is None
    &&& d.taxi_data is None
}

/// `d` is a delivery job `id` for some restaurant, customer and food of
/// the lists.
pub open spec fn is_delivery_order(d: MissionData, rs: Seq<Restaurant>, cs: Seq<CustomerLocation>, id: u32) -> bool {
    exists|ri: int, ci: int, fi: int|
        0 <= ri < rs.len() && 0 <= ci < cs.len() && 0 <= fi < rs[ri].food_types@.len() && #[trigger] delivery_from(
            d,
            rs[ri],
            cs[ci],
            fi,
            id,
        )
}

/// A distance whose square is at most 1.2e19 is at most 4e9.
pub proof fn distance_bound(d: int, sq: int)
    requires
        is_floor_sqrt(d, sq),
        sq <= 12_000_000_000_000_000_000,
    ensures
        d <= 4_000_000_000,
{
    if d > 4_000_000_000 {
        assert(d * d > 4_000_000_000 * 4_000_000_000) by (nonlinear_arith)
            requires
                d > 4_000_000_000,
        ;
    }
}

/// The squared distance between two points in range is at most 1.2e19.
pub proof fn squared_bound(a: Position, b: Position)
    requires
        position_in_range(a),
        position_in_range(b),
    ensures
        0 <= distance_squared(a, b) <= 12_000_000_000_000_000_000,
{
    let dx = a.x - b.x;
    let dy = a.y - b.y;
    let dz = a.z - b.z;
    assert(0 <= dx * dx <= 4_000_000_000_000_000_000) by (nonlinear_arith)
        requires
            -2_000_000_000 <= dx <= 2_000_000_000,
    ;
    assert(0 <= dy * dy <= 4_000_000_000_000_000_000) by (nonlinear_arith)
        requires
            -2_000_000_000 <= dy <= 2_000_000_000,
    ;
    assert(0 <= dz * dz <= 4_000_000_000_000_000_000) by (nonlinear_arith)
        requires
            -2_000_000_000 <= dz <= 2_000_000_000,
    ;
}

/// `t` seconds with one decimal, from milliseconds (rounded to the nearest
/// tenth).
pub open spec fn seconds_text(ms: int) -> Seq<char> {
    let tenths = (ms + 50) / 100;
    decimal((tenths / 10) as nat) + "."@ + decimal((tenths % 10) as nat)
}

fn push_seconds(s: &mut String, ms: u32)
    ensures
        final(s)@ == old(s)@ + seconds_text(ms as int),
{
    let tenths: u64 = (ms as u64 + 50) / 100;
    push_decimal(s, (tenths / 10) as u32);
    s.append(".");
    push_decimal(s, (tenths % 10) as u32);
    assert(final(s)@ =~= old(s)@ + seconds_text(ms as int));
}

/// `d` is race job `id` on course `k` with these checkpoints.
pub open spec fn race_from(d: MissionData, k: int, checkpoints: Seq<Position>, id: u32) -> bool {
    let (name, gold, silver, bronze, reward) = race_course(k);
    &&& d.id == id
    &&& d.mission_type == MissionType::Race
    &&& d.title@ == "🏁 "@ + name
    &&& d.description@ == "通過所有檢查點！金牌: "@ + seconds_text(gold as int) + "秒"@
    &&& checkpoints.len() > 0
    &&& d.start_pos == checkpoints[0]
    &&& d.end_pos == checkpoints.last()
    &&& d.reward == reward
    &&& d.time_limit == Some((bronze + 30_000) as u64)
    &&& d.delivery_order is None
    &&& d.race_data is Some
    &&& d.race_data->0.checkpoints@ == checkpoints
    &&& d.race_data->0.current_checkpoint == 0
    &&& d.race_data->0.best_time is None
    &&& d.race_data->0.gold_time == gold && d.race_data->0.silver_time == silver && d.race_data->0.bronze_time == bronze
    &&& d.taxi_data is None
}

/// `d` is race job `id` on one of the courses.
pub open spec fn is_race_mission(d: MissionData, id: u32) -> bool {
    exists|k: int, cps: Seq<Position>| 0 <= k < 4 && #[trigger] race_from(d, k, cps, id)
}

/// The time limit of a taxi ride over a distance: 1.5 seconds per ten
/// metres, at least 45 seconds.
pub open spec fn taxi_time_limit(distance: int) -> int {
    let t = distance * 3 / 2;
    if t < 45_000 { 45_000 } else { t }
}

/// `d` is taxi job `id` for passenger `pi` to destination `di`.
pub open spec fn taxi_from(d: MissionData, pi: int, di: int, id: u32, dist: int) -> bool {
    let (pname, ppos) = taxi_passenger(pi);
    let (dname, dpos) = taxi_destination(di);
    &&& is_floor_sqrt(dist, distance_squared(ppos, dpos))
    &&& d.id == id
    &&& d.mission_type == MissionType::Taxi
    &&& d.title@ == "🚕 載客: "@ + pname
    &&& d.description@ == "將 "@ + pname + " 送到 "@ + dname
    &&& d.start_pos == ppos
    &&& d.end_pos == dpos
    &&& d.reward == taxi_fare(dist)
    &&& d.time_limit == Some(taxi_time_limit(dist) as u64)
    &&& d.delivery_order is None
    &&& d.race_data is None
    &&& d.taxi_data is Some
    &&& d.taxi_data->0.passenger_name@ == pname
    &&& d.taxi_data->0.destination_name@ == dname
    &&& d.taxi_data->0.passenger_mood@ == "普通"@
    &&& !d.taxi_data->0.passenger_picked_up
    &&& d.taxi_data->0.patience == 1000 && d.taxi_data->0.satisfaction == 1000 && d.taxi_data->0.tip_multiplier == 1000
}

/// `d` is taxi job `id` for one of the passengers and destinations.
pub open spec fn is_taxi_mission(d: MissionData, id: u32) -> bool {
    exists|pi: int, di: int, dist: int| 0 <= pi < 8 && 0 <= di < 8 && #[trigger] taxi_from(d, pi, di, id, dist)
}

/// The reward of a completed delivery: the job's reward times the rating's
/// multiplier and the streak bonus (5% per delivery in a row, at most 50%),
/// rounded down and kept within `u32`.
pub open spec fn delivery_reward(base: int, rating: DeliveryRating, streak: int) -> int {
    let capped = if streak < MAX_STREAK_COUNT { streak } else { MAX_STREAK_COUNT as int };
    let r = base * delivery_bonus_percent(rating) * (100 + capped * STREAK_BONUS_PER_DELIVERY) / 10000;
    if r > u32::MAX { u32::MAX as int } else { r }
}

/// The base reward of the job being done (0 when none).
pub open spec fn active_reward(m: &MissionManager) -> int {
    if m.active_mission is Some { m.active_mission->0.data.reward as int } else { 0 }
}

impl MissionManager {
    /// Generates a delivery order: a random restaurant, customer and food;
    /// pay and time limit by the distance; the next job id.
    pub fn generate_delivery_order(&mut self) -> (d: MissionData)
        requires
            places_wf(old(self)),
            old(self).next_mission_id < u32::MAX,
        ensures
            is_delivery_order(d, old(self).restaurants@, old(self).customer_locations@, old(self).next_mission_id),
            final(self).next_mission_id == old(self).next_mission_id + 1,
            final(self).restaurants == old(self).restaurants,
            final(self).customer_locations == old(self).customer_locations,
            final(self).available_missions == old(self).available_missions,
            final(self).delivery_orders == old(self).delivery_orders,
            final(self).delivery_orders_changed == old(self).delivery_orders_changed,
            final(self).total_earnings == old(self).total_earnings,
            final(self).completed_count == old(self).completed_count,
            final(self).delivery_streak == old(self).delivery_streak,
            final(self).total_deliveries == old(self).total_deliveries,
            final(self).average_rating == old(self).average_rating,
    {
        let ri = random_in(0, (self.restaurants.len() - 1) as u64) as usize;
        let ci = random_in(0, (self.customer_locations.len() - 1) as u64) as usize;
        let restaurant = &self.restaurants[ri];
        let customer = &self.customer_locations[ci];
        let fi = random_in(0, (restaurant.food_types.len() - 1) as u64) as usize;
        let food_item = restaurant.food_types[fi].clone();
        let distance = distance_cm(restaurant.position, customer.position);
        proof {
            squared_bound(restaurant.position, customer.position);
            distance_bound(distance as int, distance_squared(restaurant.position, customer.position));
        }
        let base_pay = calculate_delivery_pay(distance);
        let tip_min = (base_pay as u64 * 10 / 100) as u32;
        let tip_max = (base_pay as u64 * 30 / 100) as u32;
        let time_limit: u64 = if distance < MIN_TIME_LIMIT {
            MIN_TIME_LIMIT
        } else if distance > MAX_TIME_LIMIT {
            MAX_TIME_LIMIT
        } else {
            distance
        };
        let id = self.next_mission_id;
        self.next_mission_id = self.next_mission_id + 1;
        let mut title = "🍜 ".to_owned();
        title.append(restaurant.name.as_str());
        title.append(" 外送");
        let mut description = "將 ".to_owned();
        description.append(food_item.as_str());
        description.append(" 送到 ");
        description.append(customer.address.as_str());
        let order = DeliveryOrder {
            restaurant_name: restaurant.name.clone(),
            customer_address: customer.address.clone(),
            food_item,
            base_pay,
            tip_range: (tip_min, tip_max),
            distance,
        };
        let d = MissionData {
            id,
            mission_type: MissionType::Delivery,
            title,
            description,
            start_pos: restaurant.position,
            end_pos: customer.position,
            reward: base_pay,
            time_limit: Some(time_limit),
            delivery_order: Some(order),
            race_data: None,
            taxi_data: None,
        };
        proof {
            assert(delivery_from(d, self.restaurants@[ri as int], self.customer_locations@[ci as int], fi as int, id));
        }
        d
    }

    /// Replaces the delivery orders by three to five fresh ones (a random
    /// number), with consecutive ids.
    pub fn refresh_delivery_orders(&mut self)
        requires
            places_wf(old(self)),
            old(self).next_mission_id + 5 <= u32::MAX,
        ensures
            3 <= final(self).delivery_orders@.len() <= 5,
            final(self).next_mission_id == old(self).next_mission_id + final(self).delivery_orders@.len(),
            forall|i: int| 0 <= i < final(self).delivery_orders@.len() ==> is_delivery_order(
                #[trigger] final(self).delivery_orders@[i],
                old(self).restaurants@,
                old(self).customer_locations@,
                (old(self).next_mission_id + i) as u32,
            ),
            final(self).delivery_orders_changed,
            final(self).restaurants == old(self).restaurants,
            final(self).customer_locations == old(self).customer_locations,
            final(self).available_missions == old(self).available_missions,
    {
        self.delivery_orders.clear();
        let count = random_in(3, 5);
        let mut k: u64 = 0;
        while k < count
            invariant
                0 <= k <= count <= 5,
                places_wf(self),
                self.restaurants == old(self).restaurants,
                self.customer_locations == old(self).customer_locations,
                self.available_missions == old(self).available_missions,
                self.delivery_orders@.len() == k,
                self.next_mission_id == old(self).next_mission_id + k,
                old(self).next_mission_id + 5 <= u32::MAX,
                forall|i: int| 0 <= i < self.delivery_orders@.len() ==> is_delivery_order(
                    #[trigger] self.delivery_orders@[i],
                    old(self).restaurants@,
                    old(self).customer_locations@,
                    (old(self).next_mission_id + i) as u32,
                ),
            decreases count - k,
        {
            let order = self.generate_delivery_order();
            self.delivery_orders.push(order);
            k = k + 1;
        }
        self.delivery_orders_changed = true;
    }

    /// Records a completed delivery: the streak and count grow, the
    /// average rating takes the new stars in, and the reward (job reward,
    /// rating multiplier, streak bonus) is earned and returned.
    pub fn complete_delivery(&mut self, rating: DeliveryRating) -> (reward: u32)
        requires
            old(self).delivery_streak < u32::MAX,
            old(self).total_deliveries < u32::MAX,
            old(self).completed_count < u32::MAX,
            old(self).average_rating <= 5000,
            old(self).total_earnings + delivery_reward(active_reward(old(self)), rating, old(self).delivery_streak + 1)
                <= u32::MAX,
        ensures
            final(self).delivery_streak == old(self).delivery_streak + 1,
            final(self).total_deliveries == old(self).total_deliveries + 1,
            final(self).average_rating == (old(self).average_rating * old(self).total_deliveries + delivery_stars(rating)
                * 1000) / (old(self).total_deliveries + 1),
            final(self).average_rating <= 5000,
            reward == delivery_reward(active_reward(old(self)), rating, old(self).delivery_streak + 1),
            final(self).total_earnings == old(self).total_earnings + reward,
            final(self).completed_count == old(self).completed_count + 1,
            final(self).active_mission == old(self).active_mission,
            final(self).available_missions == old(self).available_missions,
            final(self).delivery_orders == old(self).delivery_orders,
            final(self).next_mission_id == old(self).next_mission_id,
    {
        self.delivery_streak = self.delivery_streak + 1;
        self.total_deliveries = self.total_deliveries + 1;
        let rating_value: u64 = match rating {
            DeliveryRating::Unrated => 0,
            DeliveryRating::OneStar => 1000,
            DeliveryRating::TwoStars => 2000,
            DeliveryRating::ThreeStars => 3000,
            DeliveryRating::FourStars => 4000,
            DeliveryRating::FiveStars => 5000,
        };
        let n = self.total_deliveries as u64;
        assert(self.average_rating as u64 * (n - 1) <= 5000 * (n - 1)) by (nonlinear_arith)
            requires
                self.average_rating <= 5000,
                n >= 1,
        ;
        let avg = (self.average_rating as u64 * (n - 1) + rating_value) / n;
        assert(avg <= 5000) by (nonlinear_arith)
            requires
                avg as int == (self.average_rating as u64 * (n - 1) + rating_value) as int / n as int,
                self.average_rating as u64 * (n - 1) <= 5000 * (n - 1),
                rating_value <= 5000,
                n >= 1,
        ;
        self.average_rating = avg as u32;
        let base: u64 = match &self.active_mission {
            Some(m) => m.data.reward as u64,
            None => 0,
        };
        let bonus = rating.bonus_multiplier() as u64;
        let capped: u64 = if self.delivery_streak < MAX_STREAK_COUNT { self.delivery_streak as u64 } else { MAX_STREAK_COUNT as u64 };
        let streak_percent: u64 = 100 + capped * STREAK_BONUS_PER_DELIVERY as u64;
        assert(base * bonus <= 0xffff_ffffu64 * 200) by (nonlinear_arith)
            requires
                base <= 0xffff_ffffu64,
                bonus <= 200,
        ;
        assert(base * bonus * streak_percent <= 0xffff_ffffu64 * 200 * 150) by (nonlinear_arith)
            requires
                base * bonus <= 0xffff_ffffu64 * 200,
                streak_percent <= 150,
        ;
        let r: u64 = base * bonus * streak_percent / 10000;
        let final_reward: u32 = if r > u32::MAX as u64 { u32::MAX } else { r as u32 };
        self.total_earnings = self.total_earnings + final_reward;
        self.completed_count = self.completed_count + 1;
        final_reward
    }

    /// A failed delivery ends the streak.
    pub fn fail_delivery(&mut self)
        ensures
            final(self).delivery_streak == 0,
            final(self).total_deliveries == old(self).total_deliveries,
            final(self).total_earnings == old(self).total_earnings,
            final(self).completed_count == old(self).completed_count,
            final(self).active_mission == old(self).active_mission,
            final(self).available_missions == old(self).available_missions,
            final(self).delivery_orders == old(self).delivery_orders,
    {
        self.delivery_streak = 0;
    }

    /// Generates a race on a random course: its checkpoints and medal
    /// times, failed 30 seconds past the bronze time.
    pub fn generate_race_mission(&mut self) -> (d: MissionData)
        requires
            old(self).next_mission_id < u32::MAX,
        ensures
            is_race_mission(d, old(self).next_mission_id),
            final(self).next_mission_id == old(self).next_mission_id + 1,
            final(self).available_missions == old(self).available_missions,
            final(self).restaurants == old(self).restaurants,
            final(self).customer_locations == old(self).customer_locations,
            final(self).delivery_orders == old(self).delivery_orders,
    {
        let mut races = create_race_courses();
        let k = random_in(0, (races.len() - 1) as u64) as usize;
        let ghost course = races@[k as int];
        let (name, checkpoints, gold, silver, bronze, reward) = races.remove(k);
        let id = self.next_mission_id;
        self.next_mission_id = self.next_mission_id + 1;
        let start_pos = checkpoints[0];
        let end_pos = checkpoints[checkpoints.len() - 1];
        let mut title = "🏁 ".to_owned();
        title.append(name.as_str());
        let mut description = "通過所有檢查點！金牌: ".to_owned();
        push_seconds(&mut description, gold);
        description.append("秒");
        let ghost cps = checkpoints@;
        let d = MissionData {
            id,
            mission_type: MissionType::Race,
            title,
            description,
            start_pos,
            end_pos,
            reward,
            time_limit: Some(bronze as u64 + 30_000),
            delivery_order: None,
            race_data: Some(RaceData::new(checkpoints, gold, silver, bronze)),
            taxi_data: None,
        };
        proof {
            assert(race_from(d, k as int, cps, id));
        }
        d
    }

    /// Generates a taxi ride for a random passenger and destination: fare
    /// and time limit by the distance.
    pub fn generate_taxi_mission(&mut self) -> (d: MissionData)
        requires
            old(self).next_mission_id < u32::MAX,
        ensures
            is_taxi_mission(d, old(self).next_mission_id),
            final(self).next_mission_id == old(self).next_mission_id + 1,
            final(self).available_missions == old(self).available_missions,
            final(self).restaurants == old(self).restaurants,
            final(self).customer_locations == old(self).customer_locations,
            final(self).delivery_orders == old(self).delivery_orders,
    {
        let passengers = create_taxi_passengers();
        let destinations = create_taxi_destinations();
        let pi = random_in(0, (passengers.len() - 1) as u64) as usize;
        let di = random_in(0, (destinations.len() - 1) as u64) as usize;
        let passenger_name = &passengers[pi].0;
        let pickup_pos = passengers[pi].1;
        let dest_name = &destinations[di].0;
        let dest_pos = destinations[di].1;
        let distance = distance_cm(pickup_pos, dest_pos);
        proof {
            squared_bound(pickup_pos, dest_pos);
            distance_bound(distance as int, distance_squared(pickup_pos, dest_pos));
        }
        let base_reward = calculate_taxi_fare(distance);
        let t: u64 = distance * 3 / 2;
        let time_limit: u64 = if t < 45_000 { 45_000 } else { t };
        let id = self.next_mission_id;
        self.next_mission_id = self.next_mission_id + 1;
        let mut title = "🚕 載客: ".to_owned();
        title.append(passenger_name.as_str());
        let mut description = "將 ".to_owned();
        description.append(passenger_name.as_str());
        description.append(" 送到 ");
        description.append(dest_name.as_str());
        let d = MissionData {
            id,
            mission_type: MissionType::Taxi,
            title,
            description,
            start_pos: pickup_pos,
            end_pos: dest_pos,
            reward: base_reward,
            time_limit: Some(time_limit),
            delivery_order: None,
            race_data: None,
            taxi_data: Some(TaxiData::new(passenger_name.clone(), dest_name.clone())),
        };
        proof {
            assert(taxi_from(d, pi as int, di as int, id, distance as int));
        }
        d
    }

    /// Adds two races and three taxi rides to the jobs on offer.
    pub fn refresh_special_missions(&mut self)
        requires
            old(self).next_mission_id + 5 <= u32::MAX,
        ensures
            final(self).available_missions@.len() == old(self).available_missions@.len() + 5,
            forall|i: int| 0 <= i < old(self).available_missions@.len() ==> #[trigger] final(self).available_missions@[i]
                == old(self).available_missions@[i],
            forall|i: int| 0 <= i < 2 ==> is_race_mission(
                #[trigger] final(self).available_missions@[old(self).available_missions@.len() + i],
                (old(self).next_mission_id + i) as u32,
            ),
            forall|i: int| 2 <= i < 5 ==> is_taxi_mission(
                #[trigger] final(self).available_missions@[old(self).available_missions@.len() + i],
                (old(self).next_mission_id + i) as u32,
            ),
            final(self).next_mission_id == old(self).next_mission_id + 5,
    {
        let ghost n0: int = self.available_missions@.len() as int;
        let ghost id0 = self.next_mission_id;
        let race1 = self.generate_race_mission();
        self.available_missions.push(race1);
        let race2 = self.generate_race_mission();
        self.available_missions.push(race2);
        let taxi1 = self.generate_taxi_mission();
        self.available_missions.push(taxi1);
        let taxi2 = self.generate_taxi_mission();
        self.available_missions.push(taxi2);
        let taxi3 = self.generate_taxi_mission();
        self.available_missions.push(taxi3);
        proof {
            let v = self.available_missions@;
            assert(v[n0] == race1 && v[n0 + 1] == race2 && v[n0 + 2] == taxi1 && v[n0 + 3] == taxi2 && v[n0 + 4] == taxi3);
        }
    }
}

} // verus!
