//! How well a story mission was played: the statistics kept while playing,
//! the star rating computed from them and the result shown afterwards.
//!
//! Times are in milliseconds; scores in thousandths of a point; ratios in
//! thousandths.
use vstd::prelude::*;
use crate::mission::story_data::types::StoryMissionId;

verus! {

/// Rating of a finished story mission, from no star to five.
#[derive(Clone, Copy, Debug, PartialEq, Eq, Structural)]
pub enum StoryMissionRating {
    /// No star: the mission counts as failed.
    NoStars,
    OneStar,
    TwoStars,
    ThreeStars,
    FourStars,
    FiveStars,
}

impl Default for StoryMissionRating {
    fn default() -> (r: StoryMissionRating)
        ensures
            r == StoryMissionRating::NoStars,
    {
        StoryMissionRating::NoStars
    }
}

/// Number of stars of a rating.
pub open spec fn rating_stars(r: StoryMissionRating) -> int {
    match r {
        StoryMissionRating::NoStars => 0,
        StoryMissionRating::OneStar => 1,
        StoryMissionRating::TwoStars => 2,
        StoryMissionRating::ThreeStars => 3,
        StoryMissionRating::FourStars => 4,
        StoryMissionRating::FiveStars => 5,
    }
}

/// Reward multiplier of a rating, in percent.
pub open spec fn rating_bonus_percent(r: StoryMissionRating) -> int {
    match r {
        StoryMissionRating::NoStars => 50,
        StoryMissionRating::OneStar => 80,
        StoryMissionRating::TwoStars => 100,
        StoryMissionRating::ThreeStars => 125,
        StoryMissionRating::FourStars => 150,
        StoryMissionRating::FiveStars => 200,
    }
}

impl StoryMissionRating {
    /// The rating with this many stars (none for anything above five).
    pub fn from_stars(stars: u8) -> (r: StoryMissionRating)
        ensures
            stars <= 5 ==> rating_stars(r) == stars,
            stars > 5 ==> r == StoryMissionRating::NoStars,
    {
        match stars {
            0 => StoryMissionRating::NoStars,
            1 => StoryMissionRating::OneStar,
            2 => StoryMissionRating::TwoStars,
            3 => StoryMissionRating::ThreeStars,
            4 => StoryMissionRating::FourStars,
            5 => StoryMissionRating::FiveStars,
            _ => StoryMissionRating::NoStars,
        }
    }

    /// Number of stars.
    pub fn stars(&self) -> (n: u32)
        ensures
            n == rating_stars(*self),
    {
        match self {
            StoryMissionRating::NoStars => 0,
            StoryMissionRating::OneStar => 1,
            StoryMissionRating::TwoStars => 2,
            StoryMissionRating::ThreeStars => 3,
            StoryMissionRating::FourStars => 4,
            StoryMissionRating::FiveStars => 5,
        }
    }

    /// The stars as emoji.
    pub fn emoji(&self) -> (s: &'static str)
        ensures
            s@ == match *self {
                StoryMissionRating::NoStars => ""@,
                StoryMissionRating::OneStar => "⭐"@,
                StoryMissionRating::TwoStars => "⭐⭐"@,
                StoryMissionRating::ThreeStars => "⭐⭐⭐"@,
                StoryMissionRating::FourStars => "⭐⭐⭐⭐"@,
                StoryMissionRating::FiveStars => "⭐⭐⭐⭐⭐"@,
            },
    {
        match self {
            StoryMissionRating::NoStars => "",
            StoryMissionRating::OneStar => "⭐",
            StoryMissionRating::TwoStars => "⭐⭐",
            StoryMissionRating::ThreeStars => "⭐⭐⭐",
            StoryMissionRating::FourStars => "⭐⭐⭐⭐",
            StoryMissionRating::FiveStars => "⭐⭐⭐⭐⭐",
        }
    }

    /// Reward multiplier, in percent.
    pub fn bonus_multiplier(&self) -> (p: u32)
        ensures
            p == rating_bonus_percent(*self),
    {
        match self {
            StoryMissionRating::NoStars => 50,
            StoryMissionRating::OneStar => 80,
            StoryMissionRating::TwoStars => 100,
            StoryMissionRating::ThreeStars => 125,
            StoryMissionRating::FourStars => 150,
            StoryMissionRating::FiveStars => 200,
        }
    }

    /// Verdict shown to the player.
    pub fn description(&self) -> (s: &'static str)
        ensures
            s@ == match *self {
                StoryMissionRating::NoStars => "任務失敗"@,
                StoryMissionRating::OneStar => "勉強過關"@,
                StoryMissionRating::TwoStars => "普通表現"@,
                StoryMissionRating::ThreeStars => "良好表現"@,
                StoryMissionRating::FourStars => "優秀表現"@,
                StoryMissionRating::FiveStars => "完美達成！"@,
            },
    {
        match self {
            StoryMissionRating::NoStars => "任務失敗",
            StoryMissionRating::OneStar => "勉強過關",
            StoryMissionRating::TwoStars => "普通表現",
            StoryMissionRating::ThreeStars => "良好表現",
            StoryMissionRating::FourStars => "優秀表現",
            StoryMissionRating::FiveStars => "完美達成！",
        }
    }
}

/// Statistics of one attempt at a story mission.
#[derive(Clone, Copy, Debug, PartialEq, Eq, Structural)]
pub struct MissionPerformance {
    /// Play time when the mission started.
    pub start_time: u64,
    /// Time the mission took.
    pub completion_time: u64,
    pub player_deaths: u32,
    pub checkpoint_retries: u32,
    pub shots_hit: u32,
    pub shots_fired: u32,
    pub enemies_killed: u32,
    pub headshots: u32,
    /// Damage taken, in hit points.
    pub damage_taken: u32,
    /// Times seen by enemies (stealth).
    pub times_detected: u32,
    /// Health left to the escorted NPC, in percent.
    pub escort_health_percent: u32,
    /// Damage to the vehicle, in percent.
    pub vehicle_damage_percent: u32,
    pub collectibles_found: u32,
    pub collectibles_total: u32,
    pub optional_objectives_completed: u32,
    pub optional_objectives_total: u32,
}

/// Shooting accuracy in thousandths: hits over shots, at most 1000 (1000
/// when nothing was fired).
pub open spec fn accuracy_permille(p: MissionPerformance) -> int {
    if p.shots_fired == 0 {
        1000
    } else {
        let a = p.shots_hit * 1000 / p.shots_fired as int;
        if a > 1000 { 1000 } else { a }
    }
}

/// Headshots per kill in thousandths, at most 1000 (0 without kills).
pub open spec fn headshot_permille(p: MissionPerformance) -> int {
    if p.enemies_killed == 0 {
        0
    } else {
        let a = p.headshots * 1000 / p.enemies_killed as int;
        if a > 1000 { 1000 } else { a }
    }
}

/// The score in thousandths of a point: 100 points, minus 10 for every 30
/// seconds over the target time, 15 per death, 10 per checkpoint retry and
/// 10 per detection; plus up to 10 for accuracy, up to 10 for headshots, 5
/// per optional objective and up to 10 for collectibles found.
pub open spec fn performance_score(p: MissionPerformance, target_time: u64) -> int {
    let overtime = if p.completion_time > target_time { p.completion_time - target_time } else { 0 };
    let collect = if p.collectibles_total > 0 {
        p.collectibles_found * 10000 / p.collectibles_total as int
    } else {
        0
    };
    100000 - overtime / 3 - p.player_deaths * 15000 - p.checkpoint_retries * 10000 + accuracy_permille(p)
        * 10 + headshot_permille(p) * 10 + p.optional_objectives_completed * 5000 + collect
        - p.times_detected * 10000
}

/// The rating a score earns: five stars from 95 points, four from 80,
/// three from 65, two from 50, one from 30, none below.
pub open spec fn rating_for_score(score: int) -> StoryMissionRating {
    if score >= 95000 {
        StoryMissionRating::FiveStars
    } else if score >= 80000 {
        StoryMissionRating::FourStars
    } else if score >= 65000 {
        StoryMissionRating::ThreeStars
    } else if score >= 50000 {
        StoryMissionRating::TwoStars
    } else if score >= 30000 {
        StoryMissionRating::OneStar
    } else {
        StoryMissionRating::NoStars
    }
}

impl Default for MissionPerformance {
    fn default() -> (p: MissionPerformance)
        ensures
            p == MissionPerformance::zero(),
    {
        MissionPerformance::starting_at(0)
    }
}

impl MissionPerformance {
    /// All statistics at zero.
    pub open spec fn zero() -> MissionPerformance {
        MissionPerformance {
            start_time: 0,
            completion_time: 0,
            player_deaths: 0,
            checkpoint_retries: 0,
            shots_hit: 0,
            shots_fired: 0,
            enemies_killed: 0,
            headshots: 0,
            damage_taken: 0,
            times_detected: 0,
            escort_health_percent: 0,
            vehicle_damage_percent: 0,
            collectibles_found: 0,
            collectibles_total: 0,
            optional_objectives_completed: 0,
            optional_objectives_total: 0,
        }
    }

    /// Statistics of an attempt that starts at `start_time`.
    pub fn starting_at(start_time: u64) -> (p: MissionPerformance)
        ensures
            p == (MissionPerformance { start_time, ..MissionPerformance::zero() }),
    {
        MissionPerformance {
            start_time,
            completion_time: 0,
            player_deaths: 0,
            checkpoint_retries: 0,
            shots_hit: 0,
            shots_fired: 0,
            enemies_killed: 0,
            headshots: 0,
            damage_taken: 0,
            times_detected: 0,
            escort_health_percent: 0,
            vehicle_damage_percent: 0,
            collectibles_found: 0,
            collectibles_total: 0,
            optional_objectives_completed: 0,
            optional_objectives_total: 0,
        }
    }

    /// Shooting accuracy in thousandths.
    pub fn accuracy(&self) -> (a: u32)
        ensures
            a == accuracy_permille(*self),
    {
        if self.shots_fired == 0 {
            1000
        } else {
            let a = self.shots_hit as u64 * 1000 / self.shots_fired as u64;
            if a > 1000 { 1000 } else { a as u32 }
        }
    }

    /// Headshot ratio in thousandths.
    pub fn headshot_ratio(&self) -> (a: u32)
        ensures
            a == headshot_permille(*self),
    {
        if self.enemies_killed == 0 {
            0
        } else {
            let a = self.headshots as u64 * 1000 / self.enemies_killed as u64;
            if a > 1000 { 1000 } else { a as u32 }
        }
    }

    /// The score of this attempt against a target time (milliseconds).
    pub fn score(&self, target_time: u64) -> (s: i128)
        ensures
            s == performance_score(*self, target_time),
    {
        let overtime: u64 = if self.completion_time > target_time { self.completion_time - target_time } else { 0 };
        let collect: i128 = if self.collectibles_total > 0 {
            (self.collectibles_found as i128 * 10000) / self.collectibles_total as i128
        } else {
            0
        };
        100000 - overtime as i128 / 3 - self.player_deaths as i128 * 15000 - self.checkpoint_retries as i128
            * 10000 + self.accuracy() as i128 * 10 + self.headshot_ratio() as i128 * 10
            + self.optional_objectives_completed as i128 * 5000 + collect - self.times_detected as i128 * 10000
    }

    /// The rating of this attempt against a target time (milliseconds).
    pub fn calculate_rating(&self, target_time: u64) -> (r: StoryMissionRating)
        ensures
            r == rating_for_score(performance_score(*self, target_time)),
    {
        let score = self.score(target_time);
        if score >= 95000 {
            StoryMissionRating::FiveStars
        } else if score >= 80000 {
            StoryMissionRating::FourStars
        } else if score >= 65000 {
            StoryMissionRating::ThreeStars
        } else if score >= 50000 {
            StoryMissionRating::TwoStars
        } else if score >= 30000 {
            StoryMissionRating::OneStar
        } else {
            StoryMissionRating::NoStars
        }
    }

    /// Counts a death.
    pub fn record_death(&mut self)
        requires
            old(self).player_deaths < u32::MAX,
        ensures
            *final(self) == (MissionPerformance { player_deaths: (old(self).player_deaths + 1) as u32, ..*old(self) }),
    {
        self.player_deaths = self.player_deaths + 1;
    }

    /// Counts a checkpoint retry.
    pub fn record_retry(&mut self)
        requires
            old(self).checkpoint_retries < u32::MAX,
        ensures
            *final(self) == (MissionPerformance {
                checkpoint_retries: (old(self).checkpoint_retries + 1) as u32,
                ..*old(self)
            }),
    {
        self.checkpoint_retries = self.checkpoint_retries + 1;
    }

    /// Counts a shot, and whether it hit and was a headshot.
    pub fn record_shot(&mut self, hit: bool, headshot: bool)
        requires
            old(self).shots_fired < u32::MAX,
            old(self).shots_hit < u32::MAX,
            old(self).headshots < u32::MAX,
        ensures
            *final(self) == (MissionPerformance {
                shots_fired: (old(self).shots_fired + 1) as u32,
                shots_hit: (old(self).shots_hit + if hit { 1int } else { 0int }) as u32,
                headshots: (old(self).headshots + if headshot { 1int } else { 0int }) as u32,
                ..*old(self)
            }),
    {
        self.shots_fired = self.shots_fired + 1;
        if hit {
            self.shots_hit = self.shots_hit + 1;
        }
        if headshot {
            self.headshots = self.headshots + 1;
        }
    }

    /// Counts a kill.
    pub fn record_kill(&mut self)
        requires
            old(self).enemies_killed < u32::MAX,
        ensures
            *final(self) == (MissionPerformance { enemies_killed: (old(self).enemies_killed + 1) as u32, ..*old(self) }),
    {
        self.enemies_killed = self.enemies_killed + 1;
    }

    /// Counts a detection.
    pub fn record_detection(&mut self)
        requires
            old(self).times_detected < u32::MAX,
        ensures
            *final(self) == (MissionPerformance { times_detected: (old(self).times_detected + 1) as u32, ..*old(self) }),
    {
        self.times_detected = self.times_detected + 1;
    }
}

/// What is shown when a story mission is completed.
#[derive(Clone, Debug)]
pub struct MissionCompletionResult {
    pub mission_id: StoryMissionId,
    pub mission_name: String,
    pub rating: StoryMissionRating,
    pub performance: MissionPerformance,
    pub base_reward: i32,
    /// The base reward times the rating's multiplier.
    pub final_reward: i32,
    pub unlocked_items: Vec<String>,
    pub unlocked_missions: Vec<StoryMissionId>,
}

/// A worse attempt never earns a better rating: more deaths, retries or
/// detections, or more time, never raise the rating.
pub proof fn rating_monotone_in_score(a: int, b: int)
    requires
        a <= b,
    ensures
        rating_stars(rating_for_score(a)) <= rating_stars(rating_for_score(b)),
{
}

/// One more death takes exactly 15 points off the score.
pub proof fn death_costs_fifteen_points(p: MissionPerformance, target_time: u64)
    requires
        p.player_deaths < u32::MAX,
    ensures
        performance_score(MissionPerformance { player_deaths: (p.player_deaths + 1) as u32, ..p }, target_time)
            == performance_score(p, target_time) - 15000,
{
}

/// Being seen once more takes exactly 10 points off the score, so the run
/// never rates higher than the same run seen one time less.
pub proof fn detection_costs_ten_points(p: MissionPerformance, target_time: u64)
    requires
        p.times_detected < u32::MAX,
    ensures
        ({
            let seen = MissionPerformance { times_detected: (p.times_detected + 1) as u32, ..p };
            &&& performance_score(seen, target_time) == performance_score(p, target_time) - 10000
            &&& rating_stars(rating_for_score(performance_score(seen, target_time))) <= rating_stars(
                rating_for_score(performance_score(p, target_time)),
            )
        }),
{
    let seen = MissionPerformance { times_detected: (p.times_detected + 1) as u32, ..p };
    rating_monotone_in_score(performance_score(seen, target_time), performance_score(p, target_time));
}

/// One more checkpoint retry takes exactly 10 points off the score.
pub proof fn retry_costs_ten_points(p: MissionPerformance, target_time: u64)
    requires
        p.checkpoint_retries < u32::MAX,
    ensures
        performance_score(MissionPerformance { checkpoint_retries: (p.checkpoint_retries + 1) as u32, ..p }, target_time)
            == performance_score(p, target_time) - 10000,
{
}

/// Each optional objective done adds exactly 5 points to the score.
pub proof fn optional_objective_adds_five_points(p: MissionPerformance, target_time: u64)
    requires
        p.optional_objectives_completed < u32::MAX,
    ensures
        performance_score(
            MissionPerformance { optional_objectives_completed: (p.optional_objectives_completed + 1) as u32, ..p },
            target_time,
        ) == performance_score(p, target_time) + 5000,
{
}

/// Finishing by the target time costs nothing; every 30 seconds over it
/// cost 10 points.
pub proof fn overtime_costs_ten_points_per_half_minute(p: MissionPerformance, target_time: u64)
    requires
        p.completion_time >= target_time,
        p.completion_time + 30_000 <= u64::MAX,
    ensures
        performance_score(MissionPerformance { completion_time: target_time, ..p }, target_time) >= performance_score(
            p,
            target_time,
        ),
        performance_score(MissionPerformance { completion_time: (p.completion_time + 30_000) as u64, ..p }, target_time)
            == performance_score(p, target_time) - 10000,
{
    let over = p.completion_time - target_time;
    assert((over + 30_000) / 3 == over / 3 + 10000);
}

/// A higher rating pays a larger share of the reward.
pub proof fn more_stars_pay_more(a: StoryMissionRating, b: StoryMissionRating)
    requires
        rating_stars(a) < rating_stars(b),
    ensures
        rating_bonus_percent(a) < rating_bonus_percent(b),
{
}

} // verus!
