//! Delivery ratings, races and taxi rides. Time ratios and satisfaction are
//! in thousandths, multipliers in percent, race times in milliseconds and
//! positions in centimetres.

use island_rampage::mission::data::{DeliveryRating, RaceData, RaceMedal, TaxiData, TaxiRating};
use island_rampage::mission::story_data::types::Position;

// --- DeliveryRating ---

#[test]
fn delivery_rating_from_time_ratio() {
    assert_eq!(DeliveryRating::from_time_ratio(-100), DeliveryRating::OneStar);
    assert_eq!(DeliveryRating::from_time_ratio(50), DeliveryRating::TwoStars);
    assert_eq!(DeliveryRating::from_time_ratio(200), DeliveryRating::ThreeStars);
    assert_eq!(DeliveryRating::from_time_ratio(400), DeliveryRating::FourStars);
    assert_eq!(DeliveryRating::from_time_ratio(600), DeliveryRating::FiveStars);
}

#[test]
fn delivery_rating_bonus_multiplier() {
    assert_eq!(DeliveryRating::OneStar.bonus_multiplier(), 50);
    assert_eq!(DeliveryRating::FiveStars.bonus_multiplier(), 200);
    assert_eq!(DeliveryRating::Unrated.bonus_multiplier(), 100);
}

// --- RaceData ---

#[test]
fn race_advance_checkpoint_and_finish() {
    let mut race = RaceData::new(
        vec![Position::new(0, 0, 0), Position::new(100, 0, 0), Position::new(200, 0, 0)],
        30_000, 40_000, 50_000,
    );
    assert!(!race.is_finished());
    assert_eq!(race.current_checkpoint, 0);

    assert!(race.advance_checkpoint()); // 0 -> 1
    assert!(race.advance_checkpoint()); // 1 -> 2
    assert!(!race.advance_checkpoint()); // at last, can't advance
    assert_eq!(race.current_checkpoint, 2);
}

#[test]
fn race_medal_for_time() {
    let race = RaceData::new(vec![Position::new(0, 0, 0)], 30_000, 40_000, 50_000);
    assert_eq!(race.medal_for_time(25_000), RaceMedal::Gold);
    assert_eq!(race.medal_for_time(30_000), RaceMedal::Gold); // exactly gold
    assert_eq!(race.medal_for_time(35_000), RaceMedal::Silver);
    assert_eq!(race.medal_for_time(45_000), RaceMedal::Bronze);
    assert_eq!(race.medal_for_time(60_000), RaceMedal::NoMedal);
}

// --- TaxiData ---

#[test]
fn taxi_update_satisfaction_clamped() {
    let mut taxi = TaxiData::new("Test".into(), "Dest".into());
    assert_eq!(taxi.satisfaction, 1000);

    taxi.update_satisfaction(300);
    assert_eq!(taxi.satisfaction, 1300);

    taxi.update_satisfaction(1000); // clamp to MAX_SATISFACTION (1500)
    assert_eq!(taxi.satisfaction, 1500);

    taxi.update_satisfaction(-10_000); // clamp to 0
    assert_eq!(taxi.satisfaction, 0);
}

#[test]
fn taxi_rating_thresholds() {
    let mut taxi = TaxiData::new("Test".into(), "Dest".into());

    taxi.satisfaction = 1400;
    assert_eq!(taxi.rating(), TaxiRating::Excellent);

    taxi.satisfaction = 1000;
    assert_eq!(taxi.rating(), TaxiRating::Good);

    taxi.satisfaction = 700;
    assert_eq!(taxi.rating(), TaxiRating::Average);

    taxi.satisfaction = 500;
    assert_eq!(taxi.rating(), TaxiRating::Poor);

    taxi.satisfaction = 200;
    assert_eq!(taxi.rating(), TaxiRating::Terrible);
}
