//! Numbers and money as text, and cash dropped in the world.

use island_rampage::economy::pickup::{
    cash_pickup_in_reach, spawn_cash_pickup, update_cash_pickups, CashPickup, CashPickupSpot, InteractionType,
};
use island_rampage::economy::property::{robbery_cooldown_system, RobberyState};
use island_rampage::economy::wallet::PlayerWallet;
use island_rampage::economy::wallet::update_money_ui;
use island_rampage::mission::story_data::types::Position;
use island_rampage::text::{format_money, push_decimal, push_signed};

#[test]
fn decimal_and_signed() {
    let mut s = String::from("n=");
    push_decimal(&mut s, 0);
    push_decimal(&mut s, 4_294_967_295);
    assert_eq!(s, "n=04294967295");
    let mut t = String::new();
    push_signed(&mut t, -42);
    push_signed(&mut t, i32::MIN);
    assert_eq!(t, "-42-2147483648");
}

#[test]
fn money_is_grouped_by_thousands() {
    assert_eq!(format_money(0), "0");
    assert_eq!(format_money(999), "999");
    assert_eq!(format_money(1_000), "1,000");
    assert_eq!(format_money(1_234_567), "1,234,567");
    assert_eq!(format_money(-1_005), "-1,005");
    assert_eq!(format_money(i32::MIN), "-2,147,483,648");
    assert_eq!(update_money_ui(5_000), "$ 5,000");
}

#[test]
fn cash_pickup_prompt_and_reach() {
    let (pickup, zone) = spawn_cash_pickup(250);
    assert_eq!(pickup, CashPickup::new(250));
    assert_eq!(zone.prompt, "$250");
    assert_eq!(zone.range, 200);
    assert_eq!(zone.interaction_type, InteractionType::Pickup);
    assert_eq!(spawn_cash_pickup(-3).1.prompt, "$-3");
    let o = Position::new(0, 0, 0);
    assert!(cash_pickup_in_reach(o, Position::new(200, 0, 0)));
    assert!(!cash_pickup_in_reach(o, Position::new(150, 150, 0)));
}

#[test]
fn cash_pickups_frame() {
    let old = CashPickup { amount: 30, lifetime: 59_990, max_lifetime: 60_000 };
    let mut spots = vec![
        CashPickupSpot { entity: 1, position: Position::new(100, 0, 0), pickup: CashPickup::new(50) },
        CashPickupSpot { entity: 2, position: Position::new(5_000, 0, 0), pickup: CashPickup::new(70) },
        CashPickupSpot { entity: 3, position: Position::new(0, 0, 0), pickup: old },
        CashPickupSpot { entity: 4, position: Position::new(0, 150, 0), pickup: CashPickup::new(20) },
    ];
    let mut wallet = PlayerWallet { cash: 100, bank: 0, total_earned: 0, total_spent: 0 };
    let frame = update_cash_pickups(&mut spots, Position::new(0, 0, 0), 16, &mut wallet);
    assert_eq!(frame.despawn, vec![1, 3, 4]);
    assert_eq!(frame.events.len(), 2);
    assert_eq!(frame.events[0].amount, 50);
    assert_eq!(frame.events[0].new_balance, 150);
    assert_eq!(frame.events[1].new_balance, 170);
    assert_eq!(wallet.cash, 170);
    assert_eq!(spots[1].pickup.lifetime, 16);
    let mut states = vec![RobberyState { cooldown: 300_000 }, RobberyState { cooldown: 10 }];
    robbery_cooldown_system(&mut states, 1_000);
    assert_eq!(states[0].cooldown, 299_000);
    assert_eq!(states[1].cooldown, 0);
}
