//! The library's laws on concrete values, and the wrappers of outside
//! calls exercised through public functions.

use island_rampage::economy::atm::{handle_atm_interaction, Atm, AtmMenuState, AtmMode, AtmSpot};
use island_rampage::economy::casino::{Deck, SlotMachine};
use island_rampage::economy::pickup::{Interactable, InteractionType};
use island_rampage::economy::shop::{handle_shop_interaction, Shop, ShopMenuState, ShopSpot, ShopType};
use island_rampage::economy::wallet::PlayerWallet;
use island_rampage::mission::dialogue_systems::{get_displayed_text, substitute_variables};
use island_rampage::mission::economy::RespectManager;
use island_rampage::mission::relationship::RelationshipManager;
use island_rampage::mission::story_data::types::Position;
use island_rampage::mission::story_manager::StoryMissionManager;

fn zone(kind: InteractionType, range: u32) -> Interactable {
    Interactable { prompt: "按 F 互動".to_string(), range, interaction_type: kind }
}

fn shop(name: &str, open: u32, close: u32) -> Shop {
    Shop { shop_type: ShopType::ConvenienceStore, name: name.to_string(), is_open: true, open_hour: open, close_hour: close }
}

#[test]
fn deposit_then_withdraw_restores_wallet() {
    let mut w = PlayerWallet { cash: 1_000, bank: 2_000, total_earned: 0, total_spent: 0 };
    let before = w;
    assert!(w.deposit(400));
    assert_eq!(w.total(), before.total());
    assert!(w.withdraw(400));
    assert_eq!(w, before);
}

#[test]
fn add_then_spend_restores_cash() {
    let mut w = PlayerWallet { cash: 70, bank: 0, total_earned: 0, total_spent: 0 };
    w.add_cash(30);
    assert!(w.spend_cash(30));
    assert_eq!(w.cash, 70);
    assert!(w.cash >= 0);
}

#[test]
fn toggling_a_flag_twice_restores_it() {
    let mut m = StoryMissionManager::new();
    m.set_flag("a".to_string(), true);
    m.toggle_flag("b");
    m.toggle_flag("b");
    assert!(!m.get_flag("b"));
    assert!(m.get_flag("a"));
    m.toggle_flag("a");
    assert!(!m.get_flag("a"));
}

#[test]
fn affinity_and_respect_stay_in_range() {
    let mut r = RelationshipManager::default();
    r.change_relationship(3, 250);
    assert_eq!(r.get_relationship(3), 100);
    r.change_relationship(3, -500);
    assert_eq!(r.get_relationship(3), -100);
    let mut respect = RespectManager::default();
    respect.add_respect(-40);
    assert_eq!(respect.get_respect(), 0);
}

#[test]
fn shuffle_keeps_the_deck() {
    let mut d = Deck::new();
    let mut before: Vec<_> = d.cards.iter().map(|c| (c.suit as u8, c.rank as u8)).collect();
    d.shuffle();
    let mut after: Vec<_> = d.cards.iter().map(|c| (c.suit as u8, c.rank as u8)).collect();
    before.sort();
    after.sort();
    assert_eq!(before, after);
}

#[test]
fn slot_spin_pays_by_its_reels() {
    for _ in 0..30 {
        let mut s = SlotMachine::default();
        s.spin(100);
        assert!(s.reels.iter().all(|r| r.is_some()));
        assert_eq!(s.last_win, s.calculate_payout());
        assert!(s.last_win >= 0 && s.last_win <= 5_000);
    }
}

#[test]
fn variables_are_filled_in() {
    let ps = vec![("name".to_string(), "阿明".to_string()), ("place".to_string(), "夜市".to_string())];
    assert_eq!(substitute_variables("{name} 在 {place} 等你，{name}！", &ps), "阿明 在 夜市 等你，阿明！");
    assert_eq!(substitute_variables("沒有變數", &ps), "沒有變數");
    assert_eq!(get_displayed_text("{name}好", 1000, &ps), "阿明好");
}

#[test]
fn shop_opens_first_open_shop_in_reach() {
    let spots = vec![
        ShopSpot { entity: 1, position: Position::new(100, 0, 0), shop: shop("夜店", 2200, 600), interactable: zone(InteractionType::Shop, 300) },
        ShopSpot { entity: 2, position: Position::new(0, 5_000, 0), shop: shop("遠店", 0, 2400), interactable: zone(InteractionType::Shop, 300) },
        ShopSpot { entity: 3, position: Position::new(0, 200, 0), shop: shop("近店", 800, 2000), interactable: zone(InteractionType::Shop, 300) },
    ];
    let o = Position::new(0, 0, 0);
    let mut menu = ShopMenuState::default();
    let r = handle_shop_interaction(&spots, o, 1200, true, &mut menu);
    assert!(r.opened);
    assert_eq!(r.closed_notices, 1);
    assert_eq!(menu.current_shop, Some(3));
    assert!(menu.is_open);
    // An open menu takes its own input.
    let again = handle_shop_interaction(&spots, o, 1200, true, &mut menu);
    assert!(!again.opened && again.closed_notices == 0);
    let mut closed = ShopMenuState::default();
    let r = handle_shop_interaction(&spots, o, 2100, true, &mut closed);
    assert!(!r.opened);
    assert_eq!(r.closed_notices, 2);
    assert!(!closed.is_open);
    let r = handle_shop_interaction(&spots, o, 1200, false, &mut closed);
    assert_eq!(r.closed_notices, 0);
}

#[test]
fn atm_opens_when_working_and_near() {
    let broken = Atm { name: "壞掉的".to_string(), is_functional: false, max_withdrawal: 10_000 };
    let spots = vec![
        AtmSpot { entity: 1, position: Position::new(0, 0, 0), atm: broken, interactable: zone(InteractionType::Atm, 300) },
        AtmSpot { entity: 2, position: Position::new(0, 0, 250), atm: Atm::default(), interactable: zone(InteractionType::Atm, 300) },
    ];
    let mut menu = AtmMenuState::default();
    menu.input_amount = 500;
    menu.mode = AtmMode::Deposit;
    assert!(handle_atm_interaction(&spots, Position::new(0, 0, 0), true, &mut menu));
    assert_eq!(menu, AtmMenuState { is_open: true, current_atm: Some(2), input_amount: 0, mode: AtmMode::Main });
    let mut far = AtmMenuState::default();
    assert!(!handle_atm_interaction(&spots, Position::new(0, 0, 5_000), true, &mut far));
    assert_eq!(far, AtmMenuState::default());
}

#[test]
fn random_draws_vary() {
    let mut seen = Vec::new();
    for _ in 0..200 {
        let mut s = SlotMachine::default();
        s.spin(1);
        let first = s.reels[0].unwrap();
        if !seen.contains(&first) {
            seen.push(first);
        }
    }
    assert!(seen.len() > 1);
}
