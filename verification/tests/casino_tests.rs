//! Blackjack, slot machine and deck rules.

use island_rampage::economy::casino::{
    hand_value, is_blackjack, is_bust, BlackjackGame, BlackjackPhase, BlackjackResult, Card,
    Deck, Rank, SlotMachine, SlotSymbol, Suit,
};
#[test]
fn card_values() {
    assert_eq!(Card::new(Suit::Spades, Rank::Ace).value(), 11);
    assert_eq!(Card::new(Suit::Hearts, Rank::King).value(), 10);
    assert_eq!(Card::new(Suit::Diamonds, Rank::Five).value(), 5);
}

#[test]
fn hand_value_simple() {
    let hand = vec![
        Card::new(Suit::Spades, Rank::Ten),
        Card::new(Suit::Hearts, Rank::Seven),
    ];
    assert_eq!(hand_value(&hand), 17);
}

#[test]
fn hand_value_ace_adjustment() {
    // Ace + 10 + 5 = 26 → Ace 變 1 → 16
    let hand = vec![
        Card::new(Suit::Spades, Rank::Ace),
        Card::new(Suit::Hearts, Rank::Ten),
        Card::new(Suit::Diamonds, Rank::Five),
    ];
    assert_eq!(hand_value(&hand), 16);
}

#[test]
fn hand_value_double_ace() {
    // Ace + Ace = 22 → 一個 Ace 變 1 → 12
    let hand = vec![
        Card::new(Suit::Spades, Rank::Ace),
        Card::new(Suit::Hearts, Rank::Ace),
    ];
    assert_eq!(hand_value(&hand), 12);
}

#[test]
fn blackjack_detection() {
    let hand = vec![
        Card::new(Suit::Spades, Rank::Ace),
        Card::new(Suit::Hearts, Rank::King),
    ];
    assert!(is_blackjack(&hand));
    assert!(!is_bust(&hand));

    let not_bj = vec![
        Card::new(Suit::Spades, Rank::Ten),
        Card::new(Suit::Hearts, Rank::Five),
        Card::new(Suit::Diamonds, Rank::Six),
    ];
    assert!(!is_blackjack(&not_bj)); // 21 但 3 張牌
}

#[test]
fn bust_detection() {
    let hand = vec![
        Card::new(Suit::Spades, Rank::Ten),
        Card::new(Suit::Hearts, Rank::Ten),
        Card::new(Suit::Diamonds, Rank::Five),
    ];
    assert!(is_bust(&hand)); // 25
}

#[test]
fn blackjack_game_start_round() {
    let mut game = BlackjackGame::default();
    game.start_round(100);

    assert_eq!(game.bet, 100);
    assert_eq!(game.player_hand.len(), 2);
    assert_eq!(game.dealer_hand.len(), 2);
    // phase 應為 PlayerTurn 或 Result（若 Blackjack）
    assert!(
        game.phase == BlackjackPhase::PlayerTurn || game.phase == BlackjackPhase::Result
    );
}

#[test]
fn blackjack_hit_and_bust() {
    let mut game = BlackjackGame::default();
    // 手動設定手牌讓玩家接近爆牌
    game.phase = BlackjackPhase::PlayerTurn;
    game.player_hand = vec![
        Card::new(Suit::Spades, Rank::Ten),
        Card::new(Suit::Hearts, Rank::Ten),
    ];
    // 20 點再 hit 很可能爆牌，但結果取決於抽到的牌
    game.hit();
    // 如果抽到 2-Ace，不爆牌繼續；否則爆牌
    if is_bust(&game.player_hand) {
        assert_eq!(game.phase, BlackjackPhase::Result);
        assert_eq!(game.result, Some(BlackjackResult::DealerWin));
    } else {
        assert_eq!(game.phase, BlackjackPhase::PlayerTurn);
    }
}

#[test]
fn blackjack_stand_triggers_dealer() {
    let mut game = BlackjackGame::default();
    game.start_round(100);

    // 如果玩家有 Blackjack，跳過 stand 測試
    if game.phase == BlackjackPhase::PlayerTurn {
        game.stand();
        assert_eq!(game.phase, BlackjackPhase::Result);
        assert!(game.result.is_some());
    }
}

#[test]
fn blackjack_payout_values() {
    let mut game = BlackjackGame::default();
    game.bet = 1000;

    game.result = Some(BlackjackResult::PlayerBlackjack);
    assert_eq!(game.payout(), 1500); // 1.5x

    game.result = Some(BlackjackResult::PlayerWin);
    assert_eq!(game.payout(), 1000); // 1x

    game.result = Some(BlackjackResult::DealerWin);
    assert_eq!(game.payout(), -1000); // -1x

    game.result = Some(BlackjackResult::Push);
    assert_eq!(game.payout(), 0); // 退還
}

#[test]
fn deck_has_52_cards() {
    let deck = Deck::new();
    assert_eq!(deck.cards.len(), 52);
}

#[test]
fn deck_draw_reduces_count() {
    let mut deck = Deck::new();
    deck.shuffle();
    deck.draw();
    assert_eq!(deck.cards.len(), 51);
}

#[test]
fn slot_machine_three_sevens() {
    let mut slot = SlotMachine::default();
    slot.bet = 100;
    slot.reels = [
        Some(SlotSymbol::Seven),
        Some(SlotSymbol::Seven),
        Some(SlotSymbol::Seven),
    ];
    slot.last_win = slot.calculate_payout();
    assert_eq!(slot.last_win, 5000); // 50x
}

#[test]
fn slot_machine_three_bars() {
    let mut slot = SlotMachine::default();
    slot.bet = 100;
    slot.reels = [
        Some(SlotSymbol::Bar),
        Some(SlotSymbol::Bar),
        Some(SlotSymbol::Bar),
    ];
    slot.last_win = slot.calculate_payout();
    assert_eq!(slot.last_win, 2000); // 20x
}

#[test]
fn slot_machine_two_cherries() {
    let mut slot = SlotMachine::default();
    slot.bet = 100;
    slot.reels = [
        Some(SlotSymbol::Cherry),
        Some(SlotSymbol::Cherry),
        Some(SlotSymbol::Bell),
    ];
    slot.last_win = slot.calculate_payout();
    assert_eq!(slot.last_win, 200); // 2x
}

#[test]
fn slot_machine_no_match() {
    let mut slot = SlotMachine::default();
    slot.bet = 100;
    slot.reels = [
        Some(SlotSymbol::Bell),
        Some(SlotSymbol::Lemon),
        Some(SlotSymbol::Orange),
    ];
    slot.last_win = slot.calculate_payout();
    assert_eq!(slot.last_win, 0);
}

#[test]
fn slot_machine_net_payout() {
    let mut slot = SlotMachine::default();
    slot.bet = 100;
    slot.last_win = 200;
    assert_eq!(slot.net_payout(), 100); // 200 - 100

    slot.last_win = 0;
    assert_eq!(slot.net_payout(), -100); // 0 - 100
}

#[test]
fn slot_symbol_random_coverage() {
    // 產生 100 個隨機圖案，確認範圍正確
    for _ in 0..100 {
        let sym = SlotSymbol::random();
        assert!(SlotSymbol::all().contains(&sym));
    }
}

#[test]
fn deck_shuffle_with_given_draws() {
    let a = Card::new(Suit::Spades, Rank::Ace);
    let b = Card::new(Suit::Hearts, Rank::Two);
    let c = Card::new(Suit::Clubs, Rank::King);
    let mut deck = Deck { cards: vec![a, b, c] };
    // top (position 2) swaps with 1, then position 1 swaps with 0
    deck.shuffle_with_rolls(&vec![1, 0]);
    assert_eq!(deck.cards, vec![c, a, b]);

    let mut deck = Deck { cards: vec![a, b, c] };
    deck.shuffle_with_rolls(&vec![0, 1]);
    assert_eq!(deck.cards, vec![c, b, a]);

    let mut single = Deck { cards: vec![a] };
    single.shuffle_with_rolls(&vec![]);
    assert_eq!(single.cards, vec![a]);
}
