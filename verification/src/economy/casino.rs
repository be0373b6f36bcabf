//! Casino games: blackjack against a dealer and a three-reel slot machine.
use vstd::prelude::*;
use crate::economy::wallet::{PlayerWallet, can_spend, add_cash_post, spend_post, clamp_i32};
use vstd::multiset::Multiset;
use crate::economy::input::PressedKeys;
use crate::random::random_in;

verus! {

broadcast use {vstd::seq_lib::group_seq_properties, vstd::multiset::group_multiset_axioms};

/// Which casino game a zone offers.
#[derive(Clone, Copy, Debug, PartialEq, Eq, Structural)]
pub enum CasinoGameType {
    Blackjack,
    SlotMachine,
}

/// Marks a casino area that opens a game.
pub struct CasinoZone {
    pub game_type: CasinoGameType,
}

/// Casino menu state.
pub struct CasinoMenuState {
    /// Whether the menu is open.
    pub is_open: bool,
    /// The game being played.
    pub active_game: Option<CasinoGameType>,
}

impl Default for CasinoMenuState {
    fn default() -> (s: Self)
        ensures
            !s.is_open,
            s.active_game is None,
    {
        CasinoMenuState { is_open: false, active_game: None }
    }
}

// ---------------------------------------------------------------------------
// Cards
// ---------------------------------------------------------------------------

/// Card suit.
#[derive(Clone, Copy, Debug, PartialEq, Eq, Structural)]
pub enum Suit {
    Spades,
    Hearts,
    Diamonds,
    Clubs,
}

/// Card rank.
#[derive(Clone, Copy, Debug, PartialEq, Eq, Structural)]
pub enum Rank {
    Ace,
    Two,
    Three,
    Four,
    Five,
    Six,
    Seven,
    Eight,
    Nine,
    Ten,
    Jack,
    Queen,
    King,
}

/// Blackjack points of a rank; an ace counts 11 until it has to count 1.
pub open spec fn rank_value(r: Rank) -> nat {
    match r {
        Rank::Ace => 11,
        Rank::Two => 2,
        Rank::Three => 3,
        Rank::Four => 4,
        Rank::Five => 5,
        Rank::Six => 6,
        Rank::Seven => 7,
        Rank::Eight => 8,
        Rank::Nine => 9,
        _ => 10,
    }
}

/// The suit in position `i` of a fresh deck's suit order.
pub open spec fn suit_at(i: int) -> Suit {
    if i == 0 {
        Suit::Spades
    } else if i == 1 {
        Suit::Hearts
    } else if i == 2 {
        Suit::Diamonds
    } else {
        Suit::Clubs
    }
}

/// The rank in position `i` of a fresh deck's rank order (ace first, king last).
pub open spec fn rank_at(i: int) -> Rank {
    if i == 0 {
        Rank::Ace
    } else if i == 1 {
        Rank::Two
    } else if i == 2 {
        Rank::Three
    } else if i == 3 {
        Rank::Four
    } else if i == 4 {
        Rank::Five
    } else if i == 5 {
        Rank::Six
    } else if i == 6 {
        Rank::Seven
    } else if i == 7 {
        Rank::Eight
    } else if i == 8 {
        Rank::Nine
    } else if i == 9 {
        Rank::Ten
    } else if i == 10 {
        Rank::Jack
    } else if i == 11 {
        Rank::Queen
    } else {
        Rank::King
    }
}

impl Suit {
    /// The four suits in deck order.
    pub fn all() -> (a: [Suit; 4])
        ensures
            forall|i: int| 0 <= i < 4 ==> a@[i] == suit_at(i),
    {
        [Suit::Spades, Suit::Hearts, Suit::Diamonds, Suit::Clubs]
    }

    fn from_index(i: usize) -> (s: Suit)
        requires
            i < 4,
        ensures
            s == suit_at(i as int),
    {
        if i == 0 {
            Suit::Spades
        } else if i == 1 {
            Suit::Hearts
        } else if i == 2 {
            Suit::Diamonds
        } else {
            Suit::Clubs
        }
    }
}

impl Rank {
    /// The thirteen ranks in deck order.
    pub fn all() -> (a: [Rank; 13])
        ensures
            forall|i: int| 0 <= i < 13 ==> a@[i] == rank_at(i),
    {
        [
            Rank::Ace,
            Rank::Two,
            Rank::Three,
            Rank::Four,
            Rank::Five,
            Rank::Six,
            Rank::Seven,
            Rank::Eight,
            Rank::Nine,
            Rank::Ten,
            Rank::Jack,
            Rank::Queen,
            Rank::King,
        ]
    }

    fn from_index(i: usize) -> (r: Rank)
        requires
            i < 13,
        ensures
            r == rank_at(i as int),
    {
        if i == 0 {
            Rank::Ace
        } else if i == 1 {
            Rank::Two
        } else if i == 2 {
            Rank::Three
        } else if i == 3 {
            Rank::Four
        } else if i == 4 {
            Rank::Five
        } else if i == 5 {
            Rank::Six
        } else if i == 6 {
            Rank::Seven
        } else if i == 7 {
            Rank::Eight
        } else if i == 8 {
            Rank::Nine
        } else if i == 9 {
            Rank::Ten
        } else if i == 10 {
            Rank::Jack
        } else if i == 11 {
            Rank::Queen
        } else {
            Rank::King
        }
    }

    /// Points of the rank (ace 11, faces 10).
    pub fn value(&self) -> (v: u32)
        ensures
            v == rank_value(*self),
    {
        match self {
            Rank::Ace => 11,
            Rank::Two => 2,
            Rank::Three => 3,
            Rank::Four => 4,
            Rank::Five => 5,
            Rank::Six => 6,
            Rank::Seven => 7,
            Rank::Eight => 8,
            Rank::Nine => 9,
            Rank::Ten | Rank::Jack | Rank::Queen | Rank::King => 10,
        }
    }
}

/// A playing card.
#[derive(Clone, Copy, Debug, PartialEq, Eq, Structural)]
pub struct Card {
    pub suit: Suit,
    pub rank: Rank,
}

impl Card {
    pub fn new(suit: Suit, rank: Rank) -> (c: Card)
        ensures
            c.suit == suit,
            c.rank == rank,
    {
        Card { suit, rank }
    }

    /// Points of the card.
    pub fn value(&self) -> (v: u32)
        ensures
            v == rank_value(self.rank),
    {
        self.rank.value()
    }
}

/// Sum of the cards' points with every ace counted as 11.
pub open spec fn raw_total(s: Seq<Card>) -> nat
    decreases s.len(),
{
    if s.len() == 0 {
        0
    } else {
        raw_total(s.drop_last()) + rank_value(s.last().rank)
    }
}

/// Number of aces among the cards.
pub open spec fn ace_count(s: Seq<Card>) -> nat
    decreases s.len(),
{
    if s.len() == 0 {
        0
    } else {
        ace_count(s.drop_last()) + if s.last().rank == Rank::Ace { 1nat } else { 0nat }
    }
}

/// Turns aces from 11 into 1, one at a time, while the total is above 21.
pub open spec fn soften(total: nat, aces: nat) -> nat
    decreases aces,
{
    if total > 21 && aces > 0 {
        soften((total - 10) as nat, (aces - 1) as nat)
    } else {
        total
    }
}

/// The blackjack value of a hand.
pub open spec fn spec_hand_value(s: Seq<Card>) -> nat {
    soften(raw_total(s), ace_count(s))
}

/// The raw total of a prefix never exceeds the raw total of the whole.
pub proof fn lemma_raw_total_prefix(s: Seq<Card>, i: int)
    requires
        0 <= i <= s.len(),
    ensures
        raw_total(s.take(i)) <= raw_total(s),
    decreases s.len(),
{
    if i == s.len() {
        assert(s.take(i) =~= s);
    } else {
        lemma_raw_total_prefix(s.drop_last(), i);
        assert(s.drop_last().take(i) =~= s.take(i));
    }
}

/// Every ace is worth 11 in the raw total, so the raw total is at least eleven per ace.
pub proof fn lemma_aces_in_total(s: Seq<Card>)
    ensures
        raw_total(s) >= 11 * ace_count(s),
    decreases s.len(),
{
    if s.len() > 0 {
        lemma_aces_in_total(s.drop_last());
    }
}

/// Adding a card to the end adds its points and its ace.
pub proof fn lemma_push(s: Seq<Card>, c: Card)
    ensures
        raw_total(s.push(c)) == raw_total(s) + rank_value(c.rank),
        ace_count(s.push(c)) == ace_count(s) + if c.rank == Rank::Ace { 1nat } else { 0nat },
{
    assert(s.push(c).drop_last() =~= s);
}

/// Blackjack value of a hand: aces count 11, then 1 each while the hand would bust.
pub fn hand_value(cards: &[Card]) -> (v: u32)
    requires
        raw_total(cards@) <= u32::MAX,
    ensures
        v == spec_hand_value(cards@),
{
    let mut total: u32 = 0;
    let mut aces: usize = 0;
    let mut i: usize = 0;
    while i < cards.len()
        invariant
            0 <= i <= cards.len(),
            total == raw_total(cards@.take(i as int)),
            aces == ace_count(cards@.take(i as int)),
            raw_total(cards@) <= u32::MAX,
        decreases cards.len() - i,
    {
        proof {
            lemma_raw_total_prefix(cards@, i + 1);
            assert(cards@.take(i + 1).drop_last() =~= cards@.take(i as int));
            lemma_aces_in_total(cards@.take(i as int));
        }
        total = total + cards[i].value();
        match cards[i].rank {
            Rank::Ace => {
                aces = aces + 1;
            },
            _ => {},
        }
        i = i + 1;
    }
    assert(cards@.take(i as int) =~= cards@);
    while total > 21 && aces > 0
        invariant
            soften(total as nat, aces as nat) == spec_hand_value(cards@),
        decreases aces,
    {
        total = total - 10;
        aces = aces - 1;
    }
    total
}

/// Whether the hand is over 21.
pub fn is_bust(cards: &[Card]) -> (b: bool)
    requires
        raw_total(cards@) <= u32::MAX,
    ensures
        b == (spec_hand_value(cards@) > 21),
{
    hand_value(cards) > 21
}

/// A natural: exactly two cards worth 21.
pub open spec fn spec_is_blackjack(s: Seq<Card>) -> bool {
    s.len() == 2 && spec_hand_value(s) == 21
}

/// Whether the hand is a natural blackjack (two cards, 21 points).
pub fn is_blackjack(cards: &[Card]) -> (b: bool)
    requires
        raw_total(cards@) <= u32::MAX,
    ensures
        b == spec_is_blackjack(cards@),
{
    cards.len() == 2 && hand_value(cards) == 21
}

// ---------------------------------------------------------------------------
// Deck
// ---------------------------------------------------------------------------

/// A fresh deck: spades, hearts, diamonds, clubs, each from ace to king.
pub open spec fn full_deck() -> Seq<Card> {
    Seq::new(52, |i: int| Card { suit: suit_at(i / 13), rank: rank_at(i % 13) })
}

/// `s` with the cards at positions `i` and `j` swapped.
pub open spec fn swapped(s: Seq<Card>, i: int, j: int) -> Seq<Card> {
    s.update(i, s[j]).update(j, s[i])
}

/// Draws fit a Fisher-Yates shuffle of `len` cards: one per position from
/// the top down to the second card, each at or below its position.
pub open spec fn valid_rolls(rolls: Seq<usize>, len: int) -> bool {
    &&& rolls.len() == if len >= 2 { len - 1 } else { 0 }
    &&& forall|k: int| 0 <= k < rolls.len() ==> #[trigger] rolls[k] <= len - 1 - k
}

/// The cards after the first `k` swaps of a Fisher-Yates shuffle with these
/// draws: the `k`-th swap exchanges position `len - k` with its draw.
pub open spec fn shuffled_by(s: Seq<Card>, rolls: Seq<usize>, k: int) -> Seq<Card>
    decreases k,
{
    if k <= 0 {
        s
    } else {
        swapped(shuffled_by(s, rolls, k - 1), s.len() - k, rolls[k - 1] as int)
    }
}

/// A deck of cards; the top card is the last one.
#[derive(Clone, Debug)]
pub struct Deck {
    pub cards: Vec<Card>,
}

impl Deck {
    /// The 52 cards of a fresh deck, in order.
    pub fn new() -> (d: Deck)
        ensures
            d.cards@ == full_deck(),
    {
        let mut cards: Vec<Card> = Vec::new();
        let mut k: usize = 0;
        while k < 52
            invariant
                k <= 52,
                cards@.len() == k,
                forall|j: int| 0 <= j < k ==> cards@[j] == full_deck()[j],
            decreases 52 - k,
        {
            let c = Card::new(Suit::from_index(k / 13), Rank::from_index(k % 13));
            cards.push(c);
            k = k + 1;
        }
        assert(cards@ =~= full_deck());
        Deck { cards }
    }

    /// Fisher-Yates shuffle with the given draws: for each position from the
    /// top down to the second card, the card there is swapped with the one
    /// at the position drawn for it (see `shuffled_by`).
    pub fn shuffle_with_rolls(&mut self, rolls: &Vec<usize>)
        requires
            valid_rolls(rolls@, old(self).cards@.len() as int),
        ensures
            final(self).cards@ == shuffled_by(old(self).cards@, rolls@, rolls@.len() as int),
            final(self).cards@.len() == old(self).cards@.len(),
            final(self).cards@.to_multiset() == old(self).cards@.to_multiset(),
    {
        let len = self.cards.len();
        let ghost s_start = self.cards@;
        let mut k: usize = 0;
        while k < rolls.len()
            invariant
                0 <= k <= rolls@.len(),
                len == s_start.len(),
                valid_rolls(rolls@, len as int),
                self.cards@ == shuffled_by(s_start, rolls@, k as int),
                self.cards@.len() == len,
                self.cards@.to_multiset() == s_start.to_multiset(),
            decreases rolls.len() - k,
        {
            let i = len - 1 - k;
            let j = rolls[k];
            let a = self.cards[i];
            let b = self.cards[j];
            let ghost s0 = self.cards@;
            self.cards.set(i, b);
            let ghost s1 = self.cards@;
            self.cards.set(j, a);
            proof {
                vstd::seq_lib::to_multiset_update(s0, i as int, b);
                vstd::seq_lib::to_multiset_update(s1, j as int, a);
                assert(s0.to_multiset().count(a) > 0) by {
                    vstd::seq_lib::to_multiset_contains(s0, a);
                    assert(s0[i as int] == a);
                }
                assert(self.cards@.to_multiset() =~= s0.to_multiset());
                assert(self.cards@ =~= swapped(s0, i as int, j as int));
            }
            k = k + 1;
        }
    }

    /// Fisher-Yates shuffle: for each position from the top down to the
    /// second card, a position at or below it is drawn at random and the two
    /// cards are swapped. The deck keeps exactly the same cards.
    pub fn shuffle(&mut self)
        ensures
            exists|rolls: Seq<usize>|
                #[trigger] valid_rolls(rolls, old(self).cards@.len() as int) && final(self).cards@ == shuffled_by(
                    old(self).cards@,
                    rolls,
                    rolls.len() as int,
                ),
            final(self).cards@.len() == old(self).cards@.len(),
            final(self).cards@.to_multiset() == old(self).cards@.to_multiset(),
    {
        let len = self.cards.len();
        let mut rolls: Vec<usize> = Vec::new();
        let mut i = len;
        while i > 1
            invariant
                i <= len,
                len >= 2 ==> i >= 1 && rolls@.len() == len - i,
                len < 2 ==> rolls@.len() == 0 && i == len,
                forall|k: int| 0 <= k < rolls@.len() ==> #[trigger] rolls@[k] <= len - 1 - k,
            decreases i,
        {
            i = i - 1;
            let j = random_in(0, i as u64) as usize;
            rolls.push(j);
        }
        proof {
            assert(valid_rolls(rolls@, len as int));
        }
        self.shuffle_with_rolls(&rolls);
    }

    /// Takes the top card, if any.
    pub fn draw(&mut self) -> (c: Option<Card>)
        ensures
            old(self).cards@.len() == 0 ==> c is None && final(self).cards@ == old(self).cards@,
            old(self).cards@.len() > 0 ==> c == Some(old(self).cards@.last())
                && final(self).cards@ == old(self).cards@.drop_last(),
    {
        self.cards.pop()
    }
}

// ---------------------------------------------------------------------------
// Blackjack
// ---------------------------------------------------------------------------

/// Stage of a blackjack round.
#[derive(Clone, Copy, Debug, PartialEq, Eq, Structural)]
pub enum BlackjackPhase {
    /// Waiting for a bet.
    Betting,
    /// The player hits or stands.
    PlayerTurn,
    /// The dealer draws.
    DealerTurn,
    /// The round is settled.
    Result,
}

/// Outcome of a blackjack round.
#[derive(Clone, Copy, Debug, PartialEq, Eq, Structural)]
pub enum BlackjackResult {
    /// A natural blackjack for the player (pays 3:2).
    PlayerBlackjack,
    /// The player wins (pays 1:1).
    PlayerWin,
    /// The dealer wins.
    DealerWin,
    /// A tie: the bet is returned.
    Push,
}

/// One blackjack table.
pub struct BlackjackGame {
    pub deck: Deck,
    pub player_hand: Vec<Card>,
    pub dealer_hand: Vec<Card>,
    pub bet: i32,
    pub phase: BlackjackPhase,
    pub result: Option<BlackjackResult>,
}

/// The state of a blackjack table as values.
pub struct BlackjackView {
    pub deck: Seq<Card>,
    pub player: Seq<Card>,
    pub dealer: Seq<Card>,
    pub bet: i32,
    pub phase: BlackjackPhase,
    pub result: Option<BlackjackResult>,
}

impl View for BlackjackGame {
    type V = BlackjackView;

    open spec fn view(&self) -> BlackjackView {
        BlackjackView {
            deck: self.deck.cards@,
            player: self.player_hand@,
            dealer: self.dealer_hand@,
            bet: self.bet,
            phase: self.phase,
            result: self.result,
        }
    }
}

/// Every card at the table: deck, player's hand and dealer's hand.
pub open spec fn all_cards(v: BlackjackView) -> Multiset<Card> {
    v.deck.to_multiset().add(v.player.to_multiset()).add(v.dealer.to_multiset())
}

/// Dealing a new round from `deck`: two cards each, alternating, player first.
pub open spec fn deal_post(deck: Seq<Card>, bet: i32) -> BlackjackView {
    let n = deck.len() as int;
    let player = seq![deck[n - 1], deck[n - 3]];
    let dealer = seq![deck[n - 2], deck[n - 4]];
    BlackjackView {
        deck: deck.take(n - 4),
        player,
        dealer,
        bet,
        phase: if spec_is_blackjack(player) {
            BlackjackPhase::Result
        } else {
            BlackjackPhase::PlayerTurn
        },
        result: if spec_is_blackjack(player) {
            if spec_is_blackjack(dealer) {
                Some(BlackjackResult::Push)
            } else {
                Some(BlackjackResult::PlayerBlackjack)
            }
        } else {
            None
        },
    }
}

/// `new` is the table after starting a round with `bet` at table `old`: the
/// cards are dealt from the current deck, or, with fewer than ten cards left,
/// from a shuffled fresh deck.
pub open spec fn round_started(old: BlackjackView, new: BlackjackView, bet: i32) -> bool {
    &&& old.deck.len() >= 10 ==> new == deal_post(old.deck, bet)
    &&& old.deck.len() < 10 ==> exists|d: Seq<Card>|
        d.len() == 52 && d.to_multiset() == full_deck().to_multiset() && new == #[trigger] deal_post(
            d,
            bet,
        )
}

/// The table after the player hits.
pub open spec fn hit_post(v: BlackjackView) -> BlackjackView {
    if v.phase != BlackjackPhase::PlayerTurn {
        v
    } else {
        let player = if v.deck.len() > 0 { v.player.push(v.deck.last()) } else { v.player };
        let deck = if v.deck.len() > 0 { v.deck.drop_last() } else { v.deck };
        if spec_hand_value(player) > 21 {
            BlackjackView {
                deck,
                player,
                phase: BlackjackPhase::Result,
                result: Some(BlackjackResult::DealerWin),
                ..v
            }
        } else {
            BlackjackView { deck, player, ..v }
        }
    }
}

/// The dealer draws from the top of `deck` while below 17 and cards remain.
/// Returns the remaining deck and the dealer's hand.
pub open spec fn dealer_draw(deck: Seq<Card>, hand: Seq<Card>) -> (Seq<Card>, Seq<Card>)
    decreases deck.len(),
{
    if spec_hand_value(hand) < 17 && deck.len() > 0 {
        dealer_draw(deck.drop_last(), hand.push(deck.last()))
    } else {
        (deck, hand)
    }
}

/// How a finished round compares the hands.
pub open spec fn showdown(player: Seq<Card>, dealer: Seq<Card>) -> BlackjackResult {
    let p = spec_hand_value(player);
    let d = spec_hand_value(dealer);
    if d > 21 || p > d {
        BlackjackResult::PlayerWin
    } else if d > p {
        BlackjackResult::DealerWin
    } else {
        BlackjackResult::Push
    }
}

/// The table after the player stands and the dealer plays.
pub open spec fn stand_post(v: BlackjackView) -> BlackjackView {
    if v.phase != BlackjackPhase::PlayerTurn {
        v
    } else {
        let (deck, dealer) = dealer_draw(v.deck, v.dealer);
        BlackjackView {
            deck,
            dealer,
            phase: BlackjackPhase::Result,
            result: Some(showdown(v.player, dealer)),
            ..v
        }
    }
}

/// `x / 2` rounded toward zero.
pub open spec fn half_toward_zero(x: int) -> int {
    if x >= 0 { x / 2 } else { -((-x) / 2) }
}

/// Net gain of a settled round: 3:2 for a natural (rounded toward zero,
/// saturating), 1:1 for a win, minus the bet for a loss, nothing otherwise.
pub open spec fn spec_payout(bet: i32, result: Option<BlackjackResult>) -> int {
    match result {
        Some(BlackjackResult::PlayerBlackjack) => clamp_i32(half_toward_zero(3 * bet)),
        Some(BlackjackResult::PlayerWin) => bet as int,
        Some(BlackjackResult::DealerWin) => -bet,
        _ => 0,
    }
}

/// Raw total of the dealer's hand plus the deck the dealer may draw from.
pub open spec fn dealer_reach(v: BlackjackView) -> nat {
    raw_total(v.dealer) + raw_total(v.deck)
}

/// Drawing the top card moves its points from the deck to the hand.
proof fn lemma_draw_moves_points(deck: Seq<Card>, hand: Seq<Card>)
    requires
        deck.len() > 0,
    ensures
        raw_total(deck.drop_last()) + raw_total(hand.push(deck.last()))
            == raw_total(deck) + raw_total(hand),
{
    lemma_push(hand, deck.last());
}

/// The hand that `dealer_draw` ends with is no weaker than the start, and the
/// points it holds all came from the deck.
proof fn lemma_dealer_draw_reach(deck: Seq<Card>, hand: Seq<Card>)
    ensures
        raw_total(dealer_draw(deck, hand).0) + raw_total(dealer_draw(deck, hand).1)
            == raw_total(deck) + raw_total(hand),
        dealer_draw(deck, hand).0.to_multiset().add(dealer_draw(deck, hand).1.to_multiset())
            == deck.to_multiset().add(hand.to_multiset()),
        spec_hand_value(dealer_draw(deck, hand).1) >= 17 || dealer_draw(deck, hand).0.len() == 0,
    decreases deck.len(),
{
    if spec_hand_value(hand) < 17 && deck.len() > 0 {
        lemma_draw_moves_points(deck, hand);
        lemma_dealer_draw_reach(deck.drop_last(), hand.push(deck.last()));
        lemma_move_top(deck, hand);
    }
}

/// Moving the top card of `deck` onto `hand` keeps the cards of both together.
proof fn lemma_move_top(deck: Seq<Card>, hand: Seq<Card>)
    requires
        deck.len() > 0,
    ensures
        deck.drop_last().to_multiset().add(hand.push(deck.last()).to_multiset())
            == deck.to_multiset().add(hand.to_multiset()),
{
    let c = deck.last();
    assert(deck.drop_last().push(c) =~= deck);
    vstd::seq_lib::to_multiset_build(deck.drop_last(), c);
    vstd::seq_lib::to_multiset_build(hand, c);
    assert(deck.drop_last().to_multiset().add(hand.push(c).to_multiset()) =~= deck.to_multiset().add(
        hand.to_multiset(),
    ));
}

impl Default for BlackjackGame {
    /// A table with a freshly shuffled deck, waiting for a bet.
    fn default() -> (g: BlackjackGame)
        ensures
            g@.deck.len() == 52,
            g@.deck.to_multiset() == full_deck().to_multiset(),
            g@.player.len() == 0,
            g@.dealer.len() == 0,
            g@.bet == 0,
            g@.phase == BlackjackPhase::Betting,
            g@.result is None,
    {
        let mut deck = Deck::new();
        deck.shuffle();
        BlackjackGame {
            deck,
            player_hand: Vec::new(),
            dealer_hand: Vec::new(),
            bet: 0,
            phase: BlackjackPhase::Betting,
            result: None,
        }
    }
}

impl BlackjackGame {
    /// Deals a round from the current deck: two cards to the player and two
    /// to the dealer, alternating; a player natural settles at once.
    fn deal(&mut self, bet: i32)
        requires
            old(self)@.deck.len() >= 4,
            raw_total(old(self)@.deck) <= u32::MAX,
        ensures
            final(self)@ == deal_post(old(self)@.deck, bet),
    {
        let ghost d = self.deck.cards@;
        let ghost n = d.len() as int;
        proof {
            lemma_raw_total_prefix(d, n - 1);
            lemma_raw_total_prefix(d, n - 2);
            lemma_raw_total_prefix(d, n - 3);
            lemma_raw_total_prefix(d, n - 4);
        }
        self.player_hand.clear();
        self.dealer_hand.clear();
        self.bet = bet;
        self.result = None;
        let c1 = self.deck.draw().unwrap();
        let c2 = self.deck.draw().unwrap();
        let c3 = self.deck.draw().unwrap();
        let c4 = self.deck.draw().unwrap();
        self.player_hand.push(c1);
        self.dealer_hand.push(c2);
        self.player_hand.push(c3);
        self.dealer_hand.push(c4);
        assert(self.deck.cards@ =~= d.take(n - 4));
        assert(self.player_hand@ =~= seq![d[n - 1], d[n - 3]]);
        assert(self.dealer_hand@ =~= seq![d[n - 2], d[n - 4]]);
        proof {
            lemma_push(seq![], d[n - 1]);
            lemma_push(seq![d[n - 1]], d[n - 3]);
            assert(seq![d[n - 1]].push(d[n - 3]) =~= seq![d[n - 1], d[n - 3]]);
            assert(Seq::<Card>::empty().push(d[n - 1]) =~= seq![d[n - 1]]);
            lemma_push(seq![], d[n - 2]);
            lemma_push(seq![d[n - 2]], d[n - 4]);
            assert(seq![d[n - 2]].push(d[n - 4]) =~= seq![d[n - 2], d[n - 4]]);
            assert(Seq::<Card>::empty().push(d[n - 2]) =~= seq![d[n - 2]]);
            assert(raw_total(Seq::<Card>::empty()) == 0);
        }
        if is_blackjack(self.player_hand.as_slice()) {
            self.phase = BlackjackPhase::Result;
            if is_blackjack(self.dealer_hand.as_slice()) {
                self.result = Some(BlackjackResult::Push);
            } else {
                self.result = Some(BlackjackResult::PlayerBlackjack);
            }
        } else {
            self.phase = BlackjackPhase::PlayerTurn;
        }
    }

    /// Starts a round with `bet`: with fewer than ten cards left the deck is
    /// replaced by a freshly shuffled one first; then the cards are dealt.
    pub fn start_round(&mut self, bet: i32)
        requires
            old(self)@.deck.len() >= 10 ==> raw_total(old(self)@.deck) <= u32::MAX,
        ensures
            round_started(old(self)@, final(self)@, bet),
    {
        if self.deck.cards.len() < 10 {
            self.deck = Deck::new();
            self.deck.shuffle();
            proof {
                lemma_full_deck_points(self.deck.cards@);
            }
        }
        let ghost d = self.deck.cards@;
        self.deal(bet);
        assert(self@ == deal_post(d, bet));
    }

    /// The player takes the top card; going over 21 loses the round.
    /// Does nothing outside the player's turn.
    pub fn hit(&mut self)
        requires
            raw_total(old(self)@.player) + 11 <= u32::MAX,
        ensures
            final(self)@ == hit_post(old(self)@),
    {
        if self.phase != BlackjackPhase::PlayerTurn {
            return;
        }
        let ghost p0 = self.player_hand@;
        if let Some(card) = self.deck.draw() {
            self.player_hand.push(card);
            proof {
                lemma_push(p0, card);
            }
        }
        if is_bust(self.player_hand.as_slice()) {
            self.phase = BlackjackPhase::Result;
            self.result = Some(BlackjackResult::DealerWin);
        }
    }

    /// The player stands and the dealer plays. Does nothing outside the player's turn.
    pub fn stand(&mut self)
        requires
            dealer_reach(old(self)@) <= u32::MAX,
            raw_total(old(self)@.player) <= u32::MAX,
        ensures
            final(self)@ == stand_post(old(self)@),
    {
        if self.phase != BlackjackPhase::PlayerTurn {
            return;
        }
        self.phase = BlackjackPhase::DealerTurn;
        self.play_dealer();
    }

    /// The dealer draws below 17, then the hands are compared.
    fn play_dealer(&mut self)
        requires
            dealer_reach(old(self)@) <= u32::MAX,
            raw_total(old(self)@.player) <= u32::MAX,
        ensures
            final(self)@ == (BlackjackView {
                deck: dealer_draw(old(self)@.deck, old(self)@.dealer).0,
                dealer: dealer_draw(old(self)@.deck, old(self)@.dealer).1,
                phase: BlackjackPhase::Result,
                result: Some(showdown(old(self)@.player, dealer_draw(old(self)@.deck, old(self)@.dealer).1)),
                ..old(self)@
            }),
    {
        let ghost target = dealer_draw(self.deck.cards@, self.dealer_hand@);
        loop
            invariant
                dealer_draw(self.deck.cards@, self.dealer_hand@) == target,
                raw_total(self.deck.cards@) + raw_total(self.dealer_hand@) <= u32::MAX,
                self.player_hand@ == old(self)@.player,
                self.bet == old(self)@.bet,
                self.result == old(self)@.result,
            ensures
                (self.deck.cards@, self.dealer_hand@) == target,
                self.player_hand@ == old(self)@.player,
                self.bet == old(self)@.bet,
                self.result == old(self)@.result,
            decreases self.deck.cards@.len(),
        {
            let v = hand_value(self.dealer_hand.as_slice());
            if v >= 17 {
                break;
            }
            let ghost d0 = self.deck.cards@;
            let ghost h0 = self.dealer_hand@;
            match self.deck.draw() {
                Some(card) => {
                    self.dealer_hand.push(card);
                    proof {
                        lemma_draw_moves_points(d0, h0);
                    }
                },
                None => {
                    break;
                },
            }
        }
        self.phase = BlackjackPhase::Result;
        let player_val = hand_value(self.player_hand.as_slice());
        let dealer_val = hand_value(self.dealer_hand.as_slice());
        if dealer_val > 21 || player_val > dealer_val {
            self.result = Some(BlackjackResult::PlayerWin);
        } else if dealer_val > player_val {
            self.result = Some(BlackjackResult::DealerWin);
        } else {
            self.result = Some(BlackjackResult::Push);
        }
    }

    /// Net gain of the round: positive when the player won, negative when the
    /// dealer won, zero for a push or an unsettled round.
    pub fn payout(&self) -> (p: i32)
        requires
            self.result == Some(BlackjackResult::DealerWin) ==> self.bet > i32::MIN,
        ensures
            p == spec_payout(self.bet, self.result),
    {
        match self.result {
            Some(BlackjackResult::PlayerBlackjack) => {
                let x: i64 = (self.bet as i64) * 3 / 2;
                if x > i32::MAX as i64 {
                    i32::MAX
                } else if x < i32::MIN as i64 {
                    i32::MIN
                } else {
                    x as i32
                }
            },
            Some(BlackjackResult::PlayerWin) => self.bet,
            Some(BlackjackResult::DealerWin) => -self.bet,
            _ => 0,
        }
    }

    /// Value of the player's hand.
    pub fn player_value(&self) -> (v: u32)
        requires
            raw_total(self@.player) <= u32::MAX,
        ensures
            v == spec_hand_value(self@.player),
    {
        hand_value(self.player_hand.as_slice())
    }

    /// Value of the dealer's hand.
    pub fn dealer_value(&self) -> (v: u32)
        requires
            raw_total(self@.dealer) <= u32::MAX,
        ensures
            v == spec_hand_value(self@.dealer),
    {
        hand_value(self.dealer_hand.as_slice())
    }
}

/// Any arrangement of the 52 cards holds 380 points.
proof fn lemma_full_deck_points(d: Seq<Card>)
    requires
        d.to_multiset() == full_deck().to_multiset(),
    ensures
        raw_total(d) <= u32::MAX,
{
    vstd::seq_lib::to_multiset_len(d);
    vstd::seq_lib::to_multiset_len(full_deck());
    lemma_raw_total_bound(d);
}

/// No card is worth more than 11 points.
proof fn lemma_raw_total_bound(d: Seq<Card>)
    ensures
        raw_total(d) <= 11 * d.len(),
    decreases d.len(),
{
    if d.len() > 0 {
        lemma_raw_total_bound(d.drop_last());
    }
}

/// Dealing a round only moves cards: the deck, the player's hand and the
/// dealer's hand together hold exactly the cards of the deck dealt from.
pub proof fn dealing_conserves_cards(deck: Seq<Card>, bet: i32)
    requires
        deck.len() >= 4,
    ensures
        all_cards(deal_post(deck, bet)) == deck.to_multiset(),
        deal_post(deck, bet).player.len() == 2,
        deal_post(deck, bet).dealer.len() == 2,
        deal_post(deck, bet).deck.len() == deck.len() - 4,
{
    let n = deck.len() as int;
    let t = deck.take(n - 4);
    assert(t.push(deck[n - 4]).push(deck[n - 3]).push(deck[n - 2]).push(deck[n - 1]) =~= deck);
    vstd::seq_lib::to_multiset_build(t, deck[n - 4]);
    vstd::seq_lib::to_multiset_build(t.push(deck[n - 4]), deck[n - 3]);
    vstd::seq_lib::to_multiset_build(t.push(deck[n - 4]).push(deck[n - 3]), deck[n - 2]);
    vstd::seq_lib::to_multiset_build(t.push(deck[n - 4]).push(deck[n - 3]).push(deck[n - 2]), deck[n - 1]);
    let p = seq![deck[n - 1], deck[n - 3]];
    let d = seq![deck[n - 2], deck[n - 4]];
    assert(p =~= seq![deck[n - 1]].push(deck[n - 3]));
    assert(seq![deck[n - 1]] =~= Seq::<Card>::empty().push(deck[n - 1]));
    vstd::seq_lib::to_multiset_build(Seq::<Card>::empty(), deck[n - 1]);
    vstd::seq_lib::to_multiset_build(seq![deck[n - 1]], deck[n - 3]);
    assert(d =~= seq![deck[n - 2]].push(deck[n - 4]));
    assert(seq![deck[n - 2]] =~= Seq::<Card>::empty().push(deck[n - 2]));
    vstd::seq_lib::to_multiset_build(Seq::<Card>::empty(), deck[n - 2]);
    vstd::seq_lib::to_multiset_build(seq![deck[n - 2]], deck[n - 4]);
    assert(Seq::<Card>::empty().to_multiset() =~= Multiset::empty());
    assert(all_cards(deal_post(deck, bet)) =~= deck.to_multiset());
}

/// Hitting and standing never create or lose a card: deck and hands together
/// keep the same cards.
pub proof fn play_conserves_cards(v: BlackjackView)
    ensures
        all_cards(hit_post(v)) == all_cards(v),
        all_cards(stand_post(v)) == all_cards(v),
{
    if v.phase == BlackjackPhase::PlayerTurn {
        if v.deck.len() > 0 {
            lemma_move_top(v.deck, v.player);
            assert(all_cards(hit_post(v)) =~= all_cards(v));
        }
        lemma_dealer_draw_reach(v.deck, v.dealer);
        let r = dealer_draw(v.deck, v.dealer);
        let w = stand_post(v);
        assert(w.deck == r.0 && w.dealer == r.1 && w.player == v.player);
        assert forall|x: Card| #[trigger] all_cards(w).count(x) == all_cards(v).count(x) by {
            assert(r.0.to_multiset().add(r.1.to_multiset()).count(x) == v.deck.to_multiset().add(
                v.dealer.to_multiset(),
            ).count(x));
        }
        assert(all_cards(w) =~= all_cards(v));
    }
}

/// Standing during the player's turn always settles the round, and the dealer
/// stops only at 17 or more, or when the deck runs out.
pub proof fn stand_settles_round(v: BlackjackView)
    requires
        v.phase == BlackjackPhase::PlayerTurn,
    ensures
        stand_post(v).phase == BlackjackPhase::Result,
        stand_post(v).result is Some,
        spec_hand_value(stand_post(v).dealer) >= 17 || stand_post(v).deck.len() == 0,
        stand_post(v).player == v.player,
        stand_post(v).bet == v.bet,
{
    lemma_dealer_draw_reach(v.deck, v.dealer);
}

/// When the player stands, the round is settled by comparing hand values
/// after the dealer has drawn: a dealer bust or a higher player total wins
/// the bet, a higher dealer total loses it, and equal totals are a push that
/// pays nothing.
pub proof fn stand_compares_totals(v: BlackjackView)
    requires
        v.phase == BlackjackPhase::PlayerTurn,
    ensures
        ({
            let s = stand_post(v);
            let p = spec_hand_value(v.player);
            let d = spec_hand_value(s.dealer);
            &&& s.phase == BlackjackPhase::Result
            &&& d > 21 ==> s.result == Some(BlackjackResult::PlayerWin) && spec_payout(v.bet, s.result) == v.bet
            &&& d <= 21 && p > d ==> s.result == Some(BlackjackResult::PlayerWin) && spec_payout(v.bet, s.result)
                == v.bet
            &&& d <= 21 && p < d ==> s.result == Some(BlackjackResult::DealerWin) && spec_payout(v.bet, s.result)
                == -v.bet
            &&& d <= 21 && p == d ==> s.result == Some(BlackjackResult::Push) && spec_payout(v.bet, s.result) == 0
        }),
{
}

/// A natural pays one and a half times the bet, rounded down (for a bet whose
/// payout fits an `i32`); a win pays the bet and a loss costs it.
pub proof fn natural_pays_three_to_two(bet: i32)
    requires
        0 <= bet,
        3 * bet <= 2 * i32::MAX,
    ensures
        2 * spec_payout(bet, Some(BlackjackResult::PlayerBlackjack)) <= 3 * bet < 2 * spec_payout(
            bet,
            Some(BlackjackResult::PlayerBlackjack),
        ) + 2,
        spec_payout(bet, Some(BlackjackResult::PlayerWin)) == bet,
        spec_payout(bet, Some(BlackjackResult::DealerWin)) == -bet,
        spec_payout(bet, Some(BlackjackResult::Push)) == 0,
{
}

/// For a positive bet the sign of the payout tells the outcome: positive for
/// a player win or natural, negative exactly for a dealer win, zero for a push
/// or an unsettled round.
pub proof fn payout_sign(bet: i32, result: Option<BlackjackResult>)
    requires
        bet > 0,
    ensures
        spec_payout(bet, result) > 0 <==> (result == Some(BlackjackResult::PlayerWin) || result
            == Some(BlackjackResult::PlayerBlackjack)),
        spec_payout(bet, result) < 0 <==> result == Some(BlackjackResult::DealerWin),
        result == Some(BlackjackResult::PlayerBlackjack) ==> spec_payout(bet, result) >= bet,
{
}

/// How many aces `soften` turns from 11 into 1.
pub open spec fn demotions(total: nat, aces: nat) -> nat
    decreases aces,
{
    if total > 21 && aces > 0 {
        1 + demotions((total - 10) as nat, (aces - 1) as nat)
    } else {
        0
    }
}

/// A hand's value is its raw total with some of its aces counted as 1 instead
/// of 11; aces are demoted only while the hand is over 21, so the value is at
/// most 21 unless every ace already counts 1, and no ace is demoted needlessly.
pub proof fn hand_value_demotes_aces(s: Seq<Card>)
    ensures
        ({
            let k = demotions(raw_total(s), ace_count(s));
            &&& k <= ace_count(s)
            &&& spec_hand_value(s) == raw_total(s) - 10 * k
            &&& spec_hand_value(s) <= 21 || k == ace_count(s)
            &&& k > 0 ==> spec_hand_value(s) + 10 > 21
        }),
{
    lemma_aces_in_total(s);
    lemma_soften(raw_total(s), ace_count(s));
}

proof fn lemma_soften(t: nat, a: nat)
    requires
        t >= 11 * a,
    ensures
        demotions(t, a) <= a,
        soften(t, a) == t - 10 * demotions(t, a),
        soften(t, a) <= 21 || demotions(t, a) == a,
        demotions(t, a) > 0 ==> soften(t, a) + 10 > 21,
    decreases a,
{
    if t > 21 && a > 0 {
        lemma_soften((t - 10) as nat, (a - 1) as nat);
    }
}

// ---------------------------------------------------------------------------
// Slot machine
// ---------------------------------------------------------------------------

/// A reel symbol.
#[derive(Clone, Copy, Debug, PartialEq, Eq, Structural)]
pub enum SlotSymbol {
    Cherry,
    Lemon,
    Orange,
    Bell,
    Bar,
    Seven,
}

/// The symbol a roll in `0..100` lands on: cherry 25%, lemon 20%, orange,
/// bell and bar 15% each, seven 10%.
pub open spec fn symbol_for_roll(roll: int) -> SlotSymbol {
    if roll < 25 {
        SlotSymbol::Cherry
    } else if roll < 45 {
        SlotSymbol::Lemon
    } else if roll < 60 {
        SlotSymbol::Orange
    } else if roll < 75 {
        SlotSymbol::Bell
    } else if roll < 90 {
        SlotSymbol::Bar
    } else {
        SlotSymbol::Seven
    }
}

/// Display text of a symbol.
pub open spec fn symbol_label(s: SlotSymbol) -> Seq<char> {
    match s {
        SlotSymbol::Cherry => "🍒"@,
        SlotSymbol::Lemon => "🍋"@,
        SlotSymbol::Orange => "🍊"@,
        SlotSymbol::Bell => "🔔"@,
        SlotSymbol::Bar => "BAR"@,
        SlotSymbol::Seven => "777"@,
    }
}

impl SlotSymbol {
    /// Every symbol, from most to least frequent.
    pub fn all() -> (a: [SlotSymbol; 6])
        ensures
            a@ == seq![
                SlotSymbol::Cherry,
                SlotSymbol::Lemon,
                SlotSymbol::Orange,
                SlotSymbol::Bell,
                SlotSymbol::Bar,
                SlotSymbol::Seven,
            ],
    {
        let a = [
            SlotSymbol::Cherry,
            SlotSymbol::Lemon,
            SlotSymbol::Orange,
            SlotSymbol::Bell,
            SlotSymbol::Bar,
            SlotSymbol::Seven,
        ];
        assert(a@ =~= seq![
            SlotSymbol::Cherry,
            SlotSymbol::Lemon,
            SlotSymbol::Orange,
            SlotSymbol::Bell,
            SlotSymbol::Bar,
            SlotSymbol::Seven,
        ]);
        a
    }

    /// Display text.
    pub fn label(&self) -> (s: &'static str)
        ensures
            s@ == symbol_label(*self),
    {
        match self {
            SlotSymbol::Cherry => "🍒",
            SlotSymbol::Lemon => "🍋",
            SlotSymbol::Orange => "🍊",
            SlotSymbol::Bell => "🔔",
            SlotSymbol::Bar => "BAR",
            SlotSymbol::Seven => "777",
        }
    }

    /// The symbol for a roll in `0..100` (see `symbol_for_roll`).
    pub fn from_roll(roll: u64) -> (s: SlotSymbol)
        ensures
            s == symbol_for_roll(roll as int),
    {
        if roll < 25 {
            SlotSymbol::Cherry
        } else if roll < 45 {
            SlotSymbol::Lemon
        } else if roll < 60 {
            SlotSymbol::Orange
        } else if roll < 75 {
            SlotSymbol::Bell
        } else if roll < 90 {
            SlotSymbol::Bar
        } else {
            SlotSymbol::Seven
        }
    }

    /// A weighted random symbol: the symbol of a uniform roll in `0..100`.
    pub fn random() -> (s: SlotSymbol)
        ensures
            exists|roll: int| 0 <= roll < 100 && s == #[trigger] symbol_for_roll(roll),
    {
        let roll = random_in(0, 99);
        let s = SlotSymbol::from_roll(roll);
        assert(s == symbol_for_roll(roll as int));
        s
    }
}

/// The slot machine.
pub struct SlotMachine {
    /// The three reels (empty before the first spin).
    pub reels: [Option<SlotSymbol>; 3],
    /// Current bet.
    pub bet: i32,
    /// Amount won by the last spin.
    pub last_win: i32,
    /// Whether the reels are spinning (animation).
    pub spinning: bool,
}

impl Default for SlotMachine {
    fn default() -> (m: SlotMachine)
        ensures
            m.reels@ == seq![None::<SlotSymbol>, None, None],
            m.bet == 0,
            m.last_win == 0,
            !m.spinning,
    {
        let m = SlotMachine { reels: [None, None, None], bet: 0, last_win: 0, spinning: false };
        assert(m.reels@ =~= seq![None::<SlotSymbol>, None, None]);
        m
    }
}

/// Multiplier for three of a kind.
pub open spec fn triple_multiplier(s: SlotSymbol) -> int {
    match s {
        SlotSymbol::Seven => 50,
        SlotSymbol::Bar => 20,
        SlotSymbol::Bell => 15,
        SlotSymbol::Orange => 10,
        SlotSymbol::Lemon => 5,
        SlotSymbol::Cherry => 3,
    }
}

/// How many of the three symbols are cherries.
pub open spec fn cherries(a: SlotSymbol, b: SlotSymbol, c: SlotSymbol) -> int {
    (if a == SlotSymbol::Cherry { 1int } else { 0int }) + (if b == SlotSymbol::Cherry {
        1int
    } else {
        0int
    }) + (if c == SlotSymbol::Cherry { 1int } else { 0int })
}

/// How many bets the reels pay: three of a kind by symbol, otherwise two
/// cherries pay two bets, one cherry returns the bet, anything else nothing.
/// Reels that have not spun pay nothing.
pub open spec fn reel_multiplier(reels: Seq<Option<SlotSymbol>>) -> int {
    match (reels[0], reels[1], reels[2]) {
        (Some(a), Some(b), Some(c)) => if a == b && b == c {
            triple_multiplier(a)
        } else if cherries(a, b, c) == 2 {
            2
        } else if cherries(a, b, c) == 1 {
            1
        } else {
            0
        },
        _ => 0,
    }
}

fn triple_mult(s: SlotSymbol) -> (m: i32)
    ensures
        m == triple_multiplier(s),
{
    match s {
        SlotSymbol::Seven => 50,
        SlotSymbol::Bar => 20,
        SlotSymbol::Bell => 15,
        SlotSymbol::Orange => 10,
        SlotSymbol::Lemon => 5,
        SlotSymbol::Cherry => 3,
    }
}

fn cherry_count(a: SlotSymbol, b: SlotSymbol, c: SlotSymbol) -> (n: i32)
    ensures
        n == cherries(a, b, c),
{
    let mut n: i32 = 0;
    if a == SlotSymbol::Cherry {
        n = n + 1;
    }
    if b == SlotSymbol::Cherry {
        n = n + 1;
    }
    if c == SlotSymbol::Cherry {
        n = n + 1;
    }
    n
}

impl SlotMachine {
    /// Pulls the lever: three random symbols, and the win is recorded.
    pub fn spin(&mut self, bet: i32)
        requires
            i32::MIN <= 50 * bet <= i32::MAX,
        ensures
            final(self).bet == bet,
            !final(self).spinning,
            final(self).reels@[0] is Some && final(self).reels@[1] is Some && final(self).reels@[2] is Some,
            final(self).last_win == bet * reel_multiplier(final(self).reels@),
    {
        self.bet = bet;
        self.reels = [Some(SlotSymbol::random()), Some(SlotSymbol::random()), Some(SlotSymbol::random())];
        self.spinning = false;
        proof {
            let r = self.reels@;
            assert(0 <= reel_multiplier(r) <= 50);
            assert(i32::MIN <= bet * reel_multiplier(r) <= i32::MAX) by (nonlinear_arith)
                requires
                    i32::MIN <= 50 * bet <= i32::MAX,
                    0 <= reel_multiplier(r) <= 50,
            ;
        }
        self.last_win = self.calculate_payout();
    }

    /// Winnings of the current reels for the current bet.
    pub fn calculate_payout(&self) -> (w: i32)
        requires
            i32::MIN <= self.bet * reel_multiplier(self.reels@) <= i32::MAX,
        ensures
            w == self.bet * reel_multiplier(self.reels@),
    {
        let r = self.reels;
        let (a, b, c) = match (r[0], r[1], r[2]) {
            (Some(a), Some(b), Some(c)) => (a, b, c),
            _ => {
                return 0;
            },
        };
        if a == b && b == c {
            return self.bet * triple_mult(a);
        }
        let cherry = cherry_count(a, b, c);
        if cherry == 2 {
            return self.bet * 2;
        }
        if cherry == 1 {
            assert(reel_multiplier(self.reels@) == 1);
            return self.bet;
        }
        0
    }

    /// Win minus stake of the last spin.
    pub fn net_payout(&self) -> (n: i32)
        requires
            i32::MIN <= self.last_win - self.bet <= i32::MAX,
        ensures
            n == self.last_win - self.bet,
    {
        self.last_win - self.bet
    }
}

/// Reels that are not three of a kind pay one bet per cherry on them: one
/// cherry returns the bet, two pay two bets, none pay nothing.
pub proof fn mixed_reels_pay_per_cherry(reels: Seq<Option<SlotSymbol>>, a: SlotSymbol, b: SlotSymbol, c: SlotSymbol, bet: int)
    requires
        reels.len() == 3,
        reels[0] == Some(a),
        reels[1] == Some(b),
        reels[2] == Some(c),
        !(a == b && b == c),
    ensures
        ({
            let n = (if a == SlotSymbol::Cherry { 1int } else { 0 }) + (if b == SlotSymbol::Cherry { 1int } else { 0 })
                + (if c == SlotSymbol::Cherry { 1int } else { 0 });
            &&& reel_multiplier(reels) == n
            &&& bet * reel_multiplier(reels) == bet * n
        }),
{
}

/// Three of a kind pay at least three bets, more than any mixed reels, and
/// the rarer the symbol the more it pays: seven, bar, bell, orange, lemon,
/// cherry.
pub proof fn triples_pay_most(reels: Seq<Option<SlotSymbol>>, other: Seq<Option<SlotSymbol>>, s: SlotSymbol)
    requires
        reels == seq![Some(s), Some(s), Some(s)],
        other.len() == 3,
        !(other[0] == other[1] && other[1] == other[2]),
    ensures
        reel_multiplier(reels) >= 3,
        reel_multiplier(other) <= 2,
        reel_multiplier(seq![Some(SlotSymbol::Seven), Some(SlotSymbol::Seven), Some(SlotSymbol::Seven)])
            > reel_multiplier(seq![Some(SlotSymbol::Bar), Some(SlotSymbol::Bar), Some(SlotSymbol::Bar)]),
        reel_multiplier(seq![Some(SlotSymbol::Bar), Some(SlotSymbol::Bar), Some(SlotSymbol::Bar)])
            > reel_multiplier(seq![Some(SlotSymbol::Bell), Some(SlotSymbol::Bell), Some(SlotSymbol::Bell)]),
        reel_multiplier(seq![Some(SlotSymbol::Bell), Some(SlotSymbol::Bell), Some(SlotSymbol::Bell)])
            > reel_multiplier(seq![Some(SlotSymbol::Orange), Some(SlotSymbol::Orange), Some(SlotSymbol::Orange)]),
        reel_multiplier(seq![Some(SlotSymbol::Orange), Some(SlotSymbol::Orange), Some(SlotSymbol::Orange)])
            > reel_multiplier(seq![Some(SlotSymbol::Lemon), Some(SlotSymbol::Lemon), Some(SlotSymbol::Lemon)]),
        reel_multiplier(seq![Some(SlotSymbol::Lemon), Some(SlotSymbol::Lemon), Some(SlotSymbol::Lemon)])
            > reel_multiplier(seq![Some(SlotSymbol::Cherry), Some(SlotSymbol::Cherry), Some(SlotSymbol::Cherry)]),
{
}

/// For a non-negative bet a spin never pays a negative amount and pays at most
/// fifty bets; three sevens pay exactly fifty.
pub proof fn slot_payout_bounds(reels: Seq<Option<SlotSymbol>>, bet: int)
    requires
        bet >= 0,
        reels.len() == 3,
    ensures
        0 <= bet * reel_multiplier(reels) <= 50 * bet,
        reels == seq![Some(SlotSymbol::Seven), Some(SlotSymbol::Seven), Some(SlotSymbol::Seven)]
            ==> bet * reel_multiplier(reels) == 50 * bet,
{
    let m = reel_multiplier(reels);
    assert(0 <= m <= 50);
    assert(0 <= bet * m <= 50 * bet) by (nonlinear_arith)
        requires
            bet >= 0,
            0 <= m <= 50,
    ;
}

// ---------------------------------------------------------------------------
// Table rules for each frame
// ---------------------------------------------------------------------------

/// The stake chosen with the number keys at the blackjack table.
pub open spec fn blackjack_bet_choice(k: PressedKeys) -> Option<i32> {
    if k.digit1 {
        Some(100)
    } else if k.digit2 {
        Some(500)
    } else if k.digit3 {
        Some(1000)
    } else if k.digit4 {
        Some(5000)
    } else {
        None
    }
}

/// Whether the menu shows `game`.
pub open spec fn menu_shows(menu: &CasinoMenuState, game: CasinoGameType) -> bool {
    menu.is_open && menu.active_game == Some(game)
}

/// Placing a bet at the blackjack table: a number key picks the stake; if the
/// cash covers it, it is paid and a round starts.
pub fn blackjack_bet_system(
    game: &mut BlackjackGame,
    wallet: &mut PlayerWallet,
    menu: &CasinoMenuState,
    input: &PressedKeys,
)
    requires
        old(game)@.deck.len() >= 10 ==> raw_total(old(game)@.deck) <= u32::MAX,
    ensures
        ({
            let go = menu_shows(menu, CasinoGameType::Blackjack) && old(game)@.phase
                == BlackjackPhase::Betting && blackjack_bet_choice(*input) is Some
                && can_spend(*old(wallet), blackjack_bet_choice(*input)->0);
            &&& go ==> *final(wallet) == spend_post(*old(wallet), blackjack_bet_choice(*input)->0)
                && round_started(old(game)@, final(game)@, blackjack_bet_choice(*input)->0)
            &&& !go ==> *final(wallet) == *old(wallet) && final(game)@ == old(game)@
        }),
{
    if !menu.is_open || menu.active_game != Some(CasinoGameType::Blackjack) {
        return;
    }
    if game.phase != BlackjackPhase::Betting {
        return;
    }
    let bet = if input.digit1 {
        100
    } else if input.digit2 {
        500
    } else if input.digit3 {
        1000
    } else if input.digit4 {
        5000
    } else {
        return;
    };
    if wallet.spend_cash(bet) {
        game.start_round(bet);
    }
}

/// What collecting a settled round pays out: the stake plus the gain after a
/// win, the stake after a push, nothing after a loss.
pub open spec fn settlement(bet: i32, result: Option<BlackjackResult>) -> int {
    let p = spec_payout(bet, result);
    if p > 0 {
        bet + p
    } else if p == 0 {
        bet as int
    } else {
        0
    }
}

/// The wallet after collecting a settled round.
pub open spec fn settle_wallet(w: PlayerWallet, bet: i32, result: Option<BlackjackResult>) -> PlayerWallet {
    let p = spec_payout(bet, result);
    if p >= 0 {
        add_cash_post(w, settlement(bet, result) as i32)
    } else {
        w
    }
}

/// The player's move at the blackjack table: H hits and S stands during the
/// player's turn; Enter after the round collects the winnings and reopens betting.
pub fn blackjack_play_system(
    game: &mut BlackjackGame,
    wallet: &mut PlayerWallet,
    menu: &CasinoMenuState,
    input: &PressedKeys,
)
    requires
        raw_total(old(game)@.player) + 11 <= u32::MAX,
        dealer_reach(old(game)@) <= u32::MAX,
        old(game)@.result == Some(BlackjackResult::DealerWin) ==> old(game)@.bet > i32::MIN,
        i32::MIN <= settlement(old(game)@.bet, old(game)@.result) <= i32::MAX,
    ensures
        !menu_shows(menu, CasinoGameType::Blackjack) ==> final(game)@ == old(game)@ && *final(wallet)
            == *old(wallet),
        menu_shows(menu, CasinoGameType::Blackjack) ==> {
            let g = old(game)@;
            if g.phase == BlackjackPhase::PlayerTurn {
                &&& input.key_h ==> final(game)@ == hit_post(g)
                &&& !input.key_h && input.key_s ==> final(game)@ == stand_post(g)
                &&& !input.key_h && !input.key_s ==> final(game)@ == g
                &&& *final(wallet) == *old(wallet)
            } else if g.phase == BlackjackPhase::Result && input.enter {
                &&& final(game)@ == BlackjackView { phase: BlackjackPhase::Betting, result: None, ..g }
                &&& *final(wallet) == settle_wallet(*old(wallet), g.bet, g.result)
            } else {
                final(game)@ == g && *final(wallet) == *old(wallet)
            }
        },
{
    if !menu.is_open || menu.active_game != Some(CasinoGameType::Blackjack) {
        return;
    }
    match game.phase {
        BlackjackPhase::PlayerTurn => {
            if input.key_h {
                game.hit();
            } else if input.key_s {
                game.stand();
            }
        },
        BlackjackPhase::Result => {
            if input.enter {
                let payout = game.payout();
                if payout > 0 {
                    wallet.add_cash(game.bet + payout);
                } else if payout == 0 {
                    wallet.add_cash(game.bet);
                }
                game.phase = BlackjackPhase::Betting;
                game.result = None;
            }
        },
        _ => {},
    }
}

/// The stake chosen with the number keys at the slot machine.
pub open spec fn slot_bet_choice(k: PressedKeys) -> Option<i32> {
    if k.digit1 {
        Some(50)
    } else if k.digit2 {
        Some(100)
    } else if k.digit3 {
        Some(500)
    } else {
        None
    }
}

/// The slot machine: number keys choose the stake; Space pays the stake, spins
/// and pays out any win.
pub fn slot_machine_system(
    slot: &mut SlotMachine,
    wallet: &mut PlayerWallet,
    menu: &CasinoMenuState,
    input: &PressedKeys,
)
    requires
        i32::MIN <= 50 * old(slot).bet <= i32::MAX,
    ensures
        !menu_shows(menu, CasinoGameType::SlotMachine) ==> *final(slot) == *old(slot) && *final(wallet)
            == *old(wallet),
        menu_shows(menu, CasinoGameType::SlotMachine) ==> {
            let bet = match slot_bet_choice(*input) {
                Some(b) => b,
                None => old(slot).bet,
            };
            let go = input.space && bet > 0 && can_spend(*old(wallet), bet);
            &&& final(slot).bet == bet
            &&& !go ==> final(slot).reels == old(slot).reels && final(slot).last_win == old(slot).last_win
                && final(slot).spinning == old(slot).spinning && *final(wallet) == *old(wallet)
            &&& go ==> final(slot).last_win == bet * reel_multiplier(final(slot).reels@)
                && !final(slot).spinning && (final(slot).last_win > 0 ==> *final(wallet)
                == add_cash_post(spend_post(*old(wallet), bet), final(slot).last_win)) && (
            final(slot).last_win <= 0 ==> *final(wallet) == spend_post(*old(wallet), bet))
        },
{
    if !menu.is_open || menu.active_game != Some(CasinoGameType::SlotMachine) {
        return;
    }
    let bet = if input.digit1 {
        Some(50)
    } else if input.digit2 {
        Some(100)
    } else if input.digit3 {
        Some(500)
    } else {
        None
    };
    if let Some(b) = bet {
        slot.bet = b;
    }
    let current_bet = slot.bet;
    if input.space && current_bet > 0 && wallet.spend_cash(current_bet) {
        slot.spin(current_bet);
        if slot.last_win > 0 {
            wallet.add_cash(slot.last_win);
        }
    }
}

} // verus!
