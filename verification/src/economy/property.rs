//! Buildings the player can buy for rent, and shop robberies.
use vstd::prelude::*;
use crate::economy::wallet::{PlayerWallet, can_spend, spend_post, add_cash_post};
use crate::economy::events::{MoneyChangedEvent, MoneyChangeReason};
use crate::random::random_in;

verus! {

/// How close the player must be to buy a building, in centimeters.
pub const PROPERTY_INTERACTION_DISTANCE: u32 = 800;
/// When rent is paid, in hundredths of an hour (6:00).
pub const RENTAL_INCOME_HOUR: u32 = 600;
/// How close the player must be to rob a shop, in centimeters.
pub const ROBBERY_INTERACTION_DISTANCE: u32 = 500;
/// Smallest robbery haul.
pub const ROBBERY_MIN_AMOUNT: i32 = 500;
/// Haul bound: a robbery yields less than this.
pub const ROBBERY_MAX_AMOUNT: i32 = 3000;
/// Time before the same shop can be robbed again, in milliseconds.
pub const ROBBERY_COOLDOWN: u32 = 300_000;

/// Ownership of a building that pays daily rent.
#[derive(Clone, Copy, Debug, PartialEq, Eq, Structural)]
pub struct PropertyOwnership {
    pub owned: bool,
    pub purchase_price: i32,
    pub daily_income: i32,
    /// Day rent was last collected (-1: never).
    pub last_income_day: i32,
}

/// Rent that collecting on `day` pays.
pub open spec fn rent_due(p: PropertyOwnership, day: i32) -> int {
    if p.owned && p.last_income_day != day { p.daily_income as int } else { 0 }
}

/// The building after collecting rent on `day`.
pub open spec fn rent_post(p: PropertyOwnership, day: i32) -> PropertyOwnership {
    if p.owned && p.last_income_day != day {
        PropertyOwnership { last_income_day: day, ..p }
    } else {
        p
    }
}

impl PropertyOwnership {
    /// A building for sale.
    pub fn for_sale(purchase_price: i32, daily_income: i32) -> (p: PropertyOwnership)
        ensures
            p == (PropertyOwnership { owned: false, purchase_price, daily_income, last_income_day: -1i32 }),
    {
        PropertyOwnership { owned: false, purchase_price, daily_income, last_income_day: -1 }
    }

    /// Becomes the player's.
    pub fn purchase(&mut self)
        ensures
            *final(self) == (PropertyOwnership { owned: true, ..*old(self) }),
    {
        self.owned = true;
    }

    /// Whether rent was already collected on `day`.
    pub fn has_collected_today(&self, day: i32) -> (b: bool)
        ensures
            b == (self.last_income_day == day),
    {
        self.last_income_day == day
    }

    /// Collects the rent of `day`, once; nothing if not owned.
    pub fn collect_income(&mut self, day: i32) -> (r: i32)
        ensures
            r == rent_due(*old(self), day),
            *final(self) == rent_post(*old(self), day),
    {
        if !self.owned || self.has_collected_today(day) {
            return 0;
        }
        self.last_income_day = day;
        self.daily_income
    }
}

/// Rent is paid at most once per day.
pub proof fn rent_once_per_day(p: PropertyOwnership, day: i32)
    ensures
        rent_due(rent_post(p, day), day) == 0,
        rent_post(rent_post(p, day), day) == rent_post(p, day),
        p.owned ==> rent_post(p, day).last_income_day == day,
{
}

/// Robbery cooldown of a shop.
#[derive(Clone, Copy, Debug, PartialEq, Eq, Structural)]
pub struct RobberyState {
    /// Remaining cooldown, in milliseconds.
    pub cooldown: u32,
}

impl Default for RobberyState {
    fn default() -> (s: RobberyState)
        ensures
            s.cooldown == 0,
    {
        RobberyState { cooldown: 0 }
    }
}

impl RobberyState {
    /// Whether the shop can be robbed now.
    pub fn can_rob(&self) -> (b: bool)
        ensures
            b == (self.cooldown == 0),
    {
        self.cooldown == 0
    }

    /// The shop is robbed: the full cooldown starts.
    pub fn rob(&mut self)
        ensures
            final(self).cooldown == ROBBERY_COOLDOWN,
    {
        self.cooldown = ROBBERY_COOLDOWN;
    }

    /// Time passes: the cooldown shrinks by `dt`, never below zero.
    pub fn tick(&mut self, dt: u32)
        ensures
            final(self).cooldown == if old(self).cooldown > dt { old(self).cooldown - dt } else { 0 },
    {
        self.cooldown = self.cooldown.saturating_sub(dt);
    }
}

/// Time passes for every shop's robbery cooldown.
pub fn robbery_cooldown_system(states: &mut Vec<RobberyState>, dt: u32)
    ensures
        final(states)@.len() == old(states)@.len(),
        forall|i: int|
            0 <= i < old(states)@.len() ==> (#[trigger] final(states)@[i]).cooldown == if old(states)@[i].cooldown > dt {
                old(states)@[i].cooldown - dt
            } else {
                0
            },
{
    let ghost s0 = states@;
    let mut i: usize = 0;
    while i < states.len()
        invariant
            0 <= i <= s0.len(),
            states@.len() == s0.len(),
            forall|j: int|
                0 <= j < i ==> (#[trigger] states@[j]).cooldown == if s0[j].cooldown > dt {
                    s0[j].cooldown - dt
                } else {
                    0
                },
            forall|j: int| i <= j < s0.len() ==> #[trigger] states@[j] == s0[j],
        decreases states.len() - i,
    {
        let mut r = states[i];
        r.tick(dt);
        states.set(i, r);
        i = i + 1;
    }
}

/// After a robbery the shop cannot be robbed again until ticks adding up to
/// the whole cooldown have passed; then it can.
pub proof fn robbery_cooldown_expires(a: u32, b: u32)
    ensures
        ({
            let after_a: u32 = if ROBBERY_COOLDOWN > a { (ROBBERY_COOLDOWN - a) as u32 } else { 0 };
            let after_b: u32 = if after_a > b { (after_a - b) as u32 } else { 0 };
            &&& (after_a == 0) <==> a >= ROBBERY_COOLDOWN
            &&& (after_b == 0) <==> a + b >= ROBBERY_COOLDOWN
        }),
{
}

/// Outcome of trying to buy a building.
#[derive(Clone, Copy, Debug, PartialEq, Eq, Structural)]
pub enum PropertyPurchaseOutcome {
    /// No building for sale in reach (or no interaction this frame).
    NothingInReach,
    /// Bought the building at this index.
    Bought(usize, MoneyChangedEvent),
    /// The building at this index costs more than the cash.
    NotEnoughMoney(usize),
}

/// The first building for sale in reach, if any.
pub open spec fn first_for_sale(props: Seq<PropertyOwnership>, in_reach: Seq<bool>) -> Option<int>
    decreases props.len(),
{
    if props.len() == 0 {
        None
    } else {
        match first_for_sale(props.drop_last(), in_reach) {
            Some(i) => Some(i),
            None => {
                let j = props.len() - 1;
                if !props[j].owned && in_reach[j] { Some(j) } else { None }
            },
        }
    }
}

/// The player presses the interaction key near buildings: the first one for
/// sale in reach is bought if the cash covers its price; one per press.
pub fn property_purchase_system(
    can_interact: bool,
    wallet: &mut PlayerWallet,
    properties: &mut Vec<PropertyOwnership>,
    in_reach: &[bool],
) -> (o: PropertyPurchaseOutcome)
    requires
        in_reach@.len() == old(properties)@.len(),
    ensures
        (!can_interact || (first_for_sale(old(properties)@, in_reach@) is None)) ==> (o
            == PropertyPurchaseOutcome::NothingInReach && *final(wallet) == *old(wallet) && final(properties)@
            == old(properties)@),
        can_interact && first_for_sale(old(properties)@, in_reach@) is Some ==> {
            let i = first_for_sale(old(properties)@, in_reach@)->0;
            let p = old(properties)@[i];
            &&& 0 <= i < old(properties)@.len()
            &&& can_spend(*old(wallet), p.purchase_price) ==> *final(wallet) == spend_post(*old(wallet), p.purchase_price)
                && final(properties)@ == old(properties)@.update(i, PropertyOwnership { owned: true, ..p })
                && o == PropertyPurchaseOutcome::Bought(
                i as usize,
                MoneyChangedEvent {
                    amount: (-p.purchase_price) as i32,
                    reason: MoneyChangeReason::PropertyPurchase,
                    new_balance: final(wallet).cash,
                },
            )
            &&& !can_spend(*old(wallet), p.purchase_price) ==> o == PropertyPurchaseOutcome::NotEnoughMoney(i as usize)
                && *final(wallet) == *old(wallet) && final(properties)@ == old(properties)@
        },
{
    if !can_interact {
        return PropertyPurchaseOutcome::NothingInReach;
    }
    let mut i: usize = 0;
    while i < properties.len()
        invariant
            0 <= i <= properties@.len(),
            properties@ == old(properties)@,
            in_reach@.len() == properties@.len(),
            first_for_sale(properties@.take(i as int), in_reach@) is None,
            *wallet == *old(wallet),
            can_interact,
        decreases properties@.len() - i,
    {
        proof {
            lemma_first_for_sale_take(properties@, in_reach@, i as int);
        }
        let p = properties[i];
        if !p.owned && in_reach[i] {
            proof {
                lemma_first_for_sale_prefix(properties@, in_reach@, i as int);
            }

            if wallet.spend_cash(p.purchase_price) {
                let mut q = p;
                q.purchase();
                properties.set(i, q);
                return PropertyPurchaseOutcome::Bought(
                    i,
                    MoneyChangedEvent {
                        amount: -p.purchase_price,
                        reason: MoneyChangeReason::PropertyPurchase,
                        new_balance: wallet.cash,
                    },
                );
            } else {
                return PropertyPurchaseOutcome::NotEnoughMoney(i);
            }
        }
        i = i + 1;
    }
    proof {
        assert(properties@.take(i as int) =~= properties@);
    }
    PropertyPurchaseOutcome::NothingInReach
}

/// Extending a prefix with no match by one element.
proof fn lemma_first_for_sale_take(props: Seq<PropertyOwnership>, in_reach: Seq<bool>, i: int)
    requires
        0 <= i < props.len(),
        first_for_sale(props.take(i), in_reach) is None,
    ensures
        first_for_sale(props.take(i + 1), in_reach) == if !props[i].owned && in_reach[i] {
            Some(i)
        } else {
            None
        },
{
    assert(props.take(i + 1).drop_last() =~= props.take(i));
}

/// A match found in a prefix is the match of the whole.
proof fn lemma_first_for_sale_prefix(props: Seq<PropertyOwnership>, in_reach: Seq<bool>, i: int)
    requires
        0 <= i < props.len(),
        first_for_sale(props.take(i + 1), in_reach) == Some(i),
    ensures
        first_for_sale(props, in_reach) == Some(i),
    decreases props.len(),
{
    if props.len() == i + 1 {
        assert(props.take(i + 1) =~= props);
    } else {
        assert(props.drop_last().take(i + 1) =~= props.take(i + 1));
        lemma_first_for_sale_prefix(props.drop_last(), in_reach, i);
    }
}

/// Total rent the buildings pay on `day`.
pub open spec fn rent_sum(props: Seq<PropertyOwnership>, day: i32) -> int
    decreases props.len(),
{
    if props.len() == 0 {
        0
    } else {
        rent_sum(props.drop_last(), day) + rent_due(props.last(), day)
    }
}

/// Number of buildings that pay a positive rent on `day`.
pub open spec fn paying_count(props: Seq<PropertyOwnership>, day: i32) -> int
    decreases props.len(),
{
    if props.len() == 0 {
        0
    } else {
        paying_count(props.drop_last(), day) + if rent_due(props.last(), day) > 0 { 1int } else { 0int }
    }
}

/// Summary of a rent payment.
#[derive(Clone, Copy, Debug, PartialEq, Eq, Structural)]
pub struct RentReport {
    /// Total paid.
    pub total: i32,
    /// Buildings that paid.
    pub count: u32,
    /// The money event, when anything was paid.
    pub event: Option<MoneyChangedEvent>,
}

/// Rent collection in the morning window: every owned building pays its rent
/// once (the game counts every day as day 0); a positive total goes to the wallet.
pub fn rental_income_system(
    in_rent_window: bool,
    wallet: &mut PlayerWallet,
    properties: &mut Vec<PropertyOwnership>,
) -> (r: Option<RentReport>)
    requires
        forall|i: int| 0 <= i <= old(properties)@.len() ==> i32::MIN <= #[trigger] rent_sum(old(properties)@.take(i), 0) <= i32::MAX,
        old(properties)@.len() <= u32::MAX,
    ensures
        !in_rent_window ==> r is None && *final(wallet) == *old(wallet) && final(properties)@ == old(properties)@,
        in_rent_window ==> {
            let total = rent_sum(old(properties)@, 0);
            &&& final(properties)@.len() == old(properties)@.len()
            &&& forall|i: int| 0 <= i < old(properties)@.len() ==> #[trigger] final(properties)@[i] == rent_post(old(properties)@[i], 0)
            &&& r == Some(RentReport {
                total: total as i32,
                count: paying_count(old(properties)@, 0) as u32,
                event: if total > 0 {
                    Some(MoneyChangedEvent { amount: total as i32, reason: MoneyChangeReason::RentalIncome, new_balance: final(wallet).cash })
                } else {
                    None
                },
            })
            &&& total > 0 ==> *final(wallet) == add_cash_post(*old(wallet), total as i32)
            &&& total <= 0 ==> *final(wallet) == *old(wallet)
        },
{
    if !in_rent_window {
        return None;
    }
    let game_day: i32 = 0;
    let mut total_income: i32 = 0;
    let mut property_count: u32 = 0;
    let ghost ps0 = properties@;
    let mut i: usize = 0;
    while i < properties.len()
        invariant
            0 <= i <= properties@.len(),
            properties@.len() == ps0.len(),
            ps0.len() <= u32::MAX,
            forall|j: int| 0 <= j < i ==> #[trigger] properties@[j] == rent_post(ps0[j], 0),
            forall|j: int| i <= j < ps0.len() ==> #[trigger] properties@[j] == ps0[j],
            forall|j: int| 0 <= j <= ps0.len() ==> i32::MIN <= #[trigger] rent_sum(ps0.take(j), 0) <= i32::MAX,
            total_income == rent_sum(ps0.take(i as int), 0),
            property_count == paying_count(ps0.take(i as int), 0),
            property_count <= i,
            game_day == 0,
        decreases properties@.len() - i,
    {
        assert(ps0.take(i + 1).drop_last() =~= ps0.take(i as int));
        assert(ps0.take(i + 1).last() == ps0[i as int]);
        assert(i32::MIN <= rent_sum(ps0.take(i + 1), 0) <= i32::MAX);
        let mut p = properties[i];
        let income = p.collect_income(game_day);
        properties.set(i, p);
        if income > 0 {
            total_income = total_income + income;
            property_count = property_count + 1;
        } else {
            total_income = total_income + income;
        }
        i = i + 1;
    }
    assert(ps0.take(i as int) =~= ps0);
    if total_income > 0 {
        wallet.add_cash(total_income);
        Some(RentReport {
            total: total_income,
            count: property_count,
            event: Some(MoneyChangedEvent { amount: total_income, reason: MoneyChangeReason::RentalIncome, new_balance: wallet.cash }),
        })
    } else {
        Some(RentReport { total: total_income, count: property_count, event: None })
    }
}

/// Outcome of a robbery attempt.
#[derive(Clone, Copy, Debug, PartialEq, Eq, Structural)]
pub enum RobberyOutcome {
    /// Not aiming, no interaction, no weapon, or no shop in reach.
    NoRobbery,
    /// The shop at this index was robbed too recently.
    TooSoon(usize),
    /// The shop at this index was robbed.
    Robbed(usize, MoneyChangedEvent),
}

/// The first shop in reach, if any.
pub open spec fn first_in_reach(in_reach: Seq<bool>) -> Option<int>
    decreases in_reach.len(),
{
    if in_reach.len() == 0 {
        None
    } else {
        match first_in_reach(in_reach.drop_last()) {
            Some(i) => Some(i),
            None => if in_reach.last() { Some(in_reach.len() - 1) } else { None },
        }
    }
}

proof fn lemma_first_in_reach_take(in_reach: Seq<bool>, i: int)
    requires
        0 <= i < in_reach.len(),
        first_in_reach(in_reach.take(i)) is None,
    ensures
        first_in_reach(in_reach.take(i + 1)) == if in_reach[i] { Some(i) } else { None },
{
    assert(in_reach.take(i + 1).drop_last() =~= in_reach.take(i));
}

proof fn lemma_first_in_reach_prefix(in_reach: Seq<bool>, i: int)
    requires
        0 <= i < in_reach.len(),
        first_in_reach(in_reach.take(i + 1)) == Some(i),
    ensures
        first_in_reach(in_reach) == Some(i),
    decreases in_reach.len(),
{
    if in_reach.len() == i + 1 {
        assert(in_reach.take(i + 1) =~= in_reach);
    } else {
        assert(in_reach.drop_last().take(i + 1) =~= in_reach.take(i + 1));
        lemma_first_in_reach_prefix(in_reach.drop_last(), i);
    }
}

/// A robbery: while aiming an equipped weapon, pressing the interaction key
/// near a shop robs the first shop in reach, unless it is still cooling down;
/// the haul is between the minimum and the bound, and goes to the wallet.
pub fn store_robbery_system(
    is_aiming: bool,
    can_interact: bool,
    has_weapon: bool,
    wallet: &mut PlayerWallet,
    shops: &mut Vec<RobberyState>,
    in_reach: &[bool],
) -> (o: RobberyOutcome)
    requires
        in_reach@.len() == old(shops)@.len(),
    ensures
        (!(is_aiming && can_interact && has_weapon) || (first_in_reach(in_reach@) is None)) ==> (o
            == RobberyOutcome::NoRobbery && *final(wallet) == *old(wallet) && final(shops)@ == old(shops)@),
        is_aiming && can_interact && has_weapon && first_in_reach(in_reach@) is Some ==> {
            let i = first_in_reach(in_reach@)->0;
            &&& 0 <= i < old(shops)@.len()
            &&& old(shops)@[i].cooldown != 0 ==> o == RobberyOutcome::TooSoon(i as usize)
                && *final(wallet) == *old(wallet) && final(shops)@ == old(shops)@
            &&& old(shops)@[i].cooldown == 0 ==> final(shops)@ == old(shops)@.update(i, RobberyState { cooldown: ROBBERY_COOLDOWN })
                && exists|amount: i32| ROBBERY_MIN_AMOUNT <= amount < ROBBERY_MAX_AMOUNT
                    && *final(wallet) == #[trigger] add_cash_post(*old(wallet), amount)
                    && o == RobberyOutcome::Robbed(i as usize, MoneyChangedEvent {
                        amount,
                        reason: MoneyChangeReason::Robbery,
                        new_balance: final(wallet).cash,
                    })
        },
{
    if !is_aiming || !can_interact || !has_weapon {
        return RobberyOutcome::NoRobbery;
    }
    let mut i: usize = 0;
    while i < shops.len()
        invariant
            0 <= i <= shops@.len(),
            shops@ == old(shops)@,
            in_reach@.len() == shops@.len(),
            first_in_reach(in_reach@.take(i as int)) is None,
            *wallet == *old(wallet),
            is_aiming && can_interact && has_weapon,
        decreases shops@.len() - i,
    {
        proof {
            lemma_first_in_reach_take(in_reach@, i as int);
        }
        if in_reach[i] {
            proof {
                lemma_first_in_reach_prefix(in_reach@, i as int);
            }
            let mut robbery = shops[i];
            if !robbery.can_rob() {
                return RobberyOutcome::TooSoon(i);
            }
            robbery.rob();
            shops.set(i, robbery);
            let span = (ROBBERY_MAX_AMOUNT - ROBBERY_MIN_AMOUNT) as u64;
            let amount = ROBBERY_MIN_AMOUNT + random_in(0, span - 1) as i32;
            wallet.add_cash(amount);
            return RobberyOutcome::Robbed(
                i,
                MoneyChangedEvent { amount, reason: MoneyChangeReason::Robbery, new_balance: wallet.cash },
            );
        }
        i = i + 1;
    }
    proof {
        assert(in_reach@.take(i as int) =~= in_reach@);
    }
    RobberyOutcome::NoRobbery
}

} // verus!
