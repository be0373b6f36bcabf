//! The player's wallet: cash on hand, bank balance and lifetime statistics.
use vstd::prelude::*;
use crate::text::{format_money, money_text};

verus! {

/// `x` clamped into the range of `i32`: what a saturating `i32` operation yields.
pub open spec fn clamp_i32(x: int) -> int {
    if x > i32::MAX as int {
        i32::MAX as int
    } else if x < i32::MIN as int {
        i32::MIN as int
    } else {
        x
    }
}

/// Saturating addition on `i32`.
pub fn sat_add_i32(a: i32, b: i32) -> (r: i32)
    ensures
        r == clamp_i32(a + b),
{
    let s: i64 = a as i64 + b as i64;
    if s > i32::MAX as i64 {
        i32::MAX
    } else if s < i32::MIN as i64 {
        i32::MIN
    } else {
        s as i32
    }
}

/// Saturating subtraction on `i32`.
pub fn sat_sub_i32(a: i32, b: i32) -> (r: i32)
    ensures
        r == clamp_i32(a - b),
{
    let s: i64 = a as i64 - b as i64;
    if s > i32::MAX as i64 {
        i32::MAX
    } else if s < i32::MIN as i64 {
        i32::MIN
    } else {
        s as i32
    }
}

/// The single source of the player's money.
#[derive(Clone, Copy, Debug, PartialEq, Eq, Structural)]
pub struct PlayerWallet {
    /// Cash on hand.
    pub cash: i32,
    /// Bank balance.
    pub bank: i32,
    /// Everything ever earned (statistics).
    pub total_earned: i32,
    /// Everything ever spent (statistics).
    pub total_spent: i32,
}

/// The wallet after `add_cash(amount)`.
pub open spec fn add_cash_post(w: PlayerWallet, amount: i32) -> PlayerWallet {
    PlayerWallet {
        cash: clamp_i32(w.cash + amount) as i32,
        total_earned: if amount > 0 {
            clamp_i32(w.total_earned + amount) as i32
        } else {
            w.total_earned
        },
        ..w
    }
}

/// Whether `spend_cash(amount)` succeeds.
pub open spec fn can_spend(w: PlayerWallet, amount: i32) -> bool {
    amount >= 0 && w.cash >= amount
}

/// The wallet after a successful `spend_cash(amount)`.
pub open spec fn spend_post(w: PlayerWallet, amount: i32) -> PlayerWallet {
    PlayerWallet {
        cash: (w.cash - amount) as i32,
        total_spent: clamp_i32(w.total_spent + amount) as i32,
        ..w
    }
}

/// What `spend_up_to(amount)` pays: the amount, capped by the cash, never below zero.
pub open spec fn spend_up_to_amount(w: PlayerWallet, amount: i32) -> int {
    let capped = if amount < w.cash { amount as int } else { w.cash as int };
    if capped < 0 { 0 } else { capped }
}

/// Whether `deposit(amount)` succeeds.
pub open spec fn can_deposit(w: PlayerWallet, amount: i32) -> bool {
    w.cash >= amount && amount > 0
}

/// The wallet after a successful `deposit(amount)`.
pub open spec fn deposit_post(w: PlayerWallet, amount: i32) -> PlayerWallet {
    PlayerWallet {
        cash: (w.cash - amount) as i32,
        bank: clamp_i32(w.bank + amount) as i32,
        ..w
    }
}

/// Whether `withdraw(amount)` succeeds.
pub open spec fn can_withdraw(w: PlayerWallet, amount: i32) -> bool {
    w.bank >= amount && amount > 0
}

/// The wallet after a successful `withdraw(amount)`.
pub open spec fn withdraw_post(w: PlayerWallet, amount: i32) -> PlayerWallet {
    PlayerWallet {
        bank: (w.bank - amount) as i32,
        cash: clamp_i32(w.cash + amount) as i32,
        ..w
    }
}

impl Default for PlayerWallet {
    fn default() -> (w: Self)
        ensures
            w.cash == 5000,
            w.bank == 10000,
            w.total_earned == 0,
            w.total_spent == 0,
    {
        PlayerWallet { cash: 5000, bank: 10000, total_earned: 0, total_spent: 0 }
    }
}

impl PlayerWallet {
    /// Total assets: cash plus bank, saturating.
    pub fn total(&self) -> (t: i32)
        ensures
            t == clamp_i32(self.cash + self.bank),
    {
        sat_add_i32(self.cash, self.bank)
    }

    /// Adds (or, with a negative amount, removes) cash; only gains count as earnings.
    /// Returns the new cash balance.
    pub fn add_cash(&mut self, amount: i32) -> (r: i32)
        ensures
            *final(self) == add_cash_post(*old(self), amount),
            r == final(self).cash,
    {
        self.cash = sat_add_i32(self.cash, amount);
        if amount > 0 {
            self.total_earned = sat_add_i32(self.total_earned, amount);
        }
        self.cash
    }

    /// Spends cash if the amount is non-negative and covered; otherwise changes nothing.
    pub fn spend_cash(&mut self, amount: i32) -> (ok: bool)
        ensures
            ok == can_spend(*old(self), amount),
            ok ==> *final(self) == spend_post(*old(self), amount),
            !ok ==> *final(self) == *old(self),
    {
        if amount >= 0 && self.cash >= amount {
            self.cash = sat_sub_i32(self.cash, amount);
            self.total_spent = sat_add_i32(self.total_spent, amount);
            true
        } else {
            false
        }
    }

    /// Pays as much of `amount` as the cash covers (fines); returns what was paid.
    pub fn spend_up_to(&mut self, amount: i32) -> (paid: i32)
        ensures
            paid == spend_up_to_amount(*old(self), amount),
            paid > 0 ==> *final(self) == spend_post(*old(self), paid),
            paid == 0 ==> *final(self) == *old(self),
    {
        let capped = if amount < self.cash { amount } else { self.cash };
        let actual = if capped < 0 { 0 } else { capped };
        if actual > 0 {
            self.cash = sat_sub_i32(self.cash, actual);
            self.total_spent = sat_add_i32(self.total_spent, actual);
        }
        actual
    }

    /// Moves cash into the bank if the amount is positive and covered.
    pub fn deposit(&mut self, amount: i32) -> (ok: bool)
        ensures
            ok == can_deposit(*old(self), amount),
            ok ==> *final(self) == deposit_post(*old(self), amount),
            !ok ==> *final(self) == *old(self),
    {
        if self.cash >= amount && amount > 0 {
            self.cash = sat_sub_i32(self.cash, amount);
            self.bank = sat_add_i32(self.bank, amount);
            true
        } else {
            false
        }
    }

    /// Moves money from the bank into cash if the amount is positive and covered.
    pub fn withdraw(&mut self, amount: i32) -> (ok: bool)
        ensures
            ok == can_withdraw(*old(self), amount),
            ok ==> *final(self) == withdraw_post(*old(self), amount),
            !ok ==> *final(self) == *old(self),
    {
        if self.bank >= amount && amount > 0 {
            self.bank = sat_sub_i32(self.bank, amount);
            self.cash = sat_add_i32(self.cash, amount);
            true
        } else {
            false
        }
    }
}

/// A successful deposit followed by a withdrawal of the same amount gives back
/// the starting wallet, as long as the bank balance was not negative and did
/// not saturate.
pub proof fn deposit_then_withdraw_restores(w: PlayerWallet, amount: i32)
    requires
        can_deposit(w, amount),
        w.bank >= 0,
        w.bank + amount <= i32::MAX,
    ensures
        can_withdraw(deposit_post(w, amount), amount),
        withdraw_post(deposit_post(w, amount), amount) == w,
{
}

/// A successful withdrawal followed by a deposit of the same amount gives back
/// the starting wallet, as long as the cash was not negative and did not saturate.
pub proof fn withdraw_then_deposit_restores(w: PlayerWallet, amount: i32)
    requires
        can_withdraw(w, amount),
        w.cash >= 0,
        w.cash + amount <= i32::MAX,
    ensures
        can_deposit(withdraw_post(w, amount), amount),
        deposit_post(withdraw_post(w, amount), amount) == w,
{
}

/// Moving money between cash and bank never creates or destroys money
/// (short of saturation), and never touches the statistics.
pub proof fn transfers_conserve_assets(w: PlayerWallet, amount: i32)
    ensures
        can_deposit(w, amount) && w.bank + amount <= i32::MAX ==> {
            let d = deposit_post(w, amount);
            &&& d.cash + d.bank == w.cash + w.bank
            &&& d.total_earned == w.total_earned
            &&& d.total_spent == w.total_spent
        },
        can_withdraw(w, amount) && w.cash + amount <= i32::MAX ==> {
            let x = withdraw_post(w, amount);
            &&& x.cash + x.bank == w.cash + w.bank
            &&& x.total_earned == w.total_earned
            &&& x.total_spent == w.total_spent
        },
{
}

/// Spending never drives the cash below zero, and never pays more than was
/// asked or more than was on hand.
pub proof fn spending_keeps_cash_non_negative(w: PlayerWallet, amount: i32)
    ensures
        can_spend(w, amount) ==> spend_post(w, amount).cash >= 0,
        can_deposit(w, amount) ==> deposit_post(w, amount).cash >= 0,
        0 <= spend_up_to_amount(w, amount),
        spend_up_to_amount(w, amount) <= if w.cash < 0 { 0 } else { w.cash as int },
        amount >= 0 ==> spend_up_to_amount(w, amount) <= amount,
        0 <= amount <= w.cash ==> spend_up_to_amount(w, amount) == amount,
        spend_up_to_amount(w, amount) > 0 ==> spend_post(w, spend_up_to_amount(w, amount) as i32).cash >= 0,
{
}

/// Receiving an amount and then spending it leaves non-negative cash where it
/// was (short of saturation), while both statistics grow by that amount.
pub proof fn add_then_spend_restores_cash(w: PlayerWallet, amount: i32)
    requires
        amount > 0,
        w.cash >= 0,
        w.cash + amount <= i32::MAX,
        w.total_earned + amount <= i32::MAX,
        w.total_spent + amount <= i32::MAX,
    ensures
        can_spend(add_cash_post(w, amount), amount),
        spend_post(add_cash_post(w, amount), amount).cash == w.cash,
        spend_post(add_cash_post(w, amount), amount).bank == w.bank,
        spend_post(add_cash_post(w, amount), amount).total_earned == w.total_earned + amount,
        spend_post(add_cash_post(w, amount), amount).total_spent == w.total_spent + amount,
{
}

/// The money counter's text: "$ " and the amount as shown.
pub fn update_money_ui(cash: i32) -> (r: String)
    ensures
        r@ == seq!['$', ' '] + money_text(cash as int),
{
    let mut s = "$ ".to_owned();
    proof {
        reveal_strlit("$ ");
    }
    let m = format_money(cash);
    s.append(m.as_str());
    assert(s@ =~= seq!['$', ' '] + money_text(cash as int));
    s
}

} // verus!
