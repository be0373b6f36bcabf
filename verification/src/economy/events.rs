//! Money events and the transactions that other systems request.
use vstd::prelude::*;
use crate::economy::wallet::{PlayerWallet, can_spend, spend_post, can_deposit, deposit_post, can_withdraw, withdraw_post};

verus! {

/// Why money changed hands.
#[derive(Clone, Copy, Debug, PartialEq, Eq, Structural)]
pub enum MoneyChangeReason {
    MissionReward,
    Pickup,
    Purchase,
    AtmWithdraw,
    AtmDeposit,
    Fine,
    PropertyPurchase,
    RentalIncome,
    Robbery,
    Other,
}

/// A change of the player's cash.
#[derive(Clone, Copy, Debug, PartialEq, Eq, Structural)]
pub struct MoneyChangedEvent {
    /// Amount: positive gained, negative spent.
    pub amount: i32,
    pub reason: MoneyChangeReason,
    /// Cash after the change.
    pub new_balance: i32,
}

/// A purchase request.
#[derive(Clone, Debug)]
pub struct PurchaseEvent {
    pub item_id: String,
    /// The shop's entity id.
    pub shop_entity: u64,
    pub quantity: i32,
}

/// Kind of transaction.
#[derive(Clone, Copy, Debug, PartialEq, Eq, Structural)]
pub enum TransactionType {
    BankDeposit,
    BankWithdraw,
    BuyItem,
    PayFine,
}

/// A transaction requested by some system.
#[derive(Clone, Copy, Debug, PartialEq, Eq, Structural)]
pub struct TransactionEvent {
    pub transaction_type: TransactionType,
    pub amount: i32,
}

/// Whether the wallet can carry out the transaction.
pub open spec fn transaction_ok(w: PlayerWallet, t: TransactionEvent) -> bool {
    match t.transaction_type {
        TransactionType::BankDeposit => can_deposit(w, t.amount),
        TransactionType::BankWithdraw => can_withdraw(w, t.amount),
        TransactionType::BuyItem | TransactionType::PayFine => can_spend(w, t.amount),
    }
}

/// The wallet after the transaction (unchanged when it cannot be carried out).
pub open spec fn transaction_post(w: PlayerWallet, t: TransactionEvent) -> PlayerWallet {
    if !transaction_ok(w, t) {
        w
    } else {
        match t.transaction_type {
            TransactionType::BankDeposit => deposit_post(w, t.amount),
            TransactionType::BankWithdraw => withdraw_post(w, t.amount),
            TransactionType::BuyItem | TransactionType::PayFine => spend_post(w, t.amount),
        }
    }
}

/// The money event a carried-out transaction reports.
pub open spec fn transaction_event(w: PlayerWallet, t: TransactionEvent) -> MoneyChangedEvent {
    let after = transaction_post(w, t);
    match t.transaction_type {
        TransactionType::BankDeposit => MoneyChangedEvent {
            amount: (-t.amount) as i32,
            reason: MoneyChangeReason::AtmDeposit,
            new_balance: after.cash,
        },
        TransactionType::BankWithdraw => MoneyChangedEvent {
            amount: t.amount,
            reason: MoneyChangeReason::AtmWithdraw,
            new_balance: after.cash,
        },
        TransactionType::BuyItem => MoneyChangedEvent {
            amount: (-t.amount) as i32,
            reason: MoneyChangeReason::Purchase,
            new_balance: after.cash,
        },
        TransactionType::PayFine => MoneyChangedEvent {
            amount: (-t.amount) as i32,
            reason: MoneyChangeReason::Fine,
            new_balance: after.cash,
        },
    }
}

/// Carries out one transaction; returns the money event when it went through.
pub fn process_transaction(event: &TransactionEvent, wallet: &mut PlayerWallet) -> (r: Option<MoneyChangedEvent>)
    ensures
        *final(wallet) == transaction_post(*old(wallet), *event),
        r is Some <==> transaction_ok(*old(wallet), *event),
        r is Some ==> r->0 == transaction_event(*old(wallet), *event),
{
    match event.transaction_type {
        TransactionType::BankDeposit => {
            if wallet.deposit(event.amount) {
                Some(MoneyChangedEvent { amount: -event.amount, reason: MoneyChangeReason::AtmDeposit, new_balance: wallet.cash })
            } else {
                None
            }
        },
        TransactionType::BankWithdraw => {
            if wallet.withdraw(event.amount) {
                Some(MoneyChangedEvent { amount: event.amount, reason: MoneyChangeReason::AtmWithdraw, new_balance: wallet.cash })
            } else {
                None
            }
        },
        TransactionType::BuyItem => {
            if wallet.spend_cash(event.amount) {
                Some(MoneyChangedEvent { amount: -event.amount, reason: MoneyChangeReason::Purchase, new_balance: wallet.cash })
            } else {
                None
            }
        },
        TransactionType::PayFine => {
            if wallet.spend_cash(event.amount) {
                Some(MoneyChangedEvent { amount: -event.amount, reason: MoneyChangeReason::Fine, new_balance: wallet.cash })
            } else {
                None
            }
        },
    }
}

/// The wallet after the transactions, in order.
pub open spec fn transactions_post(w: PlayerWallet, ts: Seq<TransactionEvent>) -> PlayerWallet
    decreases ts.len(),
{
    if ts.len() == 0 {
        w
    } else {
        transaction_post(transactions_post(w, ts.drop_last()), ts.last())
    }
}

/// The money events of the transactions, in order.
pub open spec fn transactions_events(w: PlayerWallet, ts: Seq<TransactionEvent>) -> Seq<MoneyChangedEvent>
    decreases ts.len(),
{
    if ts.len() == 0 {
        seq![]
    } else {
        let before = transactions_post(w, ts.drop_last());
        let evs = transactions_events(w, ts.drop_last());
        if transaction_ok(before, ts.last()) {
            evs.push(transaction_event(before, ts.last()))
        } else {
            evs
        }
    }
}

/// Carries out the queued transactions in order; returns the money events of
/// those that went through.
pub fn process_transactions(events: &[TransactionEvent], wallet: &mut PlayerWallet) -> (out: Vec<MoneyChangedEvent>)
    ensures
        *final(wallet) == transactions_post(*old(wallet), events@),
        out@ == transactions_events(*old(wallet), events@),
{
    let mut out: Vec<MoneyChangedEvent> = Vec::new();
    let mut i: usize = 0;
    while i < events.len()
        invariant
            0 <= i <= events.len(),
            *wallet == transactions_post(*old(wallet), events@.take(i as int)),
            out@ == transactions_events(*old(wallet), events@.take(i as int)),
        decreases events.len() - i,
    {
        assert(events@.take(i + 1).drop_last() =~= events@.take(i as int));
        if let Some(ev) = process_transaction(&events[i], wallet) {
            out.push(ev);
        }
        i = i + 1;
    }
    assert(events@.take(i as int) =~= events@);
    out
}

/// A refused transaction changes nothing; an accepted one reports the cash
/// left, and deposits and withdrawals report the amount with opposite signs.
pub proof fn transaction_reports(w: PlayerWallet, t: TransactionEvent)
    ensures
        !transaction_ok(w, t) ==> transaction_post(w, t) == w,
        transaction_ok(w, t) ==> transaction_event(w, t).new_balance == transaction_post(w, t).cash,
        transaction_ok(w, t) && t.transaction_type == TransactionType::BankWithdraw ==> transaction_event(w, t).amount > 0,
        transaction_ok(w, t) && t.transaction_type != TransactionType::BankWithdraw ==> transaction_event(w, t).amount <= 0,
{
}

} // verus!
