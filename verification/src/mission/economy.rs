//! The player's respect (street reputation).
use vstd::prelude::*;

verus! {

/// Respect points; never below zero.
#[derive(Clone, Copy, Debug, PartialEq, Eq, Structural)]
pub struct RespectManager {
    pub respect: i32,
}

/// Respect after adding `amount` (which may be negative): never below zero.
pub open spec fn respect_after(respect: int, amount: int) -> int {
    if respect + amount < 0 { 0 } else { respect + amount }
}

impl Default for RespectManager {
    fn default() -> (r: RespectManager)
        ensures
            r.respect == 0,
    {
        RespectManager::new()
    }
}

impl RespectManager {
    /// No respect yet.
    pub fn new() -> (r: RespectManager)
        ensures
            r.respect == 0,
    {
        RespectManager { respect: 0 }
    }

    /// Adds respect (or takes it away); it never drops below zero.
    pub fn add_respect(&mut self, amount: i32)
        requires
            old(self).respect + amount <= i32::MAX,
            old(self).respect + amount >= i32::MIN,
        ensures
            final(self).respect == respect_after(old(self).respect as int, amount as int),
    {
        let r = self.respect + amount;
        self.respect = if r < 0 { 0 } else { r };
    }

    /// Current respect.
    pub fn get_respect(&self) -> (r: i32)
        ensures
            r == self.respect,
    {
        self.respect
    }
}

/// Respect never goes negative, whatever is added.
pub proof fn respect_never_negative(respect: int, amount: int)
    ensures
        respect_after(respect, amount) >= 0,
        amount >= 0 && respect >= 0 ==> respect_after(respect, amount) == respect + amount,
{
}

} // verus!
