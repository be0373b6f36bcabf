//! ATMs and the ATM menu.
use vstd::prelude::*;
use crate::economy::wallet::{PlayerWallet, can_deposit, deposit_post, can_withdraw, withdraw_post};
use crate::economy::events::{MoneyChangedEvent, MoneyChangeReason};
use crate::economy::input::PressedKeys;
use crate::economy::pickup::{Interactable, InteractionType};
use crate::mission::advanced_missions::{square_u32, squared_distance};
use crate::mission::data::{distance_squared, position_in_range};
use crate::mission::story_data::types::Position;

verus! {

/// An ATM.
pub struct Atm {
    /// Name or place.
    pub name: String,
    /// Whether it works.
    pub is_functional: bool,
    /// Largest single withdrawal.
    pub max_withdrawal: i32,
}

impl Default for Atm {
    fn default() -> (a: Atm)
        ensures
            a.name@ == "ATM"@,
            a.is_functional,
            a.max_withdrawal == 10000,
    {
        Atm { name: "ATM".to_owned(), is_functional: true, max_withdrawal: 10000 }
    }
}

/// Screen of the ATM menu.
#[derive(Clone, Copy, Debug, PartialEq, Eq, Structural)]
pub enum AtmMode {
    Main,
    Deposit,
    Withdraw,
    Balance,
}

/// ATM menu state.
#[derive(Clone, Copy, Debug, PartialEq, Eq, Structural)]
pub struct AtmMenuState {
    pub is_open: bool,
    /// Entity id of the ATM in use.
    pub current_atm: Option<u64>,
    /// Amount typed in.
    pub input_amount: i32,
    pub mode: AtmMode,
}

impl Default for AtmMenuState {
    fn default() -> (m: AtmMenuState)
        ensures
            m == (AtmMenuState { is_open: false, current_atm: None, input_amount: 0, mode: AtmMode::Main }),
    {
        AtmMenuState { is_open: false, current_atm: None, input_amount: 0, mode: AtmMode::Main }
    }
}

/// The amount after the quick-amount keys (1-5 pick 100, 500, 1000, 5000,
/// 10000; Backspace clears).
pub open spec fn amount_after_keys(k: PressedKeys, amount: i32) -> i32 {
    let picked = if k.digit1 {
        100i32
    } else if k.digit2 {
        500i32
    } else if k.digit3 {
        1000i32
    } else if k.digit4 {
        5000i32
    } else if k.digit5 {
        10000i32
    } else {
        amount
    };
    if k.backspace { 0 } else { picked }
}

/// Quick-amount keys.
pub fn handle_amount_input(keys: &PressedKeys, amount: &mut i32)
    ensures
        *final(amount) == amount_after_keys(*keys, *old(amount)),
{
    if keys.digit1 {
        *amount = 100;
    } else if keys.digit2 {
        *amount = 500;
    } else if keys.digit3 {
        *amount = 1000;
    } else if keys.digit4 {
        *amount = 5000;
    } else if keys.digit5 {
        *amount = 10000;
    }
    if keys.backspace {
        *amount = 0;
    }
}

/// Escape: leaves a sub-screen for the main screen, or closes the menu from
/// the main screen. Returns whether Escape was pressed.
pub fn handle_atm_escape(keys: &PressedKeys, menu: &mut AtmMenuState) -> (handled: bool)
    ensures
        handled == keys.escape,
        !keys.escape ==> *final(menu) == *old(menu),
        keys.escape && old(menu).mode == AtmMode::Main ==> *final(menu) == (AtmMenuState {
            is_open: false,
            current_atm: None,
            ..*old(menu)
        }),
        keys.escape && old(menu).mode != AtmMode::Main ==> *final(menu) == (AtmMenuState {
            mode: AtmMode::Main,
            input_amount: 0,
            ..*old(menu)
        }),
{
    if !keys.escape {
        return false;
    }
    match menu.mode {
        AtmMode::Main => {
            menu.is_open = false;
            menu.current_atm = None;
        },
        _ => {
            menu.mode = AtmMode::Main;
            menu.input_amount = 0;
        },
    }
    true
}

/// The screen the main menu switches to: 1 withdraw, 2 deposit, 3 balance.
pub open spec fn main_menu_choice(k: PressedKeys, mode: AtmMode) -> AtmMode {
    if k.digit1 {
        AtmMode::Withdraw
    } else if k.digit2 {
        AtmMode::Deposit
    } else if k.digit3 {
        AtmMode::Balance
    } else {
        mode
    }
}

/// Main screen keys.
pub fn handle_atm_main_menu(keys: &PressedKeys, menu: &mut AtmMenuState)
    ensures
        *final(menu) == (AtmMenuState { mode: main_menu_choice(*keys, old(menu).mode), ..*old(menu) }),
{
    if keys.digit1 {
        menu.mode = AtmMode::Withdraw;
    } else if keys.digit2 {
        menu.mode = AtmMode::Deposit;
    } else if keys.digit3 {
        menu.mode = AtmMode::Balance;
    }
}

/// Withdraw screen: amount keys, then Enter withdraws; success returns to the
/// main screen.
pub fn handle_atm_withdraw(keys: &PressedKeys, wallet: &mut PlayerWallet, menu: &mut AtmMenuState) -> (ev: Option<
    MoneyChangedEvent,
>)
    ensures
        ({
            let amount = amount_after_keys(*keys, old(menu).input_amount);
            let ok = keys.enter && can_withdraw(*old(wallet), amount);
            &&& ok ==> *final(wallet) == withdraw_post(*old(wallet), amount) && ev == Some(
                MoneyChangedEvent {
                    amount,
                    reason: MoneyChangeReason::AtmWithdraw,
                    new_balance: final(wallet).cash,
                },
            ) && *final(menu) == (AtmMenuState { mode: AtmMode::Main, input_amount: 0, ..*old(menu) })
            &&& !ok ==> *final(wallet) == *old(wallet) && ev is None && *final(menu) == (AtmMenuState {
                input_amount: amount,
                ..*old(menu)
            })
        }),
{
    handle_amount_input(keys, &mut menu.input_amount);
    if !keys.enter {
        return None;
    }
    let amount = menu.input_amount;
    if amount > 0 && wallet.withdraw(amount) {
        menu.mode = AtmMode::Main;
        menu.input_amount = 0;
        Some(MoneyChangedEvent { amount, reason: MoneyChangeReason::AtmWithdraw, new_balance: wallet.cash })
    } else {
        None
    }
}

/// Deposit screen: amount keys, then Enter deposits; success returns to the
/// main screen.
pub fn handle_atm_deposit(keys: &PressedKeys, wallet: &mut PlayerWallet, menu: &mut AtmMenuState) -> (ev: Option<
    MoneyChangedEvent,
>)
    ensures
        ({
            let amount = amount_after_keys(*keys, old(menu).input_amount);
            let ok = keys.enter && can_deposit(*old(wallet), amount);
            &&& ok ==> *final(wallet) == deposit_post(*old(wallet), amount) && ev == Some(
                MoneyChangedEvent {
                    amount: (-amount) as i32,
                    reason: MoneyChangeReason::AtmDeposit,
                    new_balance: final(wallet).cash,
                },
            ) && *final(menu) == (AtmMenuState { mode: AtmMode::Main, input_amount: 0, ..*old(menu) })
            &&& !ok ==> *final(wallet) == *old(wallet) && ev is None && *final(menu) == (AtmMenuState {
                input_amount: amount,
                ..*old(menu)
            })
        }),
{
    handle_amount_input(keys, &mut menu.input_amount);
    if !keys.enter {
        return None;
    }
    let amount = menu.input_amount;
    if amount > 0 && wallet.deposit(amount) {
        menu.mode = AtmMode::Main;
        menu.input_amount = 0;
        Some(MoneyChangedEvent { amount: -amount, reason: MoneyChangeReason::AtmDeposit, new_balance: wallet.cash })
    } else {
        None
    }
}

/// One frame of the open ATM menu.
pub fn handle_atm_menu_input(keys: &PressedKeys, wallet: &mut PlayerWallet, menu: &mut AtmMenuState) -> (ev: Option<
    MoneyChangedEvent,
>)
    ensures
        keys.escape ==> ev is None && *final(wallet) == *old(wallet),
        !keys.escape && old(menu).mode == AtmMode::Main ==> ev is None && *final(wallet) == *old(wallet)
            && *final(menu) == (AtmMenuState { mode: main_menu_choice(*keys, AtmMode::Main), ..*old(menu) }),
        !keys.escape && old(menu).mode == AtmMode::Balance ==> ev is None && *final(wallet) == *old(wallet)
            && *final(menu) == (AtmMenuState { mode: if keys.any { AtmMode::Main } else { AtmMode::Balance }, ..*old(menu) }),
        !keys.escape && (old(menu).mode == AtmMode::Withdraw || old(menu).mode == AtmMode::Deposit) ==> {
            let amount = amount_after_keys(*keys, old(menu).input_amount);
            let ok = keys.enter && if old(menu).mode == AtmMode::Withdraw {
                can_withdraw(*old(wallet), amount)
            } else {
                can_deposit(*old(wallet), amount)
            };
            &&& ok ==> ev is Some && final(menu).mode == AtmMode::Main && final(menu).input_amount == 0
            &&& ok && old(menu).mode == AtmMode::Withdraw ==> *final(wallet) == withdraw_post(*old(wallet), amount)
            &&& ok && old(menu).mode == AtmMode::Deposit ==> *final(wallet) == deposit_post(*old(wallet), amount)
            &&& !ok ==> ev is None && *final(wallet) == *old(wallet) && final(menu).input_amount == amount
                && final(menu).mode == old(menu).mode
        },
{
    if handle_atm_escape(keys, menu) {
        return None;
    }
    match menu.mode {
        AtmMode::Main => {
            handle_atm_main_menu(keys, menu);
            None
        },
        AtmMode::Withdraw => handle_atm_withdraw(keys, wallet, menu),
        AtmMode::Deposit => handle_atm_deposit(keys, wallet, menu),
        AtmMode::Balance => {
            if keys.any {
                menu.mode = AtmMode::Main;
            }
            None
        },
    }
}


/// An ATM standing in the world: its entity, where it is (centimetres), the
/// ATM and its interaction zone.
pub struct AtmSpot {
    pub entity: u64,
    pub position: Position,
    pub atm: Atm,
    pub interactable: Interactable,
}

/// The spot is a working ATM zone and the player is within its range.
pub open spec fn atm_usable(s: AtmSpot, player: Position) -> bool {
    &&& s.interactable.interaction_type == InteractionType::Atm
    &&& s.atm.is_functional
    &&& distance_squared(player, s.position) <= s.interactable.range * s.interactable.range
}

/// The first usable ATM from position `i` on.
pub open spec fn first_usable_atm(spots: Seq<AtmSpot>, i: int, player: Position) -> Option<int>
    decreases spots.len() - i,
{
    if i >= spots.len() || i < 0 {
        None
    } else if atm_usable(spots[i], player) {
        Some(i)
    } else {
        first_usable_atm(spots, i + 1, player)
    }
}

/// Walking up to ATMs with the interaction key free (and no ATM menu open;
/// an open menu takes its own input): the first usable ATM opens its menu
/// at the main screen with no amount typed. Returns whether one opened.
pub fn handle_atm_interaction(
    spots: &Vec<AtmSpot>,
    player_pos: Position,
    can_interact: bool,
    menu: &mut AtmMenuState,
) -> (opened: bool)
    requires
        position_in_range(player_pos),
        forall|i: int| 0 <= i < spots@.len() ==> position_in_range((#[trigger] spots@[i]).position),
    ensures
        old(menu).is_open || !can_interact ==> !opened && *final(menu) == *old(menu),
        !old(menu).is_open && can_interact ==> match first_usable_atm(spots@, 0, player_pos) {
            Some(k) => opened && *final(menu) == (AtmMenuState {
                is_open: true,
                current_atm: Some(spots@[k].entity),
                input_amount: 0,
                mode: AtmMode::Main,
            }),
            None => !opened && *final(menu) == *old(menu),
        },
{
    if menu.is_open || !can_interact {
        return false;
    }
    let mut i: usize = 0;
    while i < spots.len()
        invariant
            0 <= i <= spots@.len(),
            position_in_range(player_pos),
            forall|j: int| 0 <= j < spots@.len() ==> position_in_range((#[trigger] spots@[j]).position),
            first_usable_atm(spots@, 0, player_pos) == first_usable_atm(spots@, i as int, player_pos),
            *menu == *old(menu),
            !old(menu).is_open && can_interact,
        decreases spots.len() - i,
    {
        let s = &spots[i];
        if s.interactable.interaction_type == InteractionType::Atm && s.atm.is_functional && squared_distance(
            player_pos,
            s.position,
        ) <= square_u32(s.interactable.range) {
            menu.is_open = true;
            menu.current_atm = Some(s.entity);
            menu.mode = AtmMode::Main;
            menu.input_amount = 0;
            return true;
        }
        i = i + 1;
    }
    false
}

} // verus!
