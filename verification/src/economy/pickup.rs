//! Interactable objects and cash lying on the ground.
use vstd::prelude::*;
use crate::economy::wallet::{PlayerWallet, add_cash_post};
use crate::economy::events::{MoneyChangedEvent, MoneyChangeReason};
use crate::mission::advanced_missions::squared_distance;
use crate::mission::data::{distance_squared, position_in_range};
use crate::mission::story_data::types::Position;
use crate::text::{push_signed, signed_decimal};

verus! {

/// What an interactable object is.
#[derive(Clone, Copy, Debug, PartialEq, Eq, Structural)]
pub enum InteractionType {
    Shop,
    Atm,
    Door,
    Pickup,
    Generic,
}

/// Something the player can interact with. Distances are in centimeters.
#[derive(Clone, Debug)]
pub struct Interactable {
    /// Prompt text.
    pub prompt: String,
    /// Interaction range, in centimeters.
    pub range: u32,
    pub interaction_type: InteractionType,
}

impl Default for Interactable {
    fn default() -> (i: Interactable)
        ensures
            i.prompt@ == "按 F 互動"@,
            i.range == 300,
            i.interaction_type == InteractionType::Generic,
    {
        Interactable { prompt: "按 F 互動".to_owned(), range: 300, interaction_type: InteractionType::Generic }
    }
}

/// Cash dropped in the world. Times are in milliseconds.
#[derive(Clone, Copy, Debug, PartialEq, Eq, Structural)]
pub struct CashPickup {
    pub amount: i32,
    /// Time lying on the ground.
    pub lifetime: u32,
    /// Time after which it disappears.
    pub max_lifetime: u32,
}

impl CashPickup {
    /// Cash that disappears after a minute.
    pub fn new(amount: i32) -> (p: CashPickup)
        ensures
            p == CashPickup::spec_new(amount),
    {
        CashPickup { amount, lifetime: 0, max_lifetime: 60_000 }
    }

    /// Cash of `amount` that disappears after a minute.
    pub open spec fn spec_new(amount: i32) -> CashPickup {
        CashPickup { amount, lifetime: 0, max_lifetime: 60_000 }
    }
}

/// What became of a pickup this frame.
#[derive(Clone, Copy, Debug, PartialEq, Eq, Structural)]
pub enum PickupOutcome {
    /// Still lying there.
    Remains,
    /// Expired and disappears.
    Expired,
    /// The player picked it up.
    Collected(MoneyChangedEvent),
}

/// Lifetime after `dt` more milliseconds (saturating).
pub open spec fn aged(p: CashPickup, dt: u32) -> u32 {
    if p.lifetime + dt > u32::MAX { u32::MAX } else { (p.lifetime + dt) as u32 }
}

/// One frame of a pickup: it ages by `dt`; an expired pickup disappears,
/// otherwise a player within reach picks it up.
pub fn update_cash_pickup(pickup: &mut CashPickup, dt: u32, player_in_reach: bool, wallet: &mut PlayerWallet) -> (o: PickupOutcome)
    ensures
        final(pickup).lifetime == aged(*old(pickup), dt),
        final(pickup).amount == old(pickup).amount,
        final(pickup).max_lifetime == old(pickup).max_lifetime,
        aged(*old(pickup), dt) >= old(pickup).max_lifetime ==> o == PickupOutcome::Expired && *final(wallet) == *old(wallet),
        aged(*old(pickup), dt) < old(pickup).max_lifetime && !player_in_reach ==> o == PickupOutcome::Remains
            && *final(wallet) == *old(wallet),
        aged(*old(pickup), dt) < old(pickup).max_lifetime && player_in_reach ==> *final(wallet) == add_cash_post(
            *old(wallet),
            old(pickup).amount,
        ) && o == PickupOutcome::Collected(
            MoneyChangedEvent {
                amount: old(pickup).amount,
                reason: MoneyChangeReason::Pickup,
                new_balance: final(wallet).cash,
            },
        ),
{
    pickup.lifetime = pickup.lifetime.saturating_add(dt);
    if pickup.lifetime >= pickup.max_lifetime {
        return PickupOutcome::Expired;
    }
    if player_in_reach {
        wallet.add_cash(pickup.amount);
        return PickupOutcome::Collected(
            MoneyChangedEvent { amount: pickup.amount, reason: MoneyChangeReason::Pickup, new_balance: wallet.cash },
        );
    }
    PickupOutcome::Remains
}


/// How close the player must come to pick up cash, in centimetres.
pub const PICKUP_RANGE: u32 = 200;

/// Whether the player is close enough to pick up cash lying at `pickup`.
pub fn cash_pickup_in_reach(player: Position, pickup: Position) -> (b: bool)
    requires
        position_in_range(player),
        position_in_range(pickup),
    ensures
        b == (distance_squared(player, pickup) <= PICKUP_RANGE * PICKUP_RANGE),
{
    squared_distance(player, pickup) <= 40_000
}

/// Cash of `amount` to drop in the world, and its interaction zone: the
/// amount as prompt ("$" and the amount), within two metres, as a pickup.
pub fn spawn_cash_pickup(amount: i32) -> (r: (CashPickup, Interactable))
    ensures
        r.0 == CashPickup::spec_new(amount),
        r.1.prompt@ == seq!['$'] + signed_decimal(amount as int),
        r.1.range == PICKUP_RANGE,
        r.1.interaction_type == InteractionType::Pickup,
{
    let mut prompt = "$".to_owned();
    proof {
        reveal_strlit("$");
    }
    push_signed(&mut prompt, amount);
    (CashPickup::new(amount), Interactable { prompt, range: PICKUP_RANGE, interaction_type: InteractionType::Pickup })
}


/// Cash lying in the world: its entity, where it lies (centimetres) and the
/// cash.
#[derive(Clone, Copy, Debug, PartialEq, Eq, Structural)]
pub struct CashPickupSpot {
    pub entity: u64,
    pub position: Position,
    pub pickup: CashPickup,
}

/// What a frame of cash pickups did.
#[derive(Debug)]
pub struct CashPickupFrame {
    /// Entities to remove: expired or picked-up cash, in order.
    pub despawn: Vec<u64>,
    /// One event per pickup collected, in order.
    pub events: Vec<MoneyChangedEvent>,
}

/// The cash expires this frame.
pub open spec fn spot_expires(s: CashPickupSpot, dt: u32) -> bool {
    aged(s.pickup, dt) >= s.pickup.max_lifetime
}

/// The player picks up the cash this frame.
pub open spec fn spot_collected(s: CashPickupSpot, player: Position, dt: u32) -> bool {
    !spot_expires(s, dt) && distance_squared(player, s.position) <= PICKUP_RANGE * PICKUP_RANGE
}

/// The wallet after the first `n` pickups of a frame.
pub open spec fn wallet_after_pickups(w: PlayerWallet, ss: Seq<CashPickupSpot>, player: Position, dt: u32, n: int) -> PlayerWallet
    decreases n,
{
    if n <= 0 {
        w
    } else {
        let w1 = wallet_after_pickups(w, ss, player, dt, n - 1);
        if spot_collected(ss[n - 1], player, dt) { add_cash_post(w1, ss[n - 1].pickup.amount) } else { w1 }
    }
}

/// The entities removed among the first `n` pickups of a frame.
pub open spec fn pickup_despawns(ss: Seq<CashPickupSpot>, player: Position, dt: u32, n: int) -> Seq<u64>
    decreases n,
{
    if n <= 0 {
        Seq::empty()
    } else {
        let rest = pickup_despawns(ss, player, dt, n - 1);
        if spot_expires(ss[n - 1], dt) || spot_collected(ss[n - 1], player, dt) {
            rest.push(ss[n - 1].entity)
        } else {
            rest
        }
    }
}

/// The money events of the first `n` pickups of a frame.
pub open spec fn pickup_events(w: PlayerWallet, ss: Seq<CashPickupSpot>, player: Position, dt: u32, n: int) -> Seq<
    MoneyChangedEvent,
>
    decreases n,
{
    if n <= 0 {
        Seq::empty()
    } else {
        let rest = pickup_events(w, ss, player, dt, n - 1);
        if spot_collected(ss[n - 1], player, dt) {
            rest.push(
                MoneyChangedEvent {
                    amount: ss[n - 1].pickup.amount,
                    reason: MoneyChangeReason::Pickup,
                    new_balance: wallet_after_pickups(w, ss, player, dt, n).cash,
                },
            )
        } else {
            rest
        }
    }
}

/// One frame of all the cash lying around: each ages by `dt`; expired cash
/// goes, and cash within two metres of the player is picked up into the
/// wallet, in order.
pub fn update_cash_pickups(
    spots: &mut Vec<CashPickupSpot>,
    player_pos: Position,
    dt: u32,
    wallet: &mut PlayerWallet,
) -> (frame: CashPickupFrame)
    requires
        position_in_range(player_pos),
        forall|i: int| 0 <= i < old(spots)@.len() ==> position_in_range((#[trigger] old(spots)@[i]).position),
    ensures
        final(spots)@.len() == old(spots)@.len(),
        forall|i: int|
            0 <= i < old(spots)@.len() ==> #[trigger] final(spots)@[i] == (CashPickupSpot {
                pickup: CashPickup { lifetime: aged(old(spots)@[i].pickup, dt), ..old(spots)@[i].pickup },
                ..old(spots)@[i]
            }),
        *final(wallet) == wallet_after_pickups(*old(wallet), old(spots)@, player_pos, dt, old(spots)@.len() as int),
        frame.despawn@ == pickup_despawns(old(spots)@, player_pos, dt, old(spots)@.len() as int),
        frame.events@ == pickup_events(*old(wallet), old(spots)@, player_pos, dt, old(spots)@.len() as int),
{
    let ghost ss = spots@;
    let ghost w0 = *wallet;
    let mut despawn: Vec<u64> = Vec::new();
    let mut events: Vec<MoneyChangedEvent> = Vec::new();
    let mut i: usize = 0;
    while i < spots.len()
        invariant
            0 <= i <= ss.len(),
            spots@.len() == ss.len(),
            position_in_range(player_pos),
            forall|j: int| 0 <= j < ss.len() ==> position_in_range((#[trigger] ss[j]).position),
            forall|j: int|
                0 <= j < i ==> #[trigger] spots@[j] == (CashPickupSpot {
                    pickup: CashPickup { lifetime: aged(ss[j].pickup, dt), ..ss[j].pickup },
                    ..ss[j]
                }),
            forall|j: int| i <= j < ss.len() ==> #[trigger] spots@[j] == ss[j],
            *wallet == wallet_after_pickups(w0, ss, player_pos, dt, i as int),
            despawn@ == pickup_despawns(ss, player_pos, dt, i as int),
            events@ == pickup_events(w0, ss, player_pos, dt, i as int),
        decreases spots.len() - i,
    {
        let mut s = spots[i];
        let near = cash_pickup_in_reach(player_pos, s.position);
        let outcome = update_cash_pickup(&mut s.pickup, dt, near, wallet);
        match outcome {
            PickupOutcome::Expired => despawn.push(s.entity),
            PickupOutcome::Collected(e) => {
                despawn.push(s.entity);
                events.push(e);
            },
            PickupOutcome::Remains => {},
        }
        spots.set(i, s);
        i = i + 1;
    }
    CashPickupFrame { despawn, events }
}

} // verus!
