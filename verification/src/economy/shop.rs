//! Shops, their goods and opening hours, and what buying an item does.
use vstd::prelude::*;
use crate::economy::wallet::{PlayerWallet, can_spend, spend_post};
use crate::economy::events::{MoneyChangedEvent, MoneyChangeReason};
use crate::economy::input::PressedKeys;
use crate::economy::pickup::{Interactable, InteractionType};
use crate::mission::advanced_missions::{square_u32, squared_distance};
use crate::mission::data::{distance_squared, position_in_range};
use crate::mission::story_data::types::Position;

verus! {

/// Kind of shop.
#[derive(Clone, Copy, Debug, PartialEq, Eq, Structural)]
pub enum ShopType {
    /// Convenience store (supplies).
    ConvenienceStore,
    /// Gun shop.
    WeaponShop,
    /// Clothing store.
    ClothingStore,
    /// Vehicle dealer.
    VehicleDealer,
    /// Tuning shop.
    ModShop,
}

pub open spec fn shop_type_name(t: ShopType) -> Seq<char> {
    match t {
        ShopType::ConvenienceStore => "便利商店"@,
        ShopType::WeaponShop => "槍械行"@,
        ShopType::ClothingStore => "服飾店"@,
        ShopType::VehicleDealer => "車行"@,
        ShopType::ModShop => "改裝廠"@,
    }
}

impl ShopType {
    /// Display name.
    pub fn name(&self) -> (s: &'static str)
        ensures
            s@ == shop_type_name(*self),
    {
        match self {
            ShopType::ConvenienceStore => "便利商店",
            ShopType::WeaponShop => "槍械行",
            ShopType::ClothingStore => "服飾店",
            ShopType::VehicleDealer => "車行",
            ShopType::ModShop => "改裝廠",
        }
    }
}

/// A shop. Hours are in hundredths of an hour since midnight (`630` is 6:18).
pub struct Shop {
    pub shop_type: ShopType,
    pub name: String,
    /// Whether the shop is in business.
    pub is_open: bool,
    /// Opening time, in hundredths of an hour (0..=2400).
    pub open_hour: u32,
    /// Closing time, in hundredths of an hour (0..=2400).
    pub close_hour: u32,
}

/// Whether a shop with these hours is open at `hour`: from opening up to (not
/// including) closing, across midnight when it closes before it opens.
pub open spec fn open_at(open_hour: u32, close_hour: u32, hour: u32) -> bool {
    if open_hour <= close_hour {
        open_hour <= hour && hour < close_hour
    } else {
        hour >= open_hour || hour < close_hour
    }
}

impl Shop {
    /// A shop open from 6:00 to midnight.
    pub fn new(shop_type: ShopType, name: &str) -> (s: Shop)
        ensures
            s.shop_type == shop_type,
            s.name@ == name@,
            s.is_open,
            s.open_hour == 600,
            s.close_hour == 2400,
    {
        Shop { shop_type, name: name.to_owned(), is_open: true, open_hour: 600, close_hour: 2400 }
    }

    /// Open around the clock.
    pub fn always_open(self) -> (s: Shop)
        ensures
            s.open_hour == 0,
            s.close_hour == 2400,
            s.shop_type == self.shop_type,
            s.name == self.name,
            s.is_open == self.is_open,
    {
        let mut s = self;
        s.open_hour = 0;
        s.close_hour = 2400;
        s
    }

    /// Whether the shop is open at `hour` (hundredths of an hour).
    pub fn is_open_at(&self, hour: u32) -> (b: bool)
        ensures
            b == open_at(self.open_hour, self.close_hour, hour),
    {
        if self.open_hour <= self.close_hour {
            hour >= self.open_hour && hour < self.close_hour
        } else {
            hour >= self.open_hour || hour < self.close_hour
        }
    }
}

/// Around the clock means every time of day, and a shop is never open at its
/// closing time.
pub proof fn opening_hours_edges(open_hour: u32, close_hour: u32, hour: u32)
    ensures
        hour < 2400 ==> open_at(0, 2400, hour),
        open_hour != close_hour ==> !open_at(open_hour, close_hour, close_hour),
        open_hour != close_hour ==> open_at(open_hour, close_hour, open_hour),
{
}

/// Category of goods.
#[derive(Clone, Copy, Debug, PartialEq, Eq, Structural)]
pub enum ItemCategory {
    /// Food (heals).
    Food,
    /// Drink (heals a little).
    Drink,
    Ammo,
    Armor,
    Weapon,
    Clothing,
    VehiclePart,
}

/// An item for sale.
#[derive(Clone, Debug)]
pub struct ShopItem {
    pub id: String,
    pub name: String,
    pub description: String,
    pub category: ItemCategory,
    pub price: i32,
    /// Stock; -1 is unlimited.
    pub stock: i32,
    /// Effect size: points healed, armor added or rounds of ammunition.
    pub effect_value: u32,
}

impl ShopItem {
    /// An item with unlimited stock, no description and no effect.
    pub fn new(id: &str, name: &str, category: ItemCategory, price: i32) -> (i: ShopItem)
        ensures
            i.id@ == id@,
            i.name@ == name@,
            i.description@ == Seq::<char>::empty(),
            i.category == category,
            i.price == price,
            i.stock == -1,
            i.effect_value == 0,
    {
        ShopItem {
            id: id.to_owned(),
            name: name.to_owned(),
            description: String::new(),
            category,
            price,
            stock: -1,
            effect_value: 0,
        }
    }

    /// Sets the description.
    pub fn with_description(self, desc: &str) -> (i: ShopItem)
        ensures
            i.description@ == desc@,
            i.id == self.id && i.name == self.name && i.category == self.category,
            i.price == self.price && i.stock == self.stock && i.effect_value == self.effect_value,
    {
        let mut i = self;
        i.description = desc.to_owned();
        i
    }

    /// Sets the effect size.
    pub fn with_effect(self, value: u32) -> (i: ShopItem)
        ensures
            i.effect_value == value,
            i.id == self.id && i.name == self.name && i.description == self.description,
            i.category == self.category && i.price == self.price && i.stock == self.stock,
    {
        let mut i = self;
        i.effect_value = value;
        i
    }

    /// Sets the stock.
    pub fn with_stock(self, stock: i32) -> (i: ShopItem)
        ensures
            i.stock == stock,
            i.id == self.id && i.name == self.name && i.description == self.description,
            i.category == self.category && i.price == self.price && i.effect_value == self.effect_value,
    {
        let mut i = self;
        i.stock = stock;
        i
    }
}


/// The goods of the shops that sell anything.
pub struct ShopInventory {
    pub convenience_items: Vec<ShopItem>,
    pub weapon_items: Vec<ShopItem>,
}

/// The catalogue entry as plain values: id, category, price, stock, effect.
pub open spec fn entry(i: ShopItem) -> (Seq<char>, ItemCategory, i32, i32, u32) {
    (i.id@, i.category, i.price, i.stock, i.effect_value)
}

/// The convenience-store catalogue.
pub open spec fn convenience_catalogue() -> Seq<(Seq<char>, ItemCategory, i32, i32, u32)> {
    seq![
        ("food_bento"@, ItemCategory::Food, 80i32, -1i32, 50u32),
        ("food_onigiri"@, ItemCategory::Food, 30i32, -1i32, 20u32),
        ("drink_tea"@, ItemCategory::Drink, 25i32, -1i32, 10u32),
        ("drink_energy"@, ItemCategory::Drink, 40i32, -1i32, 25u32),
        ("armor_vest"@, ItemCategory::Armor, 500i32, -1i32, 50u32),
    ]
}

/// The gun-shop catalogue.
pub open spec fn weapon_catalogue() -> Seq<(Seq<char>, ItemCategory, i32, i32, u32)> {
    seq![
        ("ammo_pistol"@, ItemCategory::Ammo, 50i32, -1i32, 30u32),
        ("ammo_smg"@, ItemCategory::Ammo, 100i32, -1i32, 60u32),
        ("ammo_shotgun"@, ItemCategory::Ammo, 80i32, -1i32, 12u32),
        ("ammo_rifle"@, ItemCategory::Ammo, 150i32, -1i32, 30u32),
        ("weapon_pistol"@, ItemCategory::Weapon, 1500i32, 1i32, 0u32),
        ("weapon_smg"@, ItemCategory::Weapon, 5000i32, 1i32, 0u32),
        ("weapon_shotgun"@, ItemCategory::Weapon, 8000i32, 1i32, 0u32),
        ("weapon_rifle"@, ItemCategory::Weapon, 15000i32, 1i32, 0u32),
        ("armor_heavy"@, ItemCategory::Armor, 2000i32, -1i32, 100u32),
    ]
}

/// Whether `items` lists exactly the catalogue `cat`.
pub open spec fn lists(items: Seq<ShopItem>, cat: Seq<(Seq<char>, ItemCategory, i32, i32, u32)>) -> bool {
    items.len() == cat.len() && forall|i: int| 0 <= i < items.len() ==> #[trigger] entry(items[i]) == cat[i]
}

impl Default for ShopInventory {
    fn default() -> (s: ShopInventory)
        ensures
            s.convenience_items@.len() == 0,
            s.weapon_items@.len() == 0,
    {
        ShopInventory { convenience_items: Vec::new(), weapon_items: Vec::new() }
    }
}

impl ShopInventory {
    /// The stocked shops: the convenience store and the gun shop.
    pub fn new() -> (s: ShopInventory)
        ensures
            lists(s.convenience_items@, convenience_catalogue()),
            lists(s.weapon_items@, weapon_catalogue()),
    {
        let mut inventory = ShopInventory::default();
        inventory.init_convenience_store();
        inventory.init_weapon_shop();
        inventory
    }

    fn init_convenience_store(&mut self)
        ensures
            lists(final(self).convenience_items@, convenience_catalogue()),
            final(self).weapon_items == old(self).weapon_items,
    {
        let items = vec![
            ShopItem::new("food_bento", "便當", ItemCategory::Food, 80).with_description(
                "回復 50 HP",
            ).with_effect(50),
            ShopItem::new("food_onigiri", "飯糰", ItemCategory::Food, 30).with_description(
                "回復 20 HP",
            ).with_effect(20),
            ShopItem::new("drink_tea", "茶裏王", ItemCategory::Drink, 25).with_description(
                "回復 10 HP",
            ).with_effect(10),
            ShopItem::new("drink_energy", "蠻牛", ItemCategory::Drink, 40).with_description(
                "回復 25 HP，短暫加速",
            ).with_effect(25),
            ShopItem::new("armor_vest", "防彈背心", ItemCategory::Armor, 500).with_description(
                "護甲 +50",
            ).with_effect(50),
        ];
        self.convenience_items = items;
    }

    fn init_weapon_shop(&mut self)
        ensures
            lists(final(self).weapon_items@, weapon_catalogue()),
            final(self).convenience_items == old(self).convenience_items,
    {
        let items = vec![
            ShopItem::new("ammo_pistol", "手槍彈匣", ItemCategory::Ammo, 50).with_description(
                "手槍彈藥 x30",
            ).with_effect(30),
            ShopItem::new("ammo_smg", "衝鋒槍彈匣", ItemCategory::Ammo, 100).with_description(
                "衝鋒槍彈藥 x60",
            ).with_effect(60),
            ShopItem::new("ammo_shotgun", "霰彈", ItemCategory::Ammo, 80).with_description(
                "霰彈 x12",
            ).with_effect(12),
            ShopItem::new("ammo_rifle", "步槍彈匣", ItemCategory::Ammo, 150).with_description(
                "步槍彈藥 x30",
            ).with_effect(30),
            ShopItem::new("weapon_pistol", "9mm 手槍", ItemCategory::Weapon, 1500).with_description(
                "基礎手槍",
            ).with_stock(1),
            ShopItem::new("weapon_smg", "衝鋒槍", ItemCategory::Weapon, 5000).with_description(
                "高射速",
            ).with_stock(1),
            ShopItem::new("weapon_shotgun", "霰彈槍", ItemCategory::Weapon, 8000).with_description(
                "近距離高傷害",
            ).with_stock(1),
            ShopItem::new("weapon_rifle", "突擊步槍", ItemCategory::Weapon, 15000).with_description(
                "中遠距離",
            ).with_stock(1),
            ShopItem::new("armor_heavy", "重型防彈衣", ItemCategory::Armor, 2000).with_description(
                "護甲 +100",
            ).with_effect(100),
        ];
        self.weapon_items = items;
    }

    /// The goods of a shop type; other shop types sell nothing.
    pub fn get_items(&self, shop_type: ShopType) -> (items: &[ShopItem])
        ensures
            shop_type == ShopType::ConvenienceStore ==> items@ == self.convenience_items@,
            shop_type == ShopType::WeaponShop ==> items@ == self.weapon_items@,
            shop_type != ShopType::ConvenienceStore && shop_type != ShopType::WeaponShop ==> items@.len() == 0,
    {
        match shop_type {
            ShopType::ConvenienceStore => self.convenience_items.as_slice(),
            ShopType::WeaponShop => self.weapon_items.as_slice(),
            _ => &[],
        }
    }
}

/// Every item of the stocked shops has a non-negative price, and both shops
/// sell something.
pub proof fn catalogue_prices_non_negative()
    ensures
        forall|i: int| 0 <= i < convenience_catalogue().len() ==> #[trigger] convenience_catalogue()[i].2 >= 0,
        forall|i: int| 0 <= i < weapon_catalogue().len() ==> #[trigger] weapon_catalogue()[i].2 >= 0,
        convenience_catalogue().len() > 0,
        weapon_catalogue().len() > 0,
{
}

// ---------------------------------------------------------------------------
// Buying
// ---------------------------------------------------------------------------

/// A firearm the gun shop sells, or ammunition is for.
#[derive(Clone, Copy, Debug, PartialEq, Eq, Structural)]
pub enum WeaponKind {
    Pistol,
    Smg,
    Shotgun,
    Rifle,
}

/// What a bought item does to the player.
#[derive(Clone, Copy, Debug, PartialEq, Eq, Structural)]
pub enum PurchaseEffect {
    /// Restore this much health.
    Heal(u32),
    /// Add this much armor.
    AddArmor(u32),
    /// Give this weapon (or refill it when already owned).
    GiveWeapon(WeaponKind),
    /// Add this many rounds for this weapon.
    AddAmmo(WeaponKind, u32),
    /// Clothing and vehicle parts do nothing yet.
    NotYetAvailable,
}

/// Result of paying for an item.
#[derive(Clone, Copy, Debug, PartialEq, Eq, Structural)]
pub struct PurchaseReceipt {
    /// The effect, if the item was recognised.
    pub effect: Option<PurchaseEffect>,
    /// The money event, sent only when the item was recognised.
    pub event: Option<MoneyChangedEvent>,
}

/// The weapon a gun-shop weapon id stands for.
pub open spec fn weapon_for_id(id: Seq<char>) -> Option<WeaponKind> {
    if id == "weapon_pistol"@ {
        Some(WeaponKind::Pistol)
    } else if id == "weapon_smg"@ {
        Some(WeaponKind::Smg)
    } else if id == "weapon_shotgun"@ {
        Some(WeaponKind::Shotgun)
    } else if id == "weapon_rifle"@ {
        Some(WeaponKind::Rifle)
    } else {
        None
    }
}

/// The weapon an ammunition id is for.
pub open spec fn ammo_for_id(id: Seq<char>) -> Option<WeaponKind> {
    if id == "ammo_pistol"@ {
        Some(WeaponKind::Pistol)
    } else if id == "ammo_smg"@ {
        Some(WeaponKind::Smg)
    } else if id == "ammo_shotgun"@ {
        Some(WeaponKind::Shotgun)
    } else if id == "ammo_rifle"@ {
        Some(WeaponKind::Rifle)
    } else {
        None
    }
}

/// The effect of an item, or `None` for a weapon or ammunition id that is not known.
pub open spec fn item_effect(item: ShopItem) -> Option<PurchaseEffect> {
    match item.category {
        ItemCategory::Food | ItemCategory::Drink => Some(PurchaseEffect::Heal(item.effect_value)),
        ItemCategory::Armor => Some(PurchaseEffect::AddArmor(item.effect_value)),
        ItemCategory::Weapon => match weapon_for_id(item.id@) {
            Some(w) => Some(PurchaseEffect::GiveWeapon(w)),
            None => None,
        },
        ItemCategory::Ammo => match ammo_for_id(item.id@) {
            Some(w) => Some(PurchaseEffect::AddAmmo(w, item.effect_value)),
            None => None,
        },
        ItemCategory::Clothing | ItemCategory::VehiclePart => Some(PurchaseEffect::NotYetAvailable),
    }
}

fn id_is(id: &String, s: &str) -> (b: bool)
    ensures
        b == (id@ == s@),
{
    let t = s.to_owned();
    id.eq(&t)
}

fn weapon_id(id: &String) -> (w: Option<WeaponKind>)
    ensures
        w == weapon_for_id(id@),
{
    if id_is(id, "weapon_pistol") {
        Some(WeaponKind::Pistol)
    } else if id_is(id, "weapon_smg") {
        Some(WeaponKind::Smg)
    } else if id_is(id, "weapon_shotgun") {
        Some(WeaponKind::Shotgun)
    } else if id_is(id, "weapon_rifle") {
        Some(WeaponKind::Rifle)
    } else {
        None
    }
}

fn ammo_id(id: &String) -> (w: Option<WeaponKind>)
    ensures
        w == ammo_for_id(id@),
{
    if id_is(id, "ammo_pistol") {
        Some(WeaponKind::Pistol)
    } else if id_is(id, "ammo_smg") {
        Some(WeaponKind::Smg)
    } else if id_is(id, "ammo_shotgun") {
        Some(WeaponKind::Shotgun)
    } else if id_is(id, "ammo_rifle") {
        Some(WeaponKind::Rifle)
    } else {
        None
    }
}

/// Pays for `item`. `None` when the cash does not cover the price (nothing
/// changes). Otherwise the price is paid; a recognised item yields its effect
/// and a purchase money event, while a weapon or ammunition id that is not
/// known yields neither (the money stays spent).
pub fn try_purchase_item(item: &ShopItem, wallet: &mut PlayerWallet) -> (r: Option<PurchaseReceipt>)
    ensures
        !can_spend(*old(wallet), item.price) ==> r is None && *final(wallet) == *old(wallet),
        can_spend(*old(wallet), item.price) ==> *final(wallet) == spend_post(*old(wallet), item.price) && r
            == Some(
            PurchaseReceipt {
                effect: item_effect(*item),
                event: if item_effect(*item) is Some {
                    Some(
                        MoneyChangedEvent {
                            amount: (-item.price) as i32,
                            reason: MoneyChangeReason::Purchase,
                            new_balance: final(wallet).cash,
                        },
                    )
                } else {
                    None
                },
            },
        ),
{
    if !wallet.spend_cash(item.price) {
        return None;
    }
    let effect = match item.category {
        ItemCategory::Food | ItemCategory::Drink => PurchaseEffect::Heal(item.effect_value),
        ItemCategory::Armor => PurchaseEffect::AddArmor(item.effect_value),
        ItemCategory::Weapon => match weapon_id(&item.id) {
            Some(w) => PurchaseEffect::GiveWeapon(w),
            None => {
                return Some(PurchaseReceipt { effect: None, event: None });
            },
        },
        ItemCategory::Ammo => match ammo_id(&item.id) {
            Some(w) => PurchaseEffect::AddAmmo(w, item.effect_value),
            None => {
                return Some(PurchaseReceipt { effect: None, event: None });
            },
        },
        ItemCategory::Clothing | ItemCategory::VehiclePart => PurchaseEffect::NotYetAvailable,
    };
    Some(
        PurchaseReceipt {
            effect: Some(effect),
            event: Some(
                MoneyChangedEvent { amount: -item.price, reason: MoneyChangeReason::Purchase, new_balance: wallet.cash },
            ),
        },
    )
}

/// Shop menu state.
#[derive(Clone, Copy, Debug, PartialEq, Eq, Structural)]
pub struct ShopMenuState {
    pub is_open: bool,
    /// Entity id of the shop in use.
    pub current_shop: Option<u64>,
    /// Highlighted item.
    pub selected_index: usize,
    pub shop_type: Option<ShopType>,
}

impl Default for ShopMenuState {
    fn default() -> (m: ShopMenuState)
        ensures
            m == (ShopMenuState { is_open: false, current_shop: None, selected_index: 0, shop_type: None }),
    {
        ShopMenuState { is_open: false, current_shop: None, selected_index: 0, shop_type: None }
    }
}

/// The highlighted item after W/Up and S/Down: one step, never past either end.
pub open spec fn navigate(k: PressedKeys, index: usize, count: usize) -> usize {
    let up = k.key_w || k.arrow_up;
    let down = k.key_s || k.arrow_down;
    let i1 = if up && index > 0 { (index - 1) as usize } else { index };
    if down && i1 < count - 1 { (i1 + 1) as usize } else { i1 }
}

/// Moves the highlight up or down.
fn handle_shop_navigation(keys: &PressedKeys, selected_index: &mut usize, item_count: usize)
    requires
        item_count > 0,
    ensures
        *final(selected_index) == navigate(*keys, *old(selected_index), item_count),
{
    let up_pressed = keys.key_w || keys.arrow_up;
    let down_pressed = keys.key_s || keys.arrow_down;
    if up_pressed && *selected_index > 0 {
        *selected_index = *selected_index - 1;
    }
    if down_pressed && *selected_index < item_count - 1 {
        *selected_index = *selected_index + 1;
    }
}

/// The goods of a shop type as a sequence.
pub open spec fn goods(inv: &ShopInventory, t: ShopType) -> Seq<ShopItem> {
    if t == ShopType::ConvenienceStore {
        inv.convenience_items@
    } else if t == ShopType::WeaponShop {
        inv.weapon_items@
    } else {
        seq![]
    }
}

/// One frame of the open shop menu: Escape closes it; otherwise the keys move
/// the highlight and Enter buys the highlighted item.
pub fn handle_shop_menu_input(
    keys: &PressedKeys,
    wallet: &mut PlayerWallet,
    menu: &mut ShopMenuState,
    shop_inventory: &ShopInventory,
) -> (r: Option<PurchaseReceipt>)
    ensures
        keys.escape ==> r is None && *final(wallet) == *old(wallet) && *final(menu) == (ShopMenuState {
            is_open: false,
            current_shop: None,
            ..*old(menu)
        }),
        !keys.escape && (old(menu).shop_type is None || goods(shop_inventory, old(menu).shop_type->0).len() == 0)
            ==> r is None && *final(wallet) == *old(wallet) && *final(menu) == *old(menu),
        !keys.escape && old(menu).shop_type is Some && goods(shop_inventory, old(menu).shop_type->0).len() > 0 ==> {
            let items = goods(shop_inventory, old(menu).shop_type->0);
            let idx = navigate(*keys, old(menu).selected_index, items.len() as usize);
            &&& *final(menu) == (ShopMenuState { selected_index: idx, ..*old(menu) })
            &&& !keys.enter ==> r is None && *final(wallet) == *old(wallet)
            &&& keys.enter && idx < items.len() && can_spend(*old(wallet), items[idx as int].price) ==> r is Some
                && *final(wallet) == spend_post(*old(wallet), items[idx as int].price)
                && r->0.effect == item_effect(items[idx as int])
            &&& keys.enter && idx < items.len() && !can_spend(*old(wallet), items[idx as int].price) ==> r is None
                && *final(wallet) == *old(wallet)
        },
{
    if keys.escape {
        menu.is_open = false;
        menu.current_shop = None;
        return None;
    }
    let shop_type = match menu.shop_type {
        Some(t) => t,
        None => {
            return None;
        },
    };
    let items = shop_inventory.get_items(shop_type);
    if items.len() == 0 {
        return None;
    }
    handle_shop_navigation(keys, &mut menu.selected_index, items.len());
    if keys.enter {
        if menu.selected_index < items.len() {
            return try_purchase_item(&items[menu.selected_index], wallet);
        }
    }
    None
}


/// A shop standing in the world: its entity, where it is (centimetres),
/// the shop and its interaction zone.
pub struct ShopSpot {
    pub entity: u64,
    pub position: Position,
    pub shop: Shop,
    pub interactable: Interactable,
}

/// What walking up to shops did.
#[derive(Clone, Copy, Debug, PartialEq, Eq, Structural)]
pub struct ShopInteraction {
    /// How many "closed, come back later" notices to show.
    pub closed_notices: usize,
    /// Whether a shop menu opened.
    pub opened: bool,
}

/// The spot is a shop zone and the player is within its range.
pub open spec fn shop_in_reach(s: ShopSpot, player: Position) -> bool {
    s.interactable.interaction_type == InteractionType::Shop && distance_squared(player, s.position)
        <= s.interactable.range * s.interactable.range
}

/// The first shop from position `i` on that is in reach and open at `hour`.
pub open spec fn first_open_shop(spots: Seq<ShopSpot>, i: int, player: Position, hour: u32) -> Option<int>
    decreases spots.len() - i,
{
    if i >= spots.len() || i < 0 {
        None
    } else if shop_in_reach(spots[i], player) && open_at(spots[i].shop.open_hour, spots[i].shop.close_hour, hour) {
        Some(i)
    } else {
        first_open_shop(spots, i + 1, player, hour)
    }
}

/// How many of the first `n` shops are in reach but closed at `hour`.
pub open spec fn closed_in_reach(spots: Seq<ShopSpot>, n: int, player: Position, hour: u32) -> nat
    decreases n,
{
    if n <= 0 {
        0
    } else {
        closed_in_reach(spots, n - 1, player, hour) + if shop_in_reach(spots[n - 1], player) && !open_at(
            spots[n - 1].shop.open_hour,
            spots[n - 1].shop.close_hour,
            hour,
        ) {
            1nat
        } else {
            0nat
        }
    }
}

/// Walking up to shops with the interaction key free (and no shop menu
/// open; an open menu takes its own input): each shop in reach but closed
/// at `hour` gives a notice, until the first shop in reach that is open,
/// whose menu opens at its first item.
pub fn handle_shop_interaction(
    spots: &Vec<ShopSpot>,
    player_pos: Position,
    hour: u32,
    can_interact: bool,
    menu: &mut ShopMenuState,
) -> (r: ShopInteraction)
    requires
        position_in_range(player_pos),
        forall|i: int| 0 <= i < spots@.len() ==> position_in_range((#[trigger] spots@[i]).position),
    ensures
        old(menu).is_open || !can_interact ==> r == (ShopInteraction { closed_notices: 0, opened: false })
            && *final(menu) == *old(menu),
        !old(menu).is_open && can_interact ==> match first_open_shop(spots@, 0, player_pos, hour) {
            Some(k) => {
                &&& r.opened
                &&& r.closed_notices == closed_in_reach(spots@, k, player_pos, hour)
                &&& *final(menu) == (ShopMenuState {
                    is_open: true,
                    current_shop: Some(spots@[k].entity),
                    selected_index: 0,
                    shop_type: Some(spots@[k].shop.shop_type),
                })
            },
            None => !r.opened && r.closed_notices == closed_in_reach(spots@, spots@.len() as int, player_pos, hour)
                && *final(menu) == *old(menu),
        },
{
    if menu.is_open || !can_interact {
        return ShopInteraction { closed_notices: 0, opened: false };
    }
    let mut notices: usize = 0;
    let mut i: usize = 0;
    while i < spots.len()
        invariant
            0 <= i <= spots@.len(),
            position_in_range(player_pos),
            forall|j: int| 0 <= j < spots@.len() ==> position_in_range((#[trigger] spots@[j]).position),
            first_open_shop(spots@, 0, player_pos, hour) == first_open_shop(spots@, i as int, player_pos, hour),
            notices == closed_in_reach(spots@, i as int, player_pos, hour),
            notices <= i,
            *menu == *old(menu),
            !old(menu).is_open && can_interact,
        decreases spots.len() - i,
    {
        let s = &spots[i];
        let in_reach = s.interactable.interaction_type == InteractionType::Shop && squared_distance(
            player_pos,
            s.position,
        ) <= square_u32(s.interactable.range);
        if in_reach {
            if !s.shop.is_open_at(hour) {
                notices = notices + 1;
            } else {
                menu.is_open = true;
                menu.current_shop = Some(s.entity);
                menu.shop_type = Some(s.shop.shop_type);
                menu.selected_index = 0;
                return ShopInteraction { closed_notices: notices, opened: true };
            }
        }
        i = i + 1;
    }
    ShopInteraction { closed_notices: notices, opened: false }
}

} // verus!
