//! Businesses the player can buy, staff, upgrade and collect daily income from.
use vstd::prelude::*;
use crate::economy::wallet::{PlayerWallet, add_cash_post};

verus! {

/// Kind of business.
#[derive(Clone, Copy, Debug, PartialEq, Eq, Structural)]
pub enum EnterpriseType {
    /// Night-market stall: cheap, steady.
    NightMarketStall,
    /// Convenience store.
    ConvenienceStore,
    /// Bubble-tea shop.
    BubbleTeaShop,
    /// Motorcycle shop.
    MotorcycleShop,
    /// Bar.
    Bar,
    /// Nightclub: the highest income.
    Nightclub,
}

pub open spec fn spec_purchase_price(t: EnterpriseType) -> int {
    match t {
        EnterpriseType::NightMarketStall => 15_000,
        EnterpriseType::ConvenienceStore => 50_000,
        EnterpriseType::BubbleTeaShop => 35_000,
        EnterpriseType::MotorcycleShop => 80_000,
        EnterpriseType::Bar => 120_000,
        EnterpriseType::Nightclub => 250_000,
    }
}

pub open spec fn spec_base_daily_income(t: EnterpriseType) -> int {
    match t {
        EnterpriseType::NightMarketStall => 200,
        EnterpriseType::ConvenienceStore => 500,
        EnterpriseType::BubbleTeaShop => 400,
        EnterpriseType::MotorcycleShop => 800,
        EnterpriseType::Bar => 1200,
        EnterpriseType::Nightclub => 2500,
    }
}

pub open spec fn spec_max_employees(t: EnterpriseType) -> int {
    match t {
        EnterpriseType::NightMarketStall => 2,
        EnterpriseType::ConvenienceStore => 5,
        EnterpriseType::BubbleTeaShop => 3,
        EnterpriseType::MotorcycleShop => 4,
        EnterpriseType::Bar => 6,
        EnterpriseType::Nightclub => 10,
    }
}

pub open spec fn spec_employee_salary(t: EnterpriseType) -> int {
    match t {
        EnterpriseType::NightMarketStall => 80,
        EnterpriseType::ConvenienceStore => 100,
        EnterpriseType::BubbleTeaShop => 90,
        EnterpriseType::MotorcycleShop => 120,
        EnterpriseType::Bar => 150,
        EnterpriseType::Nightclub => 200,
    }
}

/// Income bonus per employee, in percent of the base income.
pub open spec fn spec_employee_bonus(t: EnterpriseType) -> int {
    match t {
        EnterpriseType::NightMarketStall => 30,
        EnterpriseType::ConvenienceStore => 20,
        EnterpriseType::BubbleTeaShop => 25,
        EnterpriseType::MotorcycleShop => 25,
        EnterpriseType::Bar => 15,
        EnterpriseType::Nightclub => 12,
    }
}

impl EnterpriseType {
    /// Purchase price.
    pub fn purchase_price(&self) -> (p: i32)
        ensures
            p == spec_purchase_price(*self),
    {
        match self {
            EnterpriseType::NightMarketStall => 15_000,
            EnterpriseType::ConvenienceStore => 50_000,
            EnterpriseType::BubbleTeaShop => 35_000,
            EnterpriseType::MotorcycleShop => 80_000,
            EnterpriseType::Bar => 120_000,
            EnterpriseType::Nightclub => 250_000,
        }
    }

    /// Daily income with no staff and no upgrade.
    pub fn base_daily_income(&self) -> (p: i32)
        ensures
            p == spec_base_daily_income(*self),
    {
        match self {
            EnterpriseType::NightMarketStall => 200,
            EnterpriseType::ConvenienceStore => 500,
            EnterpriseType::BubbleTeaShop => 400,
            EnterpriseType::MotorcycleShop => 800,
            EnterpriseType::Bar => 1200,
            EnterpriseType::Nightclub => 2500,
        }
    }

    /// Staff limit.
    pub fn max_employees(&self) -> (m: u32)
        ensures
            m == spec_max_employees(*self),
    {
        match self {
            EnterpriseType::NightMarketStall => 2,
            EnterpriseType::ConvenienceStore => 5,
            EnterpriseType::BubbleTeaShop => 3,
            EnterpriseType::MotorcycleShop => 4,
            EnterpriseType::Bar => 6,
            EnterpriseType::Nightclub => 10,
        }
    }

    /// Daily wage of one employee.
    pub fn employee_salary(&self) -> (s: i32)
        ensures
            s == spec_employee_salary(*self),
    {
        match self {
            EnterpriseType::NightMarketStall => 80,
            EnterpriseType::ConvenienceStore => 100,
            EnterpriseType::BubbleTeaShop => 90,
            EnterpriseType::MotorcycleShop => 120,
            EnterpriseType::Bar => 150,
            EnterpriseType::Nightclub => 200,
        }
    }

    /// Income bonus that each employee adds, in percent of the base income.
    pub fn employee_income_bonus(&self) -> (b: u32)
        ensures
            b == spec_employee_bonus(*self),
    {
        match self {
            EnterpriseType::NightMarketStall => 30,
            EnterpriseType::ConvenienceStore => 20,
            EnterpriseType::BubbleTeaShop | EnterpriseType::MotorcycleShop => 25,
            EnterpriseType::Bar => 15,
            EnterpriseType::Nightclub => 12,
        }
    }

    /// Display name.
    pub fn label(&self) -> (s: &'static str)
        ensures
            s@ == enterprise_label(*self),
    {
        match self {
            EnterpriseType::NightMarketStall => "夜市攤位",
            EnterpriseType::ConvenienceStore => "便利商店",
            EnterpriseType::BubbleTeaShop => "泡沫紅茶店",
            EnterpriseType::MotorcycleShop => "機車行",
            EnterpriseType::Bar => "酒吧",
            EnterpriseType::Nightclub => "夜店",
        }
    }
}

pub open spec fn enterprise_label(t: EnterpriseType) -> Seq<char> {
    match t {
        EnterpriseType::NightMarketStall => "夜市攤位"@,
        EnterpriseType::ConvenienceStore => "便利商店"@,
        EnterpriseType::BubbleTeaShop => "泡沫紅茶店"@,
        EnterpriseType::MotorcycleShop => "機車行"@,
        EnterpriseType::Bar => "酒吧"@,
        EnterpriseType::Nightclub => "夜店"@,
    }
}

/// Upgrade level of a business.
#[derive(Clone, Copy, Debug, PartialEq, Eq, Structural)]
pub enum UpgradeLevel {
    /// No upgrade yet.
    Base,
    /// Renovation: +20% income.
    Renovation,
    /// Equipment: +40% income.
    Equipment,
    /// Premium: +70% income.
    Premium,
}

/// Income multiplier of a level, in percent.
pub open spec fn spec_income_multiplier(l: UpgradeLevel) -> int {
    match l {
        UpgradeLevel::Base => 100,
        UpgradeLevel::Renovation => 120,
        UpgradeLevel::Equipment => 140,
        UpgradeLevel::Premium => 170,
    }
}

/// The level after an upgrade, if there is one.
pub open spec fn spec_next_level(l: UpgradeLevel) -> Option<UpgradeLevel> {
    match l {
        UpgradeLevel::Base => Some(UpgradeLevel::Renovation),
        UpgradeLevel::Renovation => Some(UpgradeLevel::Equipment),
        UpgradeLevel::Equipment => Some(UpgradeLevel::Premium),
        UpgradeLevel::Premium => None,
    }
}

/// The cost of the next upgrade: a quarter, a third, then half the purchase price.
pub open spec fn spec_upgrade_cost(l: UpgradeLevel, t: EnterpriseType) -> Option<int> {
    match l {
        UpgradeLevel::Base => Some(spec_purchase_price(t) / 4),
        UpgradeLevel::Renovation => Some(spec_purchase_price(t) / 3),
        UpgradeLevel::Equipment => Some(spec_purchase_price(t) / 2),
        UpgradeLevel::Premium => None,
    }
}

impl Default for UpgradeLevel {
    fn default() -> (l: UpgradeLevel)
        ensures
            l == UpgradeLevel::Base,
    {
        UpgradeLevel::Base
    }
}

impl UpgradeLevel {
    /// Income multiplier in percent (100, 120, 140, 170).
    pub fn income_multiplier(&self) -> (m: u32)
        ensures
            m == spec_income_multiplier(*self),
    {
        match self {
            UpgradeLevel::Base => 100,
            UpgradeLevel::Renovation => 120,
            UpgradeLevel::Equipment => 140,
            UpgradeLevel::Premium => 170,
        }
    }

    /// Cost of the next upgrade, or `None` at the top level.
    pub fn upgrade_cost(&self, enterprise_type: &EnterpriseType) -> (c: Option<i32>)
        ensures
            c == match spec_upgrade_cost(*self, *enterprise_type) {
                Some(x) => Some(x as i32),
                None => None::<i32>,
            },
            c is Some <==> spec_upgrade_cost(*self, *enterprise_type) is Some,
    {
        let base = enterprise_type.purchase_price();
        match self {
            UpgradeLevel::Base => Some(base / 4),
            UpgradeLevel::Renovation => Some(base / 3),
            UpgradeLevel::Equipment => Some(base / 2),
            UpgradeLevel::Premium => None,
        }
    }

    /// The next level, or `None` at the top.
    pub fn next(&self) -> (n: Option<UpgradeLevel>)
        ensures
            n == spec_next_level(*self),
    {
        match self {
            UpgradeLevel::Base => Some(UpgradeLevel::Renovation),
            UpgradeLevel::Renovation => Some(UpgradeLevel::Equipment),
            UpgradeLevel::Equipment => Some(UpgradeLevel::Premium),
            UpgradeLevel::Premium => None,
        }
    }
}

/// One business.
#[derive(Clone, Copy, Debug, PartialEq, Eq, Structural)]
pub struct Enterprise {
    pub enterprise_type: EnterpriseType,
    /// Whether the player owns it.
    pub owned: bool,
    /// Number of employees.
    pub employees: u32,
    pub upgrade_level: UpgradeLevel,
    /// Last game day whose income was collected.
    pub last_income_day: u32,
    /// Income collected so far (statistics).
    pub total_income: i32,
    /// Wages and upgrades paid so far.
    pub total_expenses: i32,
}

/// Daily income before wages: base income raised by the staff bonus and the
/// upgrade multiplier, rounded down, capped at `i32::MAX`; zero if not owned.
pub open spec fn spec_gross(e: Enterprise) -> int {
    if !e.owned {
        0
    } else {
        let x = spec_base_daily_income(e.enterprise_type) * (100 + e.employees * spec_employee_bonus(
            e.enterprise_type,
        )) * spec_income_multiplier(e.upgrade_level) / 10000;
        if x > i32::MAX { i32::MAX as int } else { x }
    }
}

/// Daily wages.
pub open spec fn spec_salary(e: Enterprise) -> int {
    e.employees * spec_employee_salary(e.enterprise_type)
}

/// Daily income after wages.
pub open spec fn spec_net(e: Enterprise) -> int {
    spec_gross(e) - spec_salary(e)
}

/// What `collect_income(day)` pays.
pub open spec fn spec_collect_amount(e: Enterprise, day: u32) -> int {
    if !e.owned || day <= e.last_income_day {
        0
    } else {
        spec_net(e)
    }
}

/// The business after `collect_income(day)`.
pub open spec fn spec_collect_post(e: Enterprise, day: u32) -> Enterprise {
    if !e.owned || day <= e.last_income_day {
        e
    } else {
        Enterprise {
            last_income_day: day,
            total_income: (e.total_income + if spec_net(e) > 0 { spec_net(e) } else { 0 }) as i32,
            total_expenses: (e.total_expenses + spec_salary(e)) as i32,
            ..e
        }
    }
}

/// Whether collecting on `day` keeps the statistics in range.
pub open spec fn collect_fits(e: Enterprise, day: u32) -> bool {
    &&& spec_salary(e) <= i32::MAX
    &&& (e.owned && day > e.last_income_day) ==> {
        &&& e.total_income + (if spec_net(e) > 0 { spec_net(e) } else { 0 }) <= i32::MAX
        &&& e.total_expenses + spec_salary(e) <= i32::MAX
    }
}

/// Whether a hire succeeds: owned and below the staff limit.
pub open spec fn can_hire(e: Enterprise) -> bool {
    e.owned && e.employees < spec_max_employees(e.enterprise_type)
}

/// The business after `hire_employee`.
pub open spec fn spec_hire_post(e: Enterprise) -> Enterprise {
    if can_hire(e) {
        Enterprise { employees: (e.employees + 1) as u32, ..e }
    } else {
        e
    }
}

/// The business after `fire_employee`.
pub open spec fn spec_fire_post(e: Enterprise) -> Enterprise {
    if e.employees > 0 {
        Enterprise { employees: (e.employees - 1) as u32, ..e }
    } else {
        e
    }
}

/// The business after `try_upgrade`.
pub open spec fn spec_upgrade_post(e: Enterprise) -> Enterprise {
    if e.owned && e.upgrade_level != UpgradeLevel::Premium {
        Enterprise {
            upgrade_level: spec_next_level(e.upgrade_level)->0,
            total_expenses: (e.total_expenses + spec_upgrade_cost(e.upgrade_level, e.enterprise_type)->0) as i32,
            ..e
        }
    } else {
        e
    }
}

/// `a / b` rounded up, for positive `b`.
pub open spec fn ceil_div(a: int, b: int) -> int {
    (a + b - 1) / b
}

impl Enterprise {
    /// A business for sale.
    pub fn for_sale(enterprise_type: EnterpriseType) -> (e: Enterprise)
        ensures
            e == (Enterprise {
                enterprise_type,
                owned: false,
                employees: 0,
                upgrade_level: UpgradeLevel::Base,
                last_income_day: 0,
                total_income: 0,
                total_expenses: 0,
            }),
    {
        Enterprise {
            enterprise_type,
            owned: false,
            employees: 0,
            upgrade_level: UpgradeLevel::Base,
            last_income_day: 0,
            total_income: 0,
            total_expenses: 0,
        }
    }

    /// Becomes the player's.
    pub fn purchase(&mut self)
        ensures
            *final(self) == (Enterprise { owned: true, ..*old(self) }),
    {
        self.owned = true;
    }

    /// Daily income before wages.
    pub fn daily_gross_income(&self) -> (g: i32)
        ensures
            g == spec_gross(*self),
    {
        if !self.owned {
            return 0;
        }
        let base = self.enterprise_type.base_daily_income() as u64;
        let bonus = self.enterprise_type.employee_income_bonus() as u64;
        let mult = self.upgrade_level.income_multiplier() as u64;
        let e = self.employees as u64;
        assert(e * bonus <= 4_294_967_295u64 * 30) by (nonlinear_arith)
            requires
                e <= 4_294_967_295u64,
                bonus <= 30,
        ;
        let staff = 100 + e * bonus;
        assert(base * staff <= 2500 * (100 + 4_294_967_295u64 * 30)) by (nonlinear_arith)
            requires
                base <= 2500,
                staff <= 100 + 4_294_967_295u64 * 30,
        ;
        let a = base * staff;
        assert(a * mult <= 2500 * (100 + 4_294_967_295u64 * 30) * 170) by (nonlinear_arith)
            requires
                a <= 2500 * (100 + 4_294_967_295u64 * 30),
                mult <= 170,
        ;
        let x = a * mult / 10000;
        if x > i32::MAX as u64 {
            i32::MAX
        } else {
            x as i32
        }
    }

    /// Daily wages.
    pub fn daily_salary(&self) -> (s: i32)
        requires
            spec_salary(*self) <= i32::MAX,
        ensures
            s == spec_salary(*self),
    {
        let salary = self.enterprise_type.employee_salary();
        assert(self.employees <= i32::MAX) by (nonlinear_arith)
            requires
                self.employees * salary <= i32::MAX,
                salary >= 80,
        ;
        self.employees as i32 * salary
    }

    /// Daily income after wages.
    pub fn daily_net_income(&self) -> (n: i32)
        requires
            spec_salary(*self) <= i32::MAX,
        ensures
            n == spec_net(*self),
    {
        self.daily_gross_income() - self.daily_salary()
    }

    /// Hires one employee if owned and below the staff limit.
    pub fn hire_employee(&mut self) -> (ok: bool)
        ensures
            ok == can_hire(*old(self)),
            *final(self) == spec_hire_post(*old(self)),
    {
        if !self.owned {
            return false;
        }
        if self.employees >= self.enterprise_type.max_employees() {
            return false;
        }
        self.employees = self.employees + 1;
        true
    }

    /// Dismisses one employee, if there is one.
    pub fn fire_employee(&mut self) -> (ok: bool)
        ensures
            ok == (old(self).employees > 0),
            *final(self) == spec_fire_post(*old(self)),
    {
        if self.employees == 0 {
            return false;
        }
        self.employees = self.employees - 1;
        true
    }

    /// Upgrades one level if owned and not at the top; returns the cost, which
    /// is added to the expenses.
    pub fn try_upgrade(&mut self) -> (c: Option<i32>)
        requires
            old(self).owned && spec_upgrade_cost(old(self).upgrade_level, old(self).enterprise_type) is Some
                ==> old(self).total_expenses + spec_upgrade_cost(
                old(self).upgrade_level,
                old(self).enterprise_type,
            )->0 <= i32::MAX,
        ensures
            (c is Some) == (old(self).owned && old(self).upgrade_level != UpgradeLevel::Premium),
            c is Some ==> c->0 == spec_upgrade_cost(old(self).upgrade_level, old(self).enterprise_type)->0,
            *final(self) == spec_upgrade_post(*old(self)),
    {
        if !self.owned {
            return None;
        }
        let cost = match self.upgrade_level.upgrade_cost(&self.enterprise_type) {
            Some(c) => c,
            None => {
                return None;
            },
        };
        let next = match self.upgrade_level.next() {
            Some(n) => n,
            None => {
                return None;
            },
        };
        self.upgrade_level = next;
        self.total_expenses = self.total_expenses + cost;
        Some(cost)
    }

    /// Collects the income of `current_day` once: nothing if not owned or
    /// already collected for this day or a later one.
    pub fn collect_income(&mut self, current_day: u32) -> (r: i32)
        requires
            collect_fits(*old(self), current_day),
        ensures
            r == spec_collect_amount(*old(self), current_day),
            *final(self) == spec_collect_post(*old(self), current_day),
    {
        if !self.owned || current_day <= self.last_income_day {
            return 0;
        }
        let net = self.daily_net_income();
        self.last_income_day = current_day;
        self.total_income = self.total_income + if net > 0 { net } else { 0 };
        self.total_expenses = self.total_expenses + self.daily_salary();
        net
    }

    /// Days of current net income needed to earn back the price and the
    /// expenses, rounded up; `None` when the business does not make money.
    pub fn days_to_roi(&self) -> (d: Option<u32>)
        requires
            spec_salary(*self) <= i32::MAX,
            spec_purchase_price(self.enterprise_type) + self.total_expenses <= i32::MAX,
        ensures
            spec_net(*self) <= 0 ==> d is None,
            spec_net(*self) > 0 ==> d == Some(
                if spec_purchase_price(self.enterprise_type) + self.total_expenses <= 0 {
                    0u32
                } else {
                    ceil_div(spec_purchase_price(self.enterprise_type) + self.total_expenses, spec_net(*self)) as u32
                },
            ),
    {
        let net = self.daily_net_income();
        if net <= 0 {
            return None;
        }
        let total_investment = self.enterprise_type.purchase_price() + self.total_expenses;
        if total_investment <= 0 {
            return Some(0);
        }
        let days = (total_investment as i64 + net as i64 - 1) / net as i64;
        assert(days <= total_investment) by (nonlinear_arith)
            requires
                days == (total_investment + net - 1) / (net as int),
                net >= 1,
                total_investment >= 1,
        ;
        Some(days as u32)
    }
}

/// Bookkeeping across all businesses.
pub struct EnterpriseManager {
    /// Businesses owned.
    pub owned_count: u32,
    /// Income collected today (for display).
    pub today_total_income: i32,
    /// Game-day counter used to settle income.
    pub current_day: u32,
    /// Whether today's settlement window has been used.
    pub collected_this_cycle: bool,
}

impl Default for EnterpriseManager {
    fn default() -> (m: EnterpriseManager)
        ensures
            m.owned_count == 0,
            m.today_total_income == 0,
            m.current_day == 1,
            !m.collected(),
    {
        EnterpriseManager { owned_count: 0, today_total_income: 0, current_day: 1, collected_this_cycle: false }
    }
}

/// Sum of what collecting on `day` pays across `es`.
pub open spec fn income_sum(es: Seq<Enterprise>, day: u32) -> int
    decreases es.len(),
{
    if es.len() == 0 {
        0
    } else {
        income_sum(es.drop_last(), day) + spec_collect_amount(es.last(), day)
    }
}

/// Number of owned businesses in `es`.
pub open spec fn owned_count(es: Seq<Enterprise>) -> int
    decreases es.len(),
{
    if es.len() == 0 {
        0
    } else {
        owned_count(es.drop_last()) + if es.last().owned { 1int } else { 0int }
    }
}

/// The wallet after receiving the incomes of `es` one by one.
pub open spec fn pay_incomes(w: PlayerWallet, es: Seq<Enterprise>, day: u32) -> PlayerWallet
    decreases es.len(),
{
    if es.len() == 0 {
        w
    } else {
        let w0 = pay_incomes(w, es.drop_last(), day);
        if spec_collect_amount(es.last(), day) != 0 {
            add_cash_post(w0, spec_collect_amount(es.last(), day) as i32)
        } else {
            w0
        }
    }
}

impl EnterpriseManager {
    pub open spec fn collected(&self) -> bool {
        self.collected_this_cycle
    }

    /// Whether today's settlement already ran.
    pub fn collected_this_cycle(&self) -> (b: bool)
        ensures
            b == self.collected(),
    {
        self.collected_this_cycle
    }
}

/// The daily settlement (run every frame): inside the morning window, once per
/// day, every owned business pays its net income into the wallet; leaving the
/// window after a settlement moves on to the next day.
pub fn enterprise_income_system(
    in_settlement_window: bool,
    wallet: &mut PlayerWallet,
    manager: &mut EnterpriseManager,
    enterprises: &mut Vec<Enterprise>,
)
    requires
        !in_settlement_window && old(manager).collected() ==> old(manager).current_day < u32::MAX,
        forall|i: int| 0 <= i < old(enterprises)@.len() ==> collect_fits(#[trigger] old(enterprises)@[i], old(manager).current_day),
        forall|i: int| 0 <= i <= old(enterprises)@.len() ==> i32::MIN <= #[trigger] income_sum(old(enterprises)@.take(i), old(manager).current_day) <= i32::MAX,
        old(enterprises)@.len() <= u32::MAX,
    ensures
        !in_settlement_window ==> *final(wallet) == *old(wallet) && final(enterprises)@ == old(enterprises)@
            && final(manager).owned_count == old(manager).owned_count
            && final(manager).today_total_income == old(manager).today_total_income
            && !final(manager).collected()
            && final(manager).current_day == if old(manager).collected() { old(manager).current_day + 1 } else { old(manager).current_day as int },
        in_settlement_window && old(manager).collected() ==> *final(wallet) == *old(wallet)
            && final(enterprises)@ == old(enterprises)@ && *final(manager) == *old(manager),
        in_settlement_window && !old(manager).collected() ==> {
            let day = old(manager).current_day;
            &&& final(manager).collected()
            &&& final(manager).current_day == day
            &&& final(manager).owned_count == owned_count(old(enterprises)@)
            &&& final(manager).today_total_income == income_sum(old(enterprises)@, day)
            &&& final(enterprises)@.len() == old(enterprises)@.len()
            &&& forall|i: int| 0 <= i < old(enterprises)@.len() ==> #[trigger] final(enterprises)@[i]
                == spec_collect_post(old(enterprises)@[i], day)
            &&& *final(wallet) == pay_incomes(*old(wallet), old(enterprises)@, day)
        },
{
    if !in_settlement_window {
        if manager.collected_this_cycle {
            manager.current_day = manager.current_day + 1;
            manager.collected_this_cycle = false;
        }
        return;
    }
    if manager.collected_this_cycle {
        return;
    }
    manager.collected_this_cycle = true;
    let current_day = manager.current_day;
    let mut daily_total: i32 = 0;
    let mut owned: u32 = 0;
    let mut i: usize = 0;
    let ghost es0 = enterprises@;
    let ghost w0 = *wallet;
    while i < enterprises.len()
        invariant
            0 <= i <= enterprises@.len(),
            enterprises@.len() == es0.len(),
            es0.len() <= u32::MAX,
            forall|j: int| 0 <= j < i ==> #[trigger] enterprises@[j] == spec_collect_post(es0[j], current_day),
            forall|j: int| i <= j < es0.len() ==> #[trigger] enterprises@[j] == es0[j],
            forall|j: int| 0 <= j < es0.len() ==> collect_fits(#[trigger] es0[j], current_day),
            forall|j: int| 0 <= j <= es0.len() ==> i32::MIN <= #[trigger] income_sum(es0.take(j), current_day) <= i32::MAX,
            daily_total == income_sum(es0.take(i as int), current_day),
            owned == owned_count(es0.take(i as int)),
            owned <= i,
            *wallet == pay_incomes(w0, es0.take(i as int), current_day),
        decreases enterprises@.len() - i,
    {
        assert(es0.take(i + 1).drop_last() =~= es0.take(i as int));
        assert(es0.take(i + 1).last() == es0[i as int]);
        assert(income_sum(es0.take(i + 1), current_day) == income_sum(es0.take(i as int), current_day)
            + spec_collect_amount(es0[i as int], current_day));
        assert(i32::MIN <= income_sum(es0.take(i + 1), current_day) <= i32::MAX);
        let mut e = enterprises[i];
        if e.owned {
            owned = owned + 1;
            let income = e.collect_income(current_day);
            if income != 0 {
                wallet.add_cash(income);
                daily_total = daily_total + income;
            }
        }
        enterprises.set(i, e);
        i = i + 1;
    }
    assert(es0.take(i as int) =~= es0);
    manager.owned_count = owned;
    manager.today_total_income = daily_total;
}

/// Hiring never takes a business past its staff limit, and hiring then firing
/// gives back the same business.
pub proof fn staff_stays_within_limit(e: Enterprise)
    requires
        e.employees <= spec_max_employees(e.enterprise_type),
    ensures
        spec_hire_post(e).employees <= spec_max_employees(e.enterprise_type),
        spec_fire_post(e).employees <= spec_max_employees(e.enterprise_type),
        can_hire(e) ==> spec_fire_post(spec_hire_post(e)) == e,
{
}

/// From no upgrade, exactly three upgrades reach the top level; together they
/// cost a quarter, a third and a half of the purchase price, and a fourth
/// upgrade is refused.
pub proof fn upgrade_path(e: Enterprise)
    requires
        e.owned,
        e.upgrade_level == UpgradeLevel::Base,
        e.total_expenses == 0,
    ensures
        ({
            let p = spec_purchase_price(e.enterprise_type);
            let e3 = spec_upgrade_post(spec_upgrade_post(spec_upgrade_post(e)));
            &&& e3.upgrade_level == UpgradeLevel::Premium
            &&& e3.total_expenses == p / 4 + p / 3 + p / 2
            &&& spec_upgrade_post(e3) == e3
            &&& spec_upgrade_cost(e3.upgrade_level, e3.enterprise_type) is None
        }),
{
}

/// On a new day an owned business pays its day's gross income less the
/// wages of its staff, and books those wages as expenses: what it pays
/// plus what it books equals the gross income (for the inputs on which
/// `collect_income` can run).
pub proof fn collect_pays_gross_less_wages(e: Enterprise, day: u32)
    requires
        e.owned,
        day > e.last_income_day,
        collect_fits(e, day),
    ensures
        spec_collect_amount(e, day) == spec_gross(e) - e.employees * spec_employee_salary(e.enterprise_type),
        spec_collect_amount(e, day) + (spec_collect_post(e, day).total_expenses - e.total_expenses) == spec_gross(e),
{
}

/// Income is paid at most once per day: collecting again on the same day (or
/// an earlier one) pays nothing and changes nothing.
pub proof fn collect_once_per_day(e: Enterprise, day: u32, later: u32)
    requires
        later <= day,
    ensures
        spec_collect_amount(spec_collect_post(e, day), later) == 0,
        spec_collect_post(spec_collect_post(e, day), later) == spec_collect_post(e, day),
{
}

/// More staff or a higher upgrade never lowers the gross income.
pub proof fn gross_income_monotone(e: Enterprise)
    ensures
        spec_gross(e) <= spec_gross(spec_hire_post(e)),
        spec_gross(e) <= spec_gross(spec_upgrade_post(e)),
        spec_gross(e) >= 0,
{
    let b = spec_base_daily_income(e.enterprise_type);
    let k = spec_employee_bonus(e.enterprise_type);
    let m = spec_income_multiplier(e.upgrade_level);
    let n = e.employees as int;
    if e.owned {
        assert(b * (100 + n * k) * m <= b * (100 + (n + 1) * k) * m) by (nonlinear_arith)
            requires
                b >= 0,
                k >= 0,
                m >= 0,
                n >= 0,
        ;
        assert(0 <= b * (100 + n * k) * m) by (nonlinear_arith)
            requires
                b >= 0,
                k >= 0,
                m >= 0,
                n >= 0,
        ;
        if e.upgrade_level != UpgradeLevel::Premium {
            let m2 = spec_income_multiplier(spec_next_level(e.upgrade_level)->0);
            assert(m <= m2);
            assert(b * (100 + n * k) * m <= b * (100 + n * k) * m2) by (nonlinear_arith)
                requires
                    b >= 0,
                    k >= 0,
                    m <= m2,
                    m >= 0,
                    n >= 0,
            ;
        }
        let x1 = b * (100 + n * k) * m;
        let x2 = b * (100 + (n + 1) * k) * m;
        assert(x1 / 10000 <= x2 / 10000) by (nonlinear_arith)
            requires
                x1 <= x2,
                x1 >= 0,
        ;
        if e.upgrade_level != UpgradeLevel::Premium {
            let m2 = spec_income_multiplier(spec_next_level(e.upgrade_level)->0);
            let x3 = b * (100 + n * k) * m2;
            assert(x1 / 10000 <= x3 / 10000) by (nonlinear_arith)
                requires
                    x1 <= x3,
                    x1 >= 0,
            ;
        }
        assert(x1 / 10000 >= 0) by (nonlinear_arith)
            requires
                x1 >= 0,
        ;
    }
}

} // verus!
