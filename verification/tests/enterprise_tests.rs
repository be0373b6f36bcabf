//! Enterprise ownership, staff, upgrades and income.

use island_rampage::economy::enterprise::{Enterprise, EnterpriseType, UpgradeLevel};

#[test]
fn enterprise_for_sale() {
    let e = Enterprise::for_sale(EnterpriseType::NightMarketStall);
    assert!(!e.owned);
    assert_eq!(e.employees, 0);
    assert_eq!(e.daily_gross_income(), 0); // 未購買
}

#[test]
fn enterprise_purchase_enables_income() {
    let mut e = Enterprise::for_sale(EnterpriseType::NightMarketStall);
    e.purchase();
    assert!(e.owned);
    assert_eq!(e.daily_gross_income(), 200); // 基礎收入
}

#[test]
fn enterprise_hire_employees() {
    let mut e = Enterprise::for_sale(EnterpriseType::NightMarketStall);
    e.purchase();

    assert!(e.hire_employee()); // 1/2
    assert!(e.hire_employee()); // 2/2
    assert!(!e.hire_employee()); // 已滿

    // 2 人 × 30% 加成 = 1.6x
    // 200 * 1.6 = 320
    assert_eq!(e.daily_gross_income(), 320);
    // 薪水：2 × 80 = 160
    assert_eq!(e.daily_salary(), 160);
    // 淨收入：320 - 160 = 160
    assert_eq!(e.daily_net_income(), 160);
}

#[test]
fn enterprise_fire_employee() {
    let mut e = Enterprise::for_sale(EnterpriseType::ConvenienceStore);
    e.purchase();
    e.hire_employee();
    e.hire_employee();

    assert!(e.fire_employee());
    assert_eq!(e.employees, 1);

    assert!(e.fire_employee());
    assert_eq!(e.employees, 0);

    assert!(!e.fire_employee()); // 已無員工
}

#[test]
fn enterprise_upgrade_levels() {
    let mut e = Enterprise::for_sale(EnterpriseType::BubbleTeaShop);
    e.purchase();

    let base = e.daily_gross_income();

    // 升級 1：裝潢（1.2x）
    let cost1 = e.try_upgrade();
    assert!(cost1.is_some());
    assert_eq!(e.upgrade_level, UpgradeLevel::Renovation);
    assert_eq!(e.daily_gross_income(), (base as f32 * 1.2) as i32);

    // 升級 2：設備（1.4x）
    let cost2 = e.try_upgrade();
    assert!(cost2.is_some());
    assert_eq!(e.upgrade_level, UpgradeLevel::Equipment);

    // 升級 3：頂級（1.7x）
    let cost3 = e.try_upgrade();
    assert!(cost3.is_some());
    assert_eq!(e.upgrade_level, UpgradeLevel::Premium);

    // 無法再升級
    assert!(e.try_upgrade().is_none());
}

#[test]
fn enterprise_collect_income() {
    let mut e = Enterprise::for_sale(EnterpriseType::Bar);
    e.purchase();

    let income = e.collect_income(1);
    assert_eq!(income, 1200); // 0 員工，無升級
    assert_eq!(e.last_income_day, 1);

    // 同一天再次結算 → 0
    let income2 = e.collect_income(1);
    assert_eq!(income2, 0);

    // 隔天結算
    let income3 = e.collect_income(2);
    assert_eq!(income3, 1200);
}

#[test]
fn enterprise_not_owned_no_hire() {
    let mut e = Enterprise::for_sale(EnterpriseType::Nightclub);
    assert!(!e.hire_employee()); // 未購買不能僱人
}

#[test]
fn enterprise_not_owned_no_upgrade() {
    let mut e = Enterprise::for_sale(EnterpriseType::Nightclub);
    assert!(e.try_upgrade().is_none());
}

#[test]
fn enterprise_days_to_roi() {
    let mut e = Enterprise::for_sale(EnterpriseType::NightMarketStall);
    e.purchase();
    // 購買價 15000，日淨收入 200
    // 15000 / 200 = 75 天
    assert_eq!(e.days_to_roi(), Some(75));
}

#[test]
fn enterprise_days_to_roi_with_employees() {
    let mut e = Enterprise::for_sale(EnterpriseType::ConvenienceStore);
    e.purchase();
    e.hire_employee();
    e.hire_employee();

    // 基礎 500，2 員工 × 20% = 1.4x → 700 毛收入
    // 薪水 2 × 100 = 200
    // 淨收入 500
    // 購買價 50000 / 500 = 100 天
    assert_eq!(e.daily_gross_income(), 700);
    assert_eq!(e.daily_net_income(), 500);
    assert_eq!(e.days_to_roi(), Some(100));
}

#[test]
fn upgrade_costs_scale_with_price() {
    let stall_cost = UpgradeLevel::Base.upgrade_cost(&EnterpriseType::NightMarketStall);
    let club_cost = UpgradeLevel::Base.upgrade_cost(&EnterpriseType::Nightclub);

    // 夜市攤位 15000 × 25% = 3750
    assert_eq!(stall_cost, Some(3750));
    // 夜店 250000 × 25% = 62500
    assert_eq!(club_cost, Some(62500));
}

#[test]
fn enterprise_type_labels() {
    assert_eq!(EnterpriseType::NightMarketStall.label(), "夜市攤位");
    assert_eq!(EnterpriseType::Nightclub.label(), "夜店");
}
