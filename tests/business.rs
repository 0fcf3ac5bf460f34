use solana_mafia::business::{Business, BusinessType};
use solana_mafia::GameError;

const T0: i64 = 1_700_000_000;

#[test]
fn new_business_starts_at_level_zero() {
    let b = Business::new(BusinessType::CarWorkshop, 2_000_000_000, T0);
    assert_eq!(b.base_invested_amount, 2_000_000_000);
    assert_eq!(b.total_invested_amount, 2_000_000_000);
    assert_eq!(b.daily_rate, BusinessType::CarWorkshop.get_base_rate());
    assert_eq!(b.upgrade_level, 0);
    assert_eq!(b.upgrade_history, [0, 0, 0]);
    assert_eq!(b.purchased_at, T0 as u32);
    assert_eq!(b.last_claim_at, None);
    assert!(b.is_active);
    assert_eq!(b.created_at, T0);
}

#[test]
fn business_type_tables() {
    assert_eq!(BusinessType::TobaccoShop.to_index(), 0);
    assert_eq!(BusinessType::CharityFund.to_index(), 5);
    assert!(matches!(BusinessType::from_index(3), Some(BusinessType::ItalianRestaurant)));
    assert!(BusinessType::from_index(6).is_none());
    assert_eq!(BusinessType::TobaccoShop.get_base_cost(), 100_000_000);
    assert_eq!(BusinessType::CarWorkshop.get_base_cost(), 2_000_000_000);
    assert!(BusinessType::CharityFund.get_base_rate() <= 10000);
}

#[test]
fn compact_time_encoding() {
    assert_eq!(Business::timestamp_to_u32(0), 1);
    assert_eq!(Business::timestamp_to_u32(-5), 1);
    assert_eq!(Business::timestamp_to_u32(1000), 1000);
    assert_eq!(Business::timestamp_to_u32(1i64 << 32), 1);
    assert_eq!(Business::timestamp_to_u32((1i64 << 32) + 5), 5);
    assert_eq!(Business::u32_to_timestamp(0), 0);
    assert_eq!(Business::u32_to_timestamp(77), 77);
}

#[test]
fn upgrade_keeps_rate_and_adds_cost() {
    let mut b = Business::new(BusinessType::FuneralService, 500_000, T0);
    let rate = b.daily_rate;
    assert_eq!(b.apply_upgrade(1, 1_234), Ok(()));
    assert_eq!(b.daily_rate, rate);
    assert_eq!(b.total_invested_amount, 501_234);
    assert_eq!(b.upgrade_level, 1);
    assert_eq!(b.upgrade_history, [1_234, 0, 0]);
}

#[test]
fn upgrade_sequence_keeps_ledger_sum() {
    let mut b = Business::new(BusinessType::GentlemenClub, 1_000, T0);
    assert_eq!(b.apply_upgrade(1, 10), Ok(()));
    assert_eq!(b.apply_upgrade(2, 20), Ok(()));
    assert_eq!(b.apply_upgrade(3, 30), Ok(()));
    let sum: u64 = b.upgrade_history[..b.upgrade_level as usize].iter().sum();
    assert_eq!(b.total_invested_amount, b.base_invested_amount + sum);
    assert_eq!(b.total_invested_amount, 1_060);
    assert_eq!(b.apply_upgrade(4, 40), Err(GameError::InvalidLevel));
}

#[test]
fn upgrade_out_of_order_is_refused() {
    let mut b = Business::new(BusinessType::TobaccoShop, 1_000, T0);
    assert_eq!(b.apply_upgrade(2, 10), Err(GameError::InvalidLevel));
    assert_eq!(b.apply_upgrade(0, 10), Err(GameError::InvalidLevel));
    assert_eq!(b.upgrade_level, 0);
    assert_eq!(b.total_invested_amount, 1_000);
}

#[test]
fn upgrade_overflow_leaves_record_unchanged() {
    let mut b = Business::new(BusinessType::TobaccoShop, u64::MAX - 5, T0);
    assert_eq!(b.apply_upgrade(1, 10), Err(GameError::Overflow));
    assert_eq!(b.upgrade_level, 0);
    assert_eq!(b.upgrade_history, [0, 0, 0]);
    assert_eq!(b.total_invested_amount, u64::MAX - 5);
}

#[test]
fn create_at_level_two() {
    let base = Business::new(BusinessType::ItalianRestaurant, 5_000, T0);
    let b = Business::create_upgraded(BusinessType::ItalianRestaurant, 5_000, 2, [100, 200, 400], T0)
        .unwrap();
    assert_eq!(b.total_invested_amount, 5_000 + 300);
    assert_eq!(b.upgrade_level, 2);
    assert_eq!(b.daily_rate, base.daily_rate);
    assert_eq!(b.daily_rate, BusinessType::ItalianRestaurant.get_base_rate());
    assert_eq!(b.upgrade_history, [100, 200, 0]);
}

#[test]
fn create_at_invalid_level() {
    let r = Business::create_upgraded(BusinessType::TobaccoShop, 5_000, 4, [1, 2, 3], T0);
    assert_eq!(r.unwrap_err(), GameError::InvalidLevel);
}

#[test]
fn create_at_level_overflow() {
    let r = Business::create_upgraded(BusinessType::TobaccoShop, u64::MAX - 10, 3, [5, 5, 5], T0);
    assert_eq!(r.unwrap_err(), GameError::Overflow);
}

#[test]
fn next_upgrade_cost_and_max_level() {
    let mut b = Business::new(BusinessType::TobaccoShop, 1_000, T0);
    assert_eq!(b.calculate_next_upgrade_cost(), Some(200));
    assert!(b.can_upgrade());
    assert_eq!(b.apply_upgrade(1, 200), Ok(()));
    assert_eq!(b.calculate_next_upgrade_cost(), Some(500));
    assert_eq!(b.apply_upgrade(2, 500), Ok(()));
    assert_eq!(b.calculate_next_upgrade_cost(), Some(1_000));
    assert_eq!(b.apply_upgrade(3, 1_000), Ok(()));
    assert_eq!(b.calculate_next_upgrade_cost(), None);
    assert!(!b.can_upgrade());
    assert_eq!(b.get_total_investment_for_refund(), 2_700);
}

#[test]
fn configured_upgrade_cost() {
    let b = Business::new(BusinessType::TobaccoShop, 1_000, T0);
    assert_eq!(b.get_upgrade_cost(1), Ok(200));
    assert_eq!(b.get_upgrade_cost(3), Ok(1_000));
    assert_eq!(b.get_upgrade_cost(0), Err(GameError::InvalidLevel));
    assert_eq!(b.get_upgrade_cost(4), Err(GameError::InvalidLevel));
    let big = Business::new(BusinessType::TobaccoShop, u64::MAX, T0);
    assert_eq!(big.get_upgrade_cost(1), Err(GameError::Overflow));
}

#[test]
fn upgrade_to_level_checks_cost() {
    let mut b = Business::new(BusinessType::TobaccoShop, 1_000, T0);
    assert_eq!(b.upgrade_to_level(1, 199), Err(GameError::InvalidCost));
    assert_eq!(b.upgrade_level, 0);
    assert_eq!(b.upgrade_to_level(2, 500), Err(GameError::InvalidLevel));
    assert_eq!(b.upgrade_to_level(1, 200), Ok(()));
    assert_eq!(b.total_invested_amount, 1_200);
}

#[test]
fn daily_and_half_day_earnings() {
    let mut b = Business::new(BusinessType::TobaccoShop, 1_000_000, T0);
    b.daily_rate = 300;
    assert_eq!(b.calculate_daily_earnings(), 30_000);
    assert_eq!(b.calculate_claimable_earnings(T0 + 43_200), 15_000);
    assert_eq!(b.calculate_earnings_for_period(86_400), 30_000);
    assert_eq!(b.calculate_earnings_for_period(0), 0);
    assert_eq!(b.calculate_full_daily_earnings_if_active(), 30_000);
    b.is_active = false;
    assert_eq!(b.calculate_full_daily_earnings_if_active(), 0);
    assert_eq!(b.calculate_earnings_for_period(86_400), 0);
}

#[test]
fn claimable_is_zero_then_grows() {
    let mut b = Business::new(BusinessType::CharityFund, 2_000_000_000, T0);
    b.update_claim_time(T0 + 100);
    assert_eq!(b.get_earnings_start_time(), (T0 + 100) as u32);
    assert_eq!(b.calculate_claimable_earnings(T0), 0);
    assert_eq!(b.calculate_claimable_earnings(T0 + 100), 0);
    let mut last = 0;
    for t in [T0 + 101, T0 + 1_000, T0 + 50_000, T0 + 86_500, T0 + 1_000_000] {
        let c = b.calculate_claimable_earnings(t);
        assert!(c >= last);
        last = c;
    }
    assert!(last > 0);
}

#[test]
fn earnings_start_is_later_of_claim_and_purchase() {
    let mut b = Business::new(BusinessType::TobaccoShop, 1_000, T0);
    assert_eq!(b.get_earnings_start_time(), T0 as u32);
    b.last_claim_at = Some((T0 - 50) as u32);
    assert_eq!(b.get_earnings_start_time(), T0 as u32);
}

#[test]
fn days_and_lifetime_earnings() {
    let mut b = Business::new(BusinessType::TobaccoShop, 1_000, T0);
    assert_eq!(b.days_since_created(T0 - 1), 0);
    assert_eq!(b.days_since_created(T0 + 86_400 * 3 + 5), 3);
    assert_eq!(b.add_to_total_earned(40), Ok(()));
    assert_eq!(b.total_earned, 40);
    assert_eq!(b.add_to_total_earned(u64::MAX), Err(GameError::Overflow));
    assert_eq!(b.total_earned, 40);
}

#[test]
fn business_health_check() {
    let mut b = Business::new(BusinessType::TobaccoShop, 1_000, T0);
    assert_eq!(b.health_check(T0), Ok(()));
    assert_eq!(b.health_check(T0 - 1), Err(GameError::InvalidState));
    b.last_claim_at = Some((T0 - 1) as u32);
    assert_eq!(b.health_check(T0 + 10), Err(GameError::InvalidState));
    b.last_claim_at = Some((T0 + 5) as u32);
    assert_eq!(b.health_check(T0 + 10), Ok(()));
    b.daily_rate = 10_001;
    assert_eq!(b.health_check(T0 + 10), Err(GameError::InvalidState));
}
