use solana_mafia::business::{Business, BusinessType};
use solana_mafia::claim::{
    claim_earnings, create_player, health_check_player, purchase_auto_claim, split_claim,
};
use solana_mafia::config::{SlotType, AUTO_CLAIM_COST};
use solana_mafia::player::PlayerCompact;
use solana_mafia::slot::BusinessSlotCompact;
use solana_mafia::GameError;

const T0: i64 = 1_700_000_000;
const OWNER: [u8; 32] = [7u8; 32];

fn ledger() -> PlayerCompact {
    PlayerCompact::new(OWNER, 254, T0)
}

fn half_percent_business(now: i64) -> Business {
    let mut b = Business::new(BusinessType::TobaccoShop, 1_000_000, now);
    b.daily_rate = 300;
    b
}

#[test]
fn new_ledger_layout() {
    let p = ledger();
    assert_eq!(p.owner, OWNER);
    assert_eq!(p.bump, 254);
    assert_eq!(p.unlocked_slots_count, 9);
    assert_eq!(p.premium_slots_count, 3);
    assert!(!p.auto_claim_purchased);
    assert!(!p.has_paid_entry());
    assert_eq!(p.created_at, T0 as u32);
    for i in 0..9 {
        let s = &p.business_slots[i];
        assert!(s.is_unlocked());
        assert!(!s.has_business());
        assert_eq!(s.is_paid(), i < 3);
    }
    for i in 0..6 {
        assert_eq!(p.business_slots[i].slot_type(), SlotType::Basic);
    }
    assert_eq!(p.business_slots[6].slot_type(), SlotType::Premium);
    assert_eq!(p.business_slots[7].slot_type(), SlotType::VIP);
    assert_eq!(p.business_slots[8].slot_type(), SlotType::Legendary);
    assert_eq!(p.find_free_slot(), Some(0));
    assert_eq!(p.get_active_businesses_count(), 0);
    assert_eq!(p.health_check(T0), Ok(()));
}

#[test]
fn entitled_half_day_claim() {
    let mut p = ledger();
    assert_eq!(p.place_business_in_slot(0, half_percent_business(T0)), Ok(()));
    assert_eq!(p.purchase_auto_claim(), Ok(()));
    assert_eq!(p.calculate_total_claimable_earnings(T0 + 43_200), 15_000);
    let s = claim_earnings(&mut p, T0 + 43_200, u64::MAX).unwrap();
    assert_eq!(s.gross_amount, 15_000);
    assert_eq!(s.fee_amount, 300);
    assert_eq!(s.net_amount, 14_700);
    assert_eq!(p.total_earned, 15_000);
}

#[test]
fn fee_split_example() {
    let s = split_claim(15_000);
    assert_eq!(s.gross_amount, 15_000);
    assert_eq!(s.fee_amount, 300);
    assert_eq!(s.net_amount, 14_700);
    let t = split_claim(49);
    assert_eq!(t.fee_amount, 0);
    assert_eq!(t.net_amount, 49);
}

#[test]
fn entitled_claim_windows_meet() {
    let mut p = ledger();
    p.purchase_auto_claim().unwrap();
    p.place_business_in_slot(0, half_percent_business(T0)).unwrap();
    p.place_business_in_slot(4, half_percent_business(T0 + 1_000)).unwrap();
    let now1 = T0 + 30_000;
    let now2 = T0 + 72_000;
    let first = claim_earnings(&mut p, now1, u64::MAX).unwrap().gross_amount;
    // 30000 * 30000 / 86400 = 10416 and 30000 * 29000 / 86400 = 10069
    assert_eq!(first, 10_416 + 10_069);
    for i in [0usize, 4] {
        let b = p.business_slots[i].business.unwrap();
        assert_eq!(b.get_earnings_start_time(), now1 as u32);
    }
    let second = claim_earnings(&mut p, now2, u64::MAX).unwrap().gross_amount;
    // each business accrued over exactly now2 - now1 = 42000 seconds
    assert_eq!(second, 2 * (30_000u64 * 42_000 / 86_400));
    // one claim over the whole span would have paid the same per business
    let whole = half_percent_business(T0).calculate_claimable_earnings(now2);
    assert!(whole >= 10_416 + 30_000 * 42_000 / 86_400);
}

#[test]
fn cooldown_without_entitlement() {
    let mut p = ledger();
    p.place_business_in_slot(2, half_percent_business(T0)).unwrap();
    p.place_business_in_slot(5, half_percent_business(T0)).unwrap();
    assert!(p.can_claim_without_auto(T0));
    let first = claim_earnings(&mut p, T0, u64::MAX).unwrap();
    assert_eq!(first.gross_amount, 60_000);
    let before = p;
    assert!(!p.can_claim_without_auto(T0 + 86_399));
    assert_eq!(
        claim_earnings(&mut p, T0 + 86_399, u64::MAX),
        Err(GameError::ClaimTooEarly)
    );
    assert_eq!(p.total_earned, before.total_earned);
    assert_eq!(
        p.business_slots[2].business.unwrap().last_claim_at,
        Some(T0 as u32)
    );
    assert!(p.can_claim_without_auto(T0 + 86_400));
    let second = claim_earnings(&mut p, T0 + 86_400, u64::MAX).unwrap();
    assert_eq!(second.gross_amount, 60_000);
    assert_eq!(p.total_earned, 120_000);
}

#[test]
fn no_earnings_and_empty_treasury() {
    let mut p = ledger();
    p.purchase_auto_claim().unwrap();
    assert_eq!(claim_earnings(&mut p, T0, u64::MAX), Err(GameError::NoEarnings));
    p.place_business_in_slot(0, half_percent_business(T0)).unwrap();
    assert_eq!(claim_earnings(&mut p, T0, u64::MAX), Err(GameError::NoEarnings));
    assert_eq!(
        claim_earnings(&mut p, T0 + 86_400, 29_999),
        Err(GameError::InsufficientFunds)
    );
    assert_eq!(p.total_earned, 0);
    assert_eq!(p.business_slots[0].business.unwrap().last_claim_at, None);
    assert!(claim_earnings(&mut p, T0 + 86_400, 30_000).is_ok());
}

#[test]
fn resale_does_not_charge_the_slot_again() {
    let mut p = ledger();
    let price = BusinessType::FuneralService.get_base_cost();
    assert_eq!(p.get_slot_cost_for_business(3, price), 50_000_000);
    assert_eq!(p.pay_slot_if_needed(3, price), Ok(50_000_000));
    assert_eq!(p.total_slot_spent, 50_000_000);
    assert_eq!(p.business_slots[3].slot_cost_paid, 50_000_000);
    p.place_business_in_slot(3, Business::new(BusinessType::FuneralService, price, T0))
        .unwrap();
    let (sold, discount) = p.sell_business_from_slot(3).unwrap();
    assert_eq!(sold.total_invested_amount, price);
    assert_eq!(discount, 0);
    assert!(p.business_slots[3].is_paid());
    p.place_business_in_slot(3, Business::new(BusinessType::FuneralService, price, T0 + 5))
        .unwrap();
    assert!(p.business_slots[3].is_paid());
    assert_eq!(p.get_slot_cost_for_business(3, price), 0);
    assert_eq!(p.pay_slot_if_needed(3, price), Ok(0));
    assert_eq!(p.total_slot_spent, 50_000_000);
}

#[test]
fn premium_slot_fees_and_discounts() {
    let mut p = ledger();
    assert_eq!(p.get_slot_cost_for_business(6, 1), 1_000_000_000);
    assert_eq!(p.get_slot_cost_for_business(7, 1), 2_000_000_000);
    assert_eq!(p.get_slot_cost_for_business(8, 1), 5_000_000_000);
    assert_eq!(p.get_slot_cost_for_business(0, 1_000), 0);
    assert_eq!(p.get_slot_cost_for_business(9, 1_000), 0);
    assert_eq!(p.pay_slot_if_needed(8, 0), Ok(5_000_000_000));
    p.place_business_in_slot(8, Business::new(BusinessType::CharityFund, 10, T0)).unwrap();
    let (_, discount) = p.sell_business_from_slot(8).unwrap();
    assert_eq!(discount, 100);
    assert_eq!(p.business_slots[7].get_sell_fee_discount(), 50);
    assert_eq!(p.business_slots[6].get_yield_bonus(), 150);
}

#[test]
fn pay_slot_twice_is_refused() {
    let mut s = BusinessSlotCompact::new_basic_paid();
    assert_eq!(s.get_slot_cost(1_005), 100);
    assert_eq!(s.pay_slot(100), Ok(()));
    assert_eq!(s.pay_slot(100), Err(GameError::AlreadyPaid));
    assert_eq!(s.slot_cost_paid, 100);
    assert_eq!(s.get_slot_cost(1_005), 0);
}

#[test]
fn slot_flags_are_independent() {
    let mut s = BusinessSlotCompact::new_premium(SlotType::VIP, 2_000);
    assert!(s.is_paid());
    assert_eq!(s.slot_cost_paid, 2_000);
    s.set_has_business(true);
    s.set_unlocked(false);
    assert_eq!(s.slot_type(), SlotType::VIP);
    assert!(s.has_business());
    assert!(!s.is_unlocked());
    assert!(s.is_paid());
    s.set_paid(false);
    s.set_has_business(false);
    assert_eq!(s.slot_type(), SlotType::VIP);
    assert!(!s.is_paid());
    assert!(!s.has_business());
    let u = BusinessSlotCompact::new_premium_unpaid(SlotType::Legendary);
    assert_eq!(u.slot_type(), SlotType::Legendary);
    assert!(!u.is_paid());
    let f = BusinessSlotCompact::new_basic_free();
    assert!(f.is_paid());
    assert_eq!(f.slot_type(), SlotType::Basic);
}

#[test]
fn slot_bonus_applies_only_when_occupied() {
    let mut s = BusinessSlotCompact::new_premium_unpaid(SlotType::Premium);
    assert_eq!(s.calculate_earnings(10_000), 0);
    s.place_business(Business::new(BusinessType::TobaccoShop, 1, T0)).unwrap();
    assert_eq!(s.calculate_earnings(10_000), 10_150);
    assert_eq!(
        s.place_business(Business::new(BusinessType::TobaccoShop, 1, T0)),
        Err(GameError::SlotOccupied)
    );
    assert!(s.remove_business().is_some());
    assert!(s.remove_business().is_none());
    assert!(!s.has_business());
}

#[test]
fn purchase_twice_is_refused() {
    let mut p = ledger();
    assert_eq!(purchase_auto_claim(&mut p), Ok(AUTO_CLAIM_COST));
    let after_first = p;
    assert_eq!(purchase_auto_claim(&mut p), Err(GameError::AlreadyPurchased));
    assert_eq!(p.purchase_auto_claim(), Err(GameError::AlreadyPurchased));
    assert!(p.auto_claim_purchased);
    assert_eq!(format!("{:?}", p), format!("{:?}", after_first));
}

#[test]
fn slot_index_errors() {
    let mut p = ledger();
    let b = Business::new(BusinessType::TobaccoShop, 1, T0);
    assert_eq!(p.place_business_in_slot(9, b), Err(GameError::InvalidIndex));
    assert_eq!(p.sell_business_from_slot(9).unwrap_err(), GameError::InvalidIndex);
    assert_eq!(p.upgrade_business_in_slot(9, 5, b), Err(GameError::InvalidIndex));
    assert_eq!(p.pay_slot_if_needed(9, 5), Err(GameError::InvalidIndex));
    assert_eq!(p.sell_business_from_slot(1).unwrap_err(), GameError::SlotEmpty);
    assert_eq!(p.upgrade_business_in_slot(1, 5, b), Err(GameError::SlotEmpty));
    p.place_business_in_slot(1, b).unwrap();
    assert_eq!(p.place_business_in_slot(1, b), Err(GameError::SlotOccupied));
}

#[test]
fn upgrade_in_slot_replaces_the_record() {
    let mut p = ledger();
    p.place_business_in_slot(2, Business::new(BusinessType::TobaccoShop, 1_000, T0)).unwrap();
    let up = Business::create_upgraded(BusinessType::TobaccoShop, 1_000, 1, [200, 0, 0], T0)
        .unwrap();
    assert_eq!(p.upgrade_business_in_slot(2, 200, up), Ok(()));
    assert_eq!(p.total_upgrade_spent, 200);
    assert_eq!(p.business_slots[2].business.unwrap().total_invested_amount, 1_200);
    assert!(p.business_slots[2].has_business());
    p.total_upgrade_spent = u64::MAX - 1;
    assert_eq!(p.upgrade_business_in_slot(2, 200, up), Ok(()));
    assert_eq!(p.total_upgrade_spent, u64::MAX);
}

#[test]
fn occupancy_queries() {
    let mut p = ledger();
    for i in 0..9 {
        p.place_business_in_slot(i, Business::new(BusinessType::TobaccoShop, i as u64 + 1, T0))
            .unwrap();
    }
    assert_eq!(p.find_free_slot(), None);
    assert_eq!(p.get_active_businesses_count(), 9);
    p.sell_business_from_slot(4).unwrap();
    assert_eq!(p.find_free_slot(), Some(4));
    let all = p.get_all_businesses();
    let bases: Vec<u64> = all.iter().map(|b| b.base_invested_amount).collect();
    assert_eq!(bases, vec![1, 2, 3, 4, 6, 7, 8, 9]);
}

#[test]
fn frontend_view() {
    let mut p = ledger();
    p.place_business_in_slot(0, half_percent_business(T0)).unwrap();
    let d = p.get_frontend_data(T0 + 10);
    assert_eq!(d.wallet, OWNER);
    assert_eq!(d.claimable_earnings, 30_000);
    assert_eq!(d.businesses_count, 1);
    assert_eq!(d.active_businesses, 1);
    assert!(!d.auto_claim_purchased);
    assert!(d.can_claim);
    assert_eq!(p.get_claimable_amount(T0 + 10), Ok(30_000));
}

#[test]
fn claim_totals_saturate() {
    let mut p = ledger();
    p.purchase_auto_claim().unwrap();
    p.total_earned = u64::MAX - 10;
    p.place_business_in_slot(0, half_percent_business(T0)).unwrap();
    assert_eq!(p.process_claim(1_000, T0 + 5), Ok(()));
    assert_eq!(p.total_earned, u64::MAX);
    assert_eq!(p.business_slots[0].business.unwrap().last_claim_at, Some((T0 + 5) as u32));
}

#[test]
fn player_creation() {
    let p = create_player(&[0u8; 32], OWNER, 3, T0).unwrap();
    assert_eq!(p.owner, OWNER);
    assert!(p.has_paid_entry());
    let mut existing = [0u8; 32];
    existing[31] = 1;
    assert_eq!(create_player(&existing, OWNER, 3, T0).unwrap_err(), GameError::PlayerAlreadyExists);
    assert_eq!(health_check_player(&p, T0), Ok(()));
    let mut q = p;
    q.set_has_paid_entry(false);
    assert!(!q.has_paid_entry());
    assert_eq!(PlayerCompact::timestamp_to_u32(-1), 1);
    assert_eq!(PlayerCompact::u32_to_timestamp(9), 9);
}
