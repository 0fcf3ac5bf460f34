use vstd::prelude::*;

verus! {

/// Highest upgrade level a business can reach.
pub const MAX_UPGRADE_LEVEL: u8 = 3;

/// Seconds in one accrual day; also the claim cooldown without entitlement.
pub const EARNINGS_INTERVAL: i64 = 86400;

/// Claim fee, in percent of the gross amount.
pub const CLAIM_EARNINGS_FEE_PERCENT: u64 = 2;

/// Price of the auto-accrual entitlement, in lamports.
pub const AUTO_CLAIM_COST: u64 = 50_000_000;

/// Number of business slots of every player.
pub const MAX_REGULAR_SLOTS: usize = 9;

/// Denominator of every rate held in basis points.
pub const BASIS_POINTS: u64 = 10000;

/// The category of a slot: decides its fee, yield bonus and sell-fee discount.
#[derive(Clone, Copy, Debug, PartialEq, Eq, Structural)]
pub enum SlotType {
    Basic,
    Premium,
    VIP,
    Legendary,
}

/// One-time fee of each premium slot tier, in lamports.
pub open spec fn premium_slot_cost(t: SlotType) -> u64 {
    match t {
        SlotType::Basic => 0,
        SlotType::Premium => 1_000_000_000,
        SlotType::VIP => 2_000_000_000,
        SlotType::Legendary => 5_000_000_000,
    }
}

/// Yield bonus of each slot tier, in basis points.
pub open spec fn slot_yield_bonus(t: SlotType) -> u16 {
    match t {
        SlotType::Basic => 0,
        SlotType::Premium => 150,
        SlotType::VIP => 300,
        SlotType::Legendary => 500,
    }
}

/// Discount on the sell fee of each slot tier, in percent.
pub open spec fn slot_sell_fee_discount(t: SlotType) -> u8 {
    match t {
        SlotType::Basic => 0,
        SlotType::Premium => 0,
        SlotType::VIP => 50,
        SlotType::Legendary => 100,
    }
}

/// Cost of the upgrade to `level` (1 to 3), in percent of the base investment.
pub open spec fn upgrade_cost_multiplier(level: int) -> u64 {
    if level == 1 {
        20
    } else if level == 2 {
        50
    } else {
        100
    }
}

/// The configured fee of a premium slot tier.
pub fn premium_slot_cost_of(t: SlotType) -> (r: u64)
    ensures
        r == premium_slot_cost(t),
{
    match t {
        SlotType::Basic => 0,
        SlotType::Premium => 1_000_000_000,
        SlotType::VIP => 2_000_000_000,
        SlotType::Legendary => 5_000_000_000,
    }
}

/// The configured yield bonus of a slot tier.
pub fn slot_yield_bonus_of(t: SlotType) -> (r: u16)
    ensures
        r == slot_yield_bonus(t),
        r <= 500,
{
    match t {
        SlotType::Basic => 0,
        SlotType::Premium => 150,
        SlotType::VIP => 300,
        SlotType::Legendary => 500,
    }
}

/// The configured sell-fee discount of a slot tier.
pub fn slot_sell_fee_discount_of(t: SlotType) -> (r: u8)
    ensures
        r == slot_sell_fee_discount(t),
{
    match t {
        SlotType::Basic => 0,
        SlotType::Premium => 0,
        SlotType::VIP => 50,
        SlotType::Legendary => 100,
    }
}

/// The configured cost multiplier of the upgrade to `level`.
pub fn upgrade_cost_multiplier_of(level: u8) -> (r: u64)
    requires
        1 <= level <= MAX_UPGRADE_LEVEL,
    ensures
        r == upgrade_cost_multiplier(level as int),
        r <= 100,
{
    if level == 1 {
        20
    } else if level == 2 {
        50
    } else {
        100
    }
}

} // verus!
