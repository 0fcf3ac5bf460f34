use vstd::prelude::*;
use crate::config::{
    MAX_UPGRADE_LEVEL, EARNINGS_INTERVAL, BASIS_POINTS, upgrade_cost_multiplier,
    upgrade_cost_multiplier_of,
};
use crate::error::GameError;
use vstd::array::spec_array_update;
use vstd::arithmetic::div_mod::lemma_div_is_ordered;
use vstd::arithmetic::mul::lemma_mul_inequality;

verus! {

/// Kind of business; fixes its base cost and its daily yield rate.
#[derive(Clone, Copy, Debug, PartialEq, Eq, Structural)]
pub enum BusinessType {
    TobaccoShop,
    FuneralService,
    CarWorkshop,
    ItalianRestaurant,
    GentlemenClub,
    CharityFund,
}

/// Position of each business type in the configuration tables.
pub open spec fn type_index(t: BusinessType) -> int {
    match t {
        BusinessType::TobaccoShop => 0,
        BusinessType::FuneralService => 1,
        BusinessType::CarWorkshop => 2,
        BusinessType::ItalianRestaurant => 3,
        BusinessType::GentlemenClub => 4,
        BusinessType::CharityFund => 5,
    }
}

/// Minimum deposit of each business type, in lamports.
pub open spec fn base_cost(t: BusinessType) -> u64 {
    match t {
        BusinessType::TobaccoShop => 100_000_000,
        BusinessType::FuneralService => 500_000_000,
        BusinessType::CarWorkshop => 2_000_000_000,
        BusinessType::ItalianRestaurant => 100_000_000,
        BusinessType::GentlemenClub => 500_000_000,
        BusinessType::CharityFund => 2_000_000_000,
    }
}

/// Daily yield rate of each business type, in basis points.
pub open spec fn base_rate(t: BusinessType) -> u16 {
    match t {
        BusinessType::TobaccoShop => 80,
        BusinessType::FuneralService => 90,
        BusinessType::CarWorkshop => 100,
        BusinessType::ItalianRestaurant => 110,
        BusinessType::GentlemenClub => 130,
        BusinessType::CharityFund => 150,
    }
}

impl BusinessType {
    pub fn to_index(&self) -> (r: usize)
        ensures
            r == type_index(*self),
    {
        match self {
            BusinessType::TobaccoShop => 0,
            BusinessType::FuneralService => 1,
            BusinessType::CarWorkshop => 2,
            BusinessType::ItalianRestaurant => 3,
            BusinessType::GentlemenClub => 4,
            BusinessType::CharityFund => 5,
        }
    }

    pub fn from_index(index: u8) -> (r: Option<BusinessType>)
        ensures
            index < 6 <==> r is Some,
            r matches Some(t) ==> type_index(t) == index,
    {
        match index {
            0 => Some(BusinessType::TobaccoShop),
            1 => Some(BusinessType::FuneralService),
            2 => Some(BusinessType::CarWorkshop),
            3 => Some(BusinessType::ItalianRestaurant),
            4 => Some(BusinessType::GentlemenClub),
            5 => Some(BusinessType::CharityFund),
            _ => None,
        }
    }

    /// Minimum deposit of this business type.
    pub fn get_base_cost(&self) -> (r: u64)
        ensures
            r == base_cost(*self),
    {
        match self {
            BusinessType::TobaccoShop => 100_000_000,
            BusinessType::FuneralService => 500_000_000,
            BusinessType::CarWorkshop => 2_000_000_000,
            BusinessType::ItalianRestaurant => 100_000_000,
            BusinessType::GentlemenClub => 500_000_000,
            BusinessType::CharityFund => 2_000_000_000,
        }
    }

    /// Daily yield rate of this business type.
    pub fn get_base_rate(&self) -> (r: u16)
        ensures
            r == base_rate(*self),
            r <= BASIS_POINTS,
    {
        match self {
            BusinessType::TobaccoShop => 80,
            BusinessType::FuneralService => 90,
            BusinessType::CarWorkshop => 100,
            BusinessType::ItalianRestaurant => 110,
            BusinessType::GentlemenClub => 130,
            BusinessType::CharityFund => 150,
        }
    }
}

/// The compact 32-bit form of a unix time: the low 32 bits of a positive
/// time, with 0 kept free to mean "unset" (non-positive times and times whose
/// low bits are 0 become 1).
pub open spec fn compact_time(t: int) -> u32 {
    if t <= 0 || t % 0x1_0000_0000 == 0 {
        1
    } else {
        (t % 0x1_0000_0000) as u32
    }
}

/// `x` limited to what a `u64` can hold.
pub open spec fn clamp_u64(x: int) -> int {
    if x > u64::MAX {
        u64::MAX as int
    } else {
        x
    }
}

/// Sum of the first `n` recorded upgrade costs.
pub open spec fn upgrade_sum(history: [u64; 3], n: int) -> int
    decreases n,
{
    if n <= 0 {
        0
    } else {
        upgrade_sum(history, n - 1) + history[n - 1]
    }
}

/// One business's investment, yield and upgrade record.
#[derive(Clone, Copy, Debug)]
pub struct Business {
    pub business_type: BusinessType,
    /// Investment without upgrades.
    pub base_invested_amount: u64,
    /// Investment with every upgrade applied.
    pub total_invested_amount: u64,
    /// Daily yield rate in basis points; the same at every level.
    pub daily_rate: u16,
    pub upgrade_level: u8,
    /// Cost paid for the upgrade to level `i + 1`, at index `i`.
    pub upgrade_history: [u64; 3],
    pub total_earned: u64,
    /// Unused; kept so that stored records keep their layout.
    pub last_claim: i64,
    pub created_at: i64,
    pub is_active: bool,
    /// Compact time of purchase.
    pub purchased_at: u32,
    /// Compact time of the latest claim, if any.
    pub last_claim_at: Option<u32>,
}

impl Business {
    /// The record's invariant: the level is in range, the total investment
    /// is the base plus the recorded upgrade costs, and the rate is the type's.
    pub open spec fn wf(&self) -> bool {
        &&& self.upgrade_level <= MAX_UPGRADE_LEVEL
        &&& self.total_invested_amount == self.base_invested_amount + upgrade_sum(
            self.upgrade_history,
            self.upgrade_level as int,
        )
        &&& self.daily_rate == base_rate(self.business_type)
    }

    /// Start of the current accrual window, as a compact time.
    pub open spec fn start_time(&self) -> u32 {
        match self.last_claim_at {
            Some(t) => if t >= self.purchased_at { t } else { self.purchased_at },
            None => self.purchased_at,
        }
    }

    /// Yield of one full day: investment times rate, truncated.
    pub open spec fn daily(&self) -> int {
        clamp_u64(self.total_invested_amount * self.daily_rate / BASIS_POINTS as int)
    }

    /// Yield over `seconds` of activity, pro rata of the daily yield.
    pub open spec fn period_earnings(&self, seconds: int) -> int {
        if !self.is_active || seconds <= 0 {
            0
        } else {
            clamp_u64(self.daily() * seconds / EARNINGS_INTERVAL as int)
        }
    }

    /// What has accrued between the start of the window and `now`.
    pub open spec fn claimable(&self, now: int) -> int {
        self.period_earnings(now - self.start_time())
    }

    /// The record after its claim time is stamped at `now`.
    pub open spec fn stamped(&self, now: int) -> Business {
        Business { last_claim_at: Some(compact_time(now)), ..*self }
    }

    /// Whether an upgrade to `new_level` at `cost` goes through.
    pub open spec fn upgrade_outcome(&self, new_level: u8, cost: u64) -> Result<(), GameError> {
        if self.upgrade_level >= MAX_UPGRADE_LEVEL || new_level != self.upgrade_level + 1 {
            Err(GameError::InvalidLevel)
        } else if self.total_invested_amount + cost > u64::MAX {
            Err(GameError::Overflow)
        } else {
            Ok(())
        }
    }

    /// The record after an upgrade to `new_level` at `cost` went through.
    pub open spec fn upgraded(&self, new_level: u8, cost: u64) -> Business {
        Business {
            upgrade_history: spec_array_update(self.upgrade_history, new_level - 1, cost),
            total_invested_amount: (self.total_invested_amount + cost) as u64,
            daily_rate: base_rate(self.business_type),
            upgrade_level: new_level,
            ..*self
        }
    }
}

/// Two cost tables that agree on their first `n` entries have the same sum there.
pub proof fn lemma_upgrade_sum_prefix(a: [u64; 3], b: [u64; 3], n: int)
    requires
        0 <= n <= 3,
        forall|i: int| 0 <= i < n ==> a[i] == b[i],
    ensures
        upgrade_sum(a, n) == upgrade_sum(b, n),
    decreases n,
{
    if n > 0 {
        lemma_upgrade_sum_prefix(a, b, n - 1);
    }
}

/// The compact form of a unix time.
pub fn compact_from_timestamp(timestamp: i64) -> (r: u32)
    ensures
        r == compact_time(timestamp as int),
        r >= 1,
{
    if timestamp <= 0 {
        1
    } else {
        let low: u32 = (timestamp % 0x1_0000_0000i64) as u32;
        if low == 0 {
            1
        } else {
            low
        }
    }
}

impl Business {
    /// Compact form of a unix time; 0 is never produced.
    pub fn timestamp_to_u32(timestamp: i64) -> (r: u32)
        ensures
            r == compact_time(timestamp as int),
            r >= 1,
    {
        compact_from_timestamp(timestamp)
    }

    /// Unix time of a compact time (0, "unset", stays 0).
    pub fn u32_to_timestamp(compact_time: u32) -> (r: i64)
        ensures
            r == compact_time as int,
    {
        if compact_time == 0 {
            0
        } else {
            compact_time as i64
        }
    }

    /// A new business at level 0, bought at `current_time`.
    pub fn new(business_type: BusinessType, base_amount: u64, current_time: i64) -> (r: Business)
        ensures
            r == (Business {
                business_type,
                base_invested_amount: base_amount,
                total_invested_amount: base_amount,
                daily_rate: base_rate(business_type),
                upgrade_level: 0,
                upgrade_history: r.upgrade_history,
                total_earned: 0,
                last_claim: 0,
                created_at: current_time,
                is_active: true,
                purchased_at: compact_time(current_time as int),
                last_claim_at: None,
            }),
            r.upgrade_history@ == seq![0u64, 0u64, 0u64],
            r.wf(),
    {
        let base_rate = business_type.get_base_rate();
        let current_time_u32 = Self::timestamp_to_u32(current_time);
        let r = Business {
            business_type,
            base_invested_amount: base_amount,
            total_invested_amount: base_amount,
            daily_rate: base_rate,
            upgrade_level: 0,
            upgrade_history: [0, 0, 0],
            total_earned: 0,
            last_claim: 0,
            created_at: current_time,
            is_active: true,
            purchased_at: current_time_u32,
            last_claim_at: None,
        };
        assert(r.upgrade_history@ =~= seq![0u64, 0u64, 0u64]);
        r
    }

    /// Raises the level by one, recording `upgrade_cost` and adding it to the
    /// investment; the rate stays the type's.
    pub fn apply_upgrade(&mut self, new_level: u8, upgrade_cost: u64) -> (r: Result<(), GameError>)
        ensures
            r == old(self).upgrade_outcome(new_level, upgrade_cost),
            r is Ok ==> *final(self) == old(self).upgraded(new_level, upgrade_cost),
            r is Err ==> *final(self) == *old(self),
            old(self).wf() ==> final(self).wf(),
    {
        if self.upgrade_level >= MAX_UPGRADE_LEVEL || new_level != self.upgrade_level + 1 {
            return Err(GameError::InvalidLevel);
        }
        proof {
            if self.wf() && self.upgrade_outcome(new_level, upgrade_cost) is Ok {
                lemma_upgrade_keeps_ledger_sum(*self, new_level, upgrade_cost);
            }
        }
        let total = match self.total_invested_amount.checked_add(upgrade_cost) {
            Some(t) => t,
            None => return Err(GameError::Overflow),
        };
        self.upgrade_history[(new_level - 1) as usize] = upgrade_cost;
        self.total_invested_amount = total;
        self.daily_rate = self.business_type.get_base_rate();
        self.upgrade_level = new_level;
        Ok(())
    }

    /// A new business already raised, one level after another, to
    /// `target_level`, the upgrade to level `i + 1` costing `upgrade_costs[i]`.
    pub fn create_upgraded(
        business_type: BusinessType,
        base_amount: u64,
        target_level: u8,
        upgrade_costs: [u64; 3],
        current_time: i64,
    ) -> (r: Result<Business, GameError>)
        ensures
            target_level > MAX_UPGRADE_LEVEL ==> r == Err::<Business, GameError>(
                GameError::InvalidLevel,
            ),
            target_level <= MAX_UPGRADE_LEVEL ==> (r is Err <==> base_amount + upgrade_sum(
                upgrade_costs,
                target_level as int,
            ) > u64::MAX),
            r is Err ==> r == Err::<Business, GameError>(GameError::InvalidLevel) || r == Err::<
                Business,
                GameError,
            >(GameError::Overflow),
            r matches Ok(b) ==> {
                &&& b.wf()
                &&& b.business_type == business_type
                &&& b.base_invested_amount == base_amount
                &&& b.total_invested_amount == base_amount + upgrade_sum(
                    upgrade_costs,
                    target_level as int,
                )
                &&& b.daily_rate == base_rate(business_type)
                &&& b.upgrade_level == target_level
                &&& forall|i: int| 0 <= i < target_level ==> b.upgrade_history[i] == upgrade_costs[i]
                &&& forall|i: int| target_level <= i < 3 ==> b.upgrade_history[i] == 0
                &&& b.total_earned == 0
                &&& b.created_at == current_time
                &&& b.is_active
                &&& b.purchased_at == compact_time(current_time as int)
                &&& b.last_claim_at is None
            },
    {
        if target_level > MAX_UPGRADE_LEVEL {
            return Err(GameError::InvalidLevel);
        }
        let mut business = Self::new(business_type, base_amount, current_time);
        let mut level: u8 = 1;
        while level <= target_level
            invariant
                1 <= level <= target_level + 1,
                target_level <= MAX_UPGRADE_LEVEL,
                business.wf(),
                business.upgrade_level == level - 1,
                business.business_type == business_type,
                business.base_invested_amount == base_amount,
                business.total_invested_amount == base_amount + upgrade_sum(
                    upgrade_costs,
                    level - 1,
                ),
                forall|i: int| 0 <= i < level - 1 ==> business.upgrade_history[i] == upgrade_costs[i],
                forall|i: int| level - 1 <= i < 3 ==> business.upgrade_history[i] == 0,
                business.total_earned == 0,
                business.created_at == current_time,
                business.is_active,
                business.purchased_at == compact_time(current_time as int),
                business.last_claim_at is None,
            decreases target_level + 1 - level,
        {
            let ghost prev = business;
            let upgrade_cost = upgrade_costs[(level - 1) as usize];
            match business.apply_upgrade(level, upgrade_cost) {
                Ok(()) => {},
                Err(e) => {
                    proof {
                        lemma_upgrade_sum_monotone(upgrade_costs, level as int, target_level as int);
                    }
                    return Err(e);
                },
            }
            proof {
                lemma_upgrade_sum_prefix(business.upgrade_history, upgrade_costs, level as int);
            }
            level = level + 1;
        }
        proof {
            lemma_upgrade_sum_prefix(business.upgrade_history, upgrade_costs, target_level as int);
        }
        Ok(business)
    }
}

/// The sum of recorded costs grows with the number of entries summed.
pub proof fn lemma_upgrade_sum_monotone(a: [u64; 3], m: int, n: int)
    requires
        0 <= m <= n,
    ensures
        upgrade_sum(a, m) <= upgrade_sum(a, n),
    decreases n,
{
    if n > m {
        lemma_upgrade_sum_monotone(a, m, n - 1);
    }
}

impl Business {
    /// Cost of the next upgrade: the base investment times the next level's
    /// multiplier, in percent; none at the maximum level.
    pub fn calculate_next_upgrade_cost(&self) -> (r: Option<u64>)
        ensures
            self.upgrade_level >= MAX_UPGRADE_LEVEL ==> r is None,
            self.upgrade_level < MAX_UPGRADE_LEVEL ==> (r matches Some(c) && c
                == self.base_invested_amount * upgrade_cost_multiplier(self.upgrade_level + 1)
                / 100),
    {
        if self.upgrade_level >= MAX_UPGRADE_LEVEL {
            return None;
        }
        let multiplier = upgrade_cost_multiplier_of(self.upgrade_level + 1);
        let base = self.base_invested_amount;
        proof {
            assert((base as int) * (multiplier as int) <= (base as int) * 100) by (nonlinear_arith)
                requires multiplier <= 100;
        }
        let cost = (base as u128) * (multiplier as u128) / 100;
        Some(cost as u64)
    }

    /// Whether another upgrade is possible.
    pub fn can_upgrade(&self) -> (r: bool)
        ensures
            r == (self.upgrade_level < MAX_UPGRADE_LEVEL && self.is_active),
    {
        self.upgrade_level < MAX_UPGRADE_LEVEL && self.is_active
    }

    /// The value a sale refunds against: the base plus every upgrade.
    pub fn get_total_investment_for_refund(&self) -> (r: u64)
        ensures
            r == self.total_invested_amount,
    {
        self.total_invested_amount
    }

    /// The configured cost of the upgrade to `target_level`.
    pub fn get_upgrade_cost(&self, target_level: u8) -> (r: Result<u64, GameError>)
        ensures
            (target_level <= self.upgrade_level || target_level > MAX_UPGRADE_LEVEL) ==> r
                == Err::<u64, GameError>(GameError::InvalidLevel),
            (self.upgrade_level < target_level <= MAX_UPGRADE_LEVEL) ==> r == if self.base_invested_amount
                * upgrade_cost_multiplier(target_level as int) > u64::MAX {
                Err::<u64, GameError>(GameError::Overflow)
            } else {
                Ok::<u64, GameError>(
                    (self.base_invested_amount * upgrade_cost_multiplier(target_level as int)
                        / 100) as u64,
                )
            },
    {
        if target_level <= self.upgrade_level || target_level > MAX_UPGRADE_LEVEL {
            return Err(GameError::InvalidLevel);
        }
        let multiplier = upgrade_cost_multiplier_of(target_level);
        match self.base_invested_amount.checked_mul(multiplier) {
            Some(x) => Ok(x / 100),
            None => Err(GameError::Overflow),
        }
    }

    /// The next upgrade, accepted only at its configured cost.
    pub fn upgrade_to_level(&mut self, target_level: u8, upgrade_cost: u64) -> (r: Result<
        (),
        GameError,
    >)
        ensures
            r is Ok ==> *final(self) == old(self).upgraded(target_level, upgrade_cost),
            r is Err ==> *final(self) == *old(self),
            r is Ok <==> {
                &&& old(self).upgrade_outcome(target_level, upgrade_cost) is Ok
                &&& old(self).base_invested_amount * upgrade_cost_multiplier(target_level as int)
                    <= u64::MAX
                &&& upgrade_cost == old(self).base_invested_amount * upgrade_cost_multiplier(
                    target_level as int,
                ) / 100
            },
            (old(self).upgrade_level >= MAX_UPGRADE_LEVEL || target_level != old(self).upgrade_level
                + 1) ==> r == Err::<(), GameError>(GameError::InvalidLevel),
            old(self).wf() ==> final(self).wf(),
    {
        if self.upgrade_level >= MAX_UPGRADE_LEVEL || target_level != self.upgrade_level + 1 {
            return Err(GameError::InvalidLevel);
        }
        let expected_cost = match self.get_upgrade_cost(target_level) {
            Ok(c) => c,
            Err(e) => return Err(e),
        };
        if upgrade_cost != expected_cost {
            return Err(GameError::InvalidCost);
        }
        self.apply_upgrade(target_level, upgrade_cost)
    }

    /// Yield of one full day.
    pub fn calculate_daily_earnings(&self) -> (r: u64)
        ensures
            r == self.daily(),
    {
        let total = self.total_invested_amount as u128;
        let rate = self.daily_rate as u128;
        proof {
            assert(total * rate <= 0xFFFF_FFFF_FFFF_FFFFu128 * 0xFFFFu128) by (nonlinear_arith)
                requires total <= 0xFFFF_FFFF_FFFF_FFFFu128, rate <= 0xFFFFu128;
        }
        let earnings = total * rate / 10000;
        if earnings > u64::MAX as u128 {
            u64::MAX
        } else {
            earnings as u64
        }
    }

    /// Adds to the lifetime earnings of this business, refusing to wrap.
    pub fn add_to_total_earned(&mut self, amount: u64) -> (r: Result<(), GameError>)
        ensures
            r is Ok <==> old(self).total_earned + amount <= u64::MAX,
            r is Err ==> r == Err::<(), GameError>(GameError::Overflow) && *final(self)
                == *old(self),
            r is Ok ==> *final(self) == (Business {
                total_earned: (old(self).total_earned + amount) as u64,
                ..*old(self)
            }),
    {
        match self.total_earned.checked_add(amount) {
            Some(t) => {
                self.total_earned = t;
                Ok(())
            },
            None => Err(GameError::Overflow),
        }
    }

    /// Whole days since creation; 0 before it.
    pub fn days_since_created(&self, current_time: i64) -> (r: u64)
        ensures
            current_time <= self.created_at ==> r == 0,
            current_time > self.created_at ==> r == (current_time - self.created_at) / (
            EARNINGS_INTERVAL as int),
    {
        if current_time <= self.created_at {
            return 0;
        }
        let diff = (current_time as i128) - (self.created_at as i128);
        (diff / 86_400) as u64
    }

    /// Yield over `seconds` of activity: the daily yield pro rata, computed
    /// wide and clamped to a `u64`; 0 when inactive or for no time.
    pub fn calculate_earnings_for_period(&self, seconds: i64) -> (r: u64)
        ensures
            r == self.period_earnings(seconds as int),
    {
        if !self.is_active || seconds <= 0 {
            return 0;
        }
        let daily = self.calculate_daily_earnings() as u128;
        let secs = seconds as u128;
        proof {
            assert(daily * secs <= 0xFFFF_FFFF_FFFF_FFFFu128 * 0x7FFF_FFFF_FFFF_FFFFu128)
                by (nonlinear_arith)
                requires daily <= 0xFFFF_FFFF_FFFF_FFFFu128, secs <= 0x7FFF_FFFF_FFFF_FFFFu128;
        }
        let total = daily * secs / 86_400;
        if total > u64::MAX as u128 {
            u64::MAX
        } else {
            total as u64
        }
    }

    /// Whether the record is consistent at time `current_time`.
    pub open spec fn healthy(&self, current_time: int) -> bool {
        &&& self.created_at <= current_time
        &&& self.purchased_at <= current_time
        &&& match self.last_claim_at {
            Some(t) => t <= current_time && t >= self.purchased_at,
            None => true,
        }
        &&& self.daily_rate <= BASIS_POINTS
        &&& self.upgrade_level <= MAX_UPGRADE_LEVEL
        &&& self.total_invested_amount >= self.base_invested_amount
    }

    /// Checks the record's consistency at `current_time`.
    pub fn health_check(&self, current_time: i64) -> (r: Result<(), GameError>)
        ensures
            r is Ok <==> self.healthy(current_time as int),
            r is Err ==> r == Err::<(), GameError>(GameError::InvalidState),
    {
        if self.created_at > current_time {
            return Err(GameError::InvalidState);
        }
        if Self::u32_to_timestamp(self.purchased_at) > current_time {
            return Err(GameError::InvalidState);
        }
        if let Some(last_claim_time) = self.last_claim_at {
            if Self::u32_to_timestamp(last_claim_time) > current_time {
                return Err(GameError::InvalidState);
            }
            if Self::u32_to_timestamp(last_claim_time) < Self::u32_to_timestamp(self.purchased_at) {
                return Err(GameError::InvalidState);
            }
        }
        if self.daily_rate as u64 > BASIS_POINTS {
            return Err(GameError::InvalidState);
        }
        if self.upgrade_level > MAX_UPGRADE_LEVEL {
            return Err(GameError::InvalidState);
        }
        if self.total_invested_amount < self.base_invested_amount {
            return Err(GameError::InvalidState);
        }
        Ok(())
    }

    /// Start of the current accrual window.
    pub fn get_earnings_start_time(&self) -> (r: u32)
        ensures
            r == self.start_time(),
    {
        match self.last_claim_at {
            Some(last_claim) => if last_claim >= self.purchased_at {
                last_claim
            } else {
                self.purchased_at
            },
            None => self.purchased_at,
        }
    }

    /// Stamps a claim at `current_time`.
    pub fn update_claim_time(&mut self, current_time: i64)
        ensures
            *final(self) == old(self).stamped(current_time as int),
    {
        self.last_claim_at = Some(Self::timestamp_to_u32(current_time));
    }

    /// What has accrued since the start of the window, for an entitled owner.
    pub fn calculate_claimable_earnings(&self, current_time: i64) -> (r: u64)
        ensures
            r == self.claimable(current_time as int),
            current_time <= self.start_time() ==> r == 0,
    {
        let earnings_start = Self::u32_to_timestamp(self.get_earnings_start_time());
        if current_time <= earnings_start {
            return 0;
        }
        self.calculate_earnings_for_period(current_time - earnings_start)
    }

    /// A full day's yield whatever the time, for an owner without entitlement;
    /// 0 when inactive.
    pub fn calculate_full_daily_earnings_if_active(&self) -> (r: u64)
        ensures
            r == if self.is_active {
                self.daily()
            } else {
                0
            },
    {
        if !self.is_active {
            return 0;
        }
        self.calculate_daily_earnings()
    }
}

/// An upgrade from level `L` to `L + 1` leaves the daily rate as it was and
/// raises the total investment by exactly the upgrade's cost.
pub proof fn lemma_upgrade_keeps_rate(b: Business, new_level: u8, cost: u64)
    requires
        b.wf(),
        b.upgrade_outcome(new_level, cost) is Ok,
    ensures
        b.upgraded(new_level, cost).daily_rate == b.daily_rate,
        b.upgraded(new_level, cost).total_invested_amount == b.total_invested_amount + cost,
        b.upgraded(new_level, cost).upgrade_level == b.upgrade_level + 1,
{
}

/// Every accepted upgrade keeps the total investment equal to the base plus
/// the costs recorded for the levels reached, so any sequence of accepted
/// upgrades from a new business does.
pub proof fn lemma_upgrade_keeps_ledger_sum(b: Business, new_level: u8, cost: u64)
    requires
        b.wf(),
        b.upgrade_outcome(new_level, cost) is Ok,
    ensures
        b.upgraded(new_level, cost).wf(),
        b.upgraded(new_level, cost).total_invested_amount == b.base_invested_amount
            + upgrade_sum(b.upgraded(new_level, cost).upgrade_history, new_level as int),
{
    let n = b.upgraded(new_level, cost);
    assert(n.upgrade_history@ == b.upgrade_history@.update(new_level - 1, cost));
    lemma_upgrade_sum_prefix(b.upgrade_history, n.upgrade_history, b.upgrade_level as int);
}

/// Yield over a period grows with the period.
pub proof fn lemma_period_earnings_monotone(b: Business, s1: int, s2: int)
    requires
        s1 <= s2,
    ensures
        b.period_earnings(s1) <= b.period_earnings(s2),
{
    if b.is_active && s1 > 0 {
        lemma_mul_inequality(s1, s2, b.daily());
        assert(b.daily() * s1 == s1 * b.daily()) by (nonlinear_arith);
        assert(b.daily() * s2 == s2 * b.daily()) by (nonlinear_arith);
        lemma_div_is_ordered(b.daily() * s1, b.daily() * s2, EARNINGS_INTERVAL as int);
    }
}

/// Nothing is claimable up to the start of the accrual window, and what is
/// claimable never decreases as time passes.
pub proof fn lemma_claimable_zero_then_monotone(b: Business, t1: int, t2: int)
    requires
        t1 <= t2,
    ensures
        t1 <= b.start_time() ==> b.claimable(t1) == 0,
        b.claimable(t1) <= b.claimable(t2),
{
    lemma_period_earnings_monotone(b, t1 - b.start_time(), t2 - b.start_time());
}

} // verus!
