use vstd::prelude::*;
use crate::business::{Business, clamp_u64, compact_time};
use crate::config::{
    SlotType, EARNINGS_INTERVAL, MAX_REGULAR_SLOTS, slot_sell_fee_discount, slot_yield_bonus,
};
use crate::error::GameError;
use crate::slot::BusinessSlotCompact;

verus! {

broadcast use vstd::array::group_array_axioms;

/// Bit 0 of the player flags: the entry fee has been paid.
pub const HAS_PAID_ENTRY_FLAG: u32 = 0x01;

/// Identity of a ledger's owner: the 32 bytes of its public key.
pub type OwnerKey = [u8; 32];

/// What one slot contributes to a claim at `now`: the exact accrual of its
/// business for an entitled owner, a full day's yield otherwise, with the
/// slot's bonus.
pub open spec fn slot_claim(s: BusinessSlotCompact, entitled: bool, now: int) -> int {
    match s.business {
        Some(b) => s.applied(
            if entitled {
                b.claimable(now)
            } else if b.is_active {
                b.daily()
            } else {
                0
            },
        ),
        None => 0,
    }
}

/// Sum of what the first `n` slots contribute to a claim at `now`.
pub open spec fn claim_sum(slots: Seq<BusinessSlotCompact>, entitled: bool, now: int, n: int) -> int
    decreases n,
{
    if n <= 0 {
        0
    } else {
        claim_sum(slots, entitled, now, n - 1) + slot_claim(slots[n - 1], entitled, now)
    }
}

/// The latest claim time stamped on a business among the first `n` slots;
/// 0 when none was.
pub open spec fn latest_claim(slots: Seq<BusinessSlotCompact>, n: int) -> int
    decreases n,
{
    if n <= 0 {
        0
    } else {
        let prev = latest_claim(slots, n - 1);
        match slots[n - 1].business {
            Some(b) => match b.last_claim_at {
                Some(t) => if t > prev {
                    t as int
                } else {
                    prev
                },
                None => prev,
            },
            None => prev,
        }
    }
}

/// Number of occupied slots among the first `n`.
pub open spec fn occupied_count(slots: Seq<BusinessSlotCompact>, n: int) -> int
    decreases n,
{
    if n <= 0 {
        0
    } else {
        occupied_count(slots, n - 1) + if slots[n - 1].occupied() {
            1int
        } else {
            0
        }
    }
}

/// The businesses held in the first `n` slots, in slot order.
pub open spec fn held_businesses(slots: Seq<BusinessSlotCompact>, n: int) -> Seq<Business>
    decreases n,
{
    if n <= 0 {
        seq![]
    } else {
        match slots[n - 1].business {
            Some(b) => held_businesses(slots, n - 1).push(b),
            None => held_businesses(slots, n - 1),
        }
    }
}

/// A slot after a claim at `now`: its business, if any, restarts accrual then.
pub open spec fn stamped_slot(s: BusinessSlotCompact, now: int) -> BusinessSlotCompact {
    match s.business {
        Some(b) => BusinessSlotCompact { business: Some(b.stamped(now)), ..s },
        None => s,
    }
}

/// A player's ledger: nine slots in a fixed layout (0 to 2 free basic, 3 to
/// 5 paid basic, 6 premium, 7 vip, 8 legendary), aggregate counters that
/// only grow, and the one-time auto-accrual entitlement.
#[derive(Clone, Copy, Debug)]
pub struct PlayerCompact {
    pub owner: OwnerKey,
    pub business_slots: [BusinessSlotCompact; 9],
    pub unlocked_slots_count: u8,
    pub premium_slots_count: u8,
    pub flags: u32,
    pub total_invested: u64,
    pub total_upgrade_spent: u64,
    pub total_slot_spent: u64,
    pub total_earned: u64,
    pub auto_claim_purchased: bool,
    pub created_at: u32,
    pub first_business_time: u32,
    pub bump: u8,
}

/// Shorter names for the slot and ledger types.
pub type BusinessSlot = BusinessSlotCompact;

pub type Player = PlayerCompact;

/// What a client is shown of a ledger.
#[derive(Clone, Copy, Debug)]
pub struct PlayerFrontendData {
    pub wallet: OwnerKey,
    pub total_invested: u64,
    pub total_earned: u64,
    pub claimable_earnings: u64,
    pub businesses_count: u8,
    pub active_businesses: u8,
    pub auto_claim_purchased: bool,
    pub can_claim: bool,
}

impl PlayerCompact {
    pub open spec fn slot(&self, i: int) -> BusinessSlotCompact {
        self.business_slots@[i]
    }

    /// Every slot's occupied flag agrees with its content.
    pub open spec fn wf(&self) -> bool {
        forall|i: int| 0 <= i < 9 ==> #[trigger] self.business_slots@[i].wf()
    }

    /// Total claimable at `now`, clamped to a `u64`.
    pub open spec fn total_claimable(&self, now: int) -> int {
        clamp_u64(claim_sum(self.business_slots@, self.auto_claim_purchased, now, 9))
    }

    /// Latest claim stamped on any held business; 0 when none was.
    pub open spec fn latest_claim_time(&self) -> int {
        latest_claim(self.business_slots@, 9)
    }

    /// Whether a claim at `now` passes the cooldown: always with the
    /// entitlement, else once a day has passed since the latest claim.
    pub open spec fn claim_allowed(&self, now: int) -> bool {
        self.auto_claim_purchased || now - self.latest_claim_time() >= EARNINGS_INTERVAL
    }

    pub open spec fn paid_entry(&self) -> bool {
        self.flags & HAS_PAID_ENTRY_FLAG != 0
    }

    /// `next` is this ledger after a claim of `amount` at `now`: lifetime
    /// earnings grow by it (saturating) and every held business restarts
    /// its accrual at `now`.
    pub open spec fn claimed_into(&self, next: PlayerCompact, amount: int, now: int) -> bool {
        &&& next == (PlayerCompact {
            business_slots: next.business_slots,
            total_earned: clamp_u64(self.total_earned + amount) as u64,
            ..*self
        })
        &&& forall|i: int| 0 <= i < 9 ==> #[trigger] next.business_slots@[i] == stamped_slot(
            self.business_slots@[i],
            now,
        )
    }

    /// This ledger after the entitlement purchase, whether or not it goes through.
    pub open spec fn after_purchase(&self) -> PlayerCompact {
        PlayerCompact { auto_claim_purchased: true, ..*self }
    }

    /// The outcome of an entitlement purchase.
    pub open spec fn purchase_outcome(&self) -> Result<(), GameError> {
        if self.auto_claim_purchased {
            Err(GameError::AlreadyPurchased)
        } else {
            Ok(())
        }
    }

    /// `next` differs from this ledger in slot `i` alone.
    pub open spec fn only_slot_changed(&self, next: PlayerCompact, i: int) -> bool {
        &&& next == (PlayerCompact { business_slots: next.business_slots, ..*self })
        &&& forall|j: int| 0 <= j < 9 && j != i ==> #[trigger] next.business_slots@[j]
            == self.business_slots@[j]
    }

    /// `next` is this ledger after the business in slot `i` was taken out:
    /// the slot is empty, its tier, fee and flags otherwise kept.
    pub open spec fn sold_into(&self, next: PlayerCompact, i: int) -> bool {
        &&& self.only_slot_changed(next, i)
        &&& next.slot(i).business is None
        &&& !next.slot(i).occupied()
        &&& next.slot(i).tier() == self.slot(i).tier()
        &&& next.slot(i).unlocked() == self.slot(i).unlocked()
        &&& next.slot(i).paid() == self.slot(i).paid()
        &&& next.slot(i).slot_cost_paid == self.slot(i).slot_cost_paid
    }

    /// `next` is this ledger after `b` was put into the empty slot `i`.
    pub open spec fn placed_into(&self, next: PlayerCompact, i: int, b: Business) -> bool {
        &&& self.only_slot_changed(next, i)
        &&& next.slot(i).business == Some(b)
        &&& next.slot(i).occupied()
        &&& next.slot(i).tier() == self.slot(i).tier()
        &&& next.slot(i).unlocked() == self.slot(i).unlocked()
        &&& next.slot(i).paid() == self.slot(i).paid()
        &&& next.slot(i).slot_cost_paid == self.slot(i).slot_cost_paid
    }

    pub fn has_paid_entry(&self) -> (r: bool)
        ensures
            r == self.paid_entry(),
    {
        (self.flags & HAS_PAID_ENTRY_FLAG) != 0
    }

    pub fn set_has_paid_entry(&mut self, has_paid: bool)
        ensures
            final(self).paid_entry() == has_paid,
            *final(self) == (PlayerCompact { flags: final(self).flags, ..*old(self) }),
    {
        let f = self.flags;
        if has_paid {
            assert((f | 1) & 1 != 0) by (bit_vector);
            self.flags = f | HAS_PAID_ENTRY_FLAG;
        } else {
            assert(f & !1u32 & 1 == 0) by (bit_vector);
            self.flags = f & !HAS_PAID_ENTRY_FLAG;
        }
    }

    /// Compact form of a unix time; 0 is never produced.
    pub fn timestamp_to_u32(timestamp: i64) -> (r: u32)
        ensures
            r == compact_time(timestamp as int),
    {
        Business::timestamp_to_u32(timestamp)
    }

    /// Unix time of a compact time.
    pub fn u32_to_timestamp(compact_time: u32) -> (r: i64)
        ensures
            r == compact_time as int,
    {
        Business::u32_to_timestamp(compact_time)
    }

    /// A new ledger for `owner`: all nine slots unlocked in the fixed layout,
    /// the three free ones paid, zero totals, no entitlement.
    pub fn new(owner: OwnerKey, bump: u8, current_time: i64) -> (r: PlayerCompact)
        ensures
            r.wf(),
            r.owner == owner,
            r.bump == bump,
            forall|i: int| 0 <= i < 9 ==> #[trigger] r.business_slots@[i].business is None,
            forall|i: int| 0 <= i < 9 ==> #[trigger] r.business_slots@[i].unlocked(),
            forall|i: int| 0 <= i < 9 ==> #[trigger] r.business_slots@[i].slot_cost_paid == 0,
            forall|i: int| 0 <= i < 3 ==> #[trigger] r.business_slots@[i].paid(),
            forall|i: int| 3 <= i < 9 ==> !#[trigger] r.business_slots@[i].paid(),
            forall|i: int| 0 <= i < 6 ==> #[trigger] r.business_slots@[i].tier() == SlotType::Basic,
            r.slot(6).tier() == SlotType::Premium,
            r.slot(7).tier() == SlotType::VIP,
            r.slot(8).tier() == SlotType::Legendary,
            r.unlocked_slots_count == 9,
            r.premium_slots_count == 3,
            r.flags == 0,
            r.total_invested == 0,
            r.total_upgrade_spent == 0,
            r.total_slot_spent == 0,
            r.total_earned == 0,
            !r.auto_claim_purchased,
            r.created_at == compact_time(current_time as int),
            r.first_business_time == 0,
    {
        let free = BusinessSlotCompact::new_basic_free();
        let basic = BusinessSlotCompact::new_basic_paid();
        let slots = [
            free,
            free,
            free,
            basic,
            basic,
            basic,
            BusinessSlotCompact::new_premium_unpaid(SlotType::Premium),
            BusinessSlotCompact::new_premium_unpaid(SlotType::VIP),
            BusinessSlotCompact::new_premium_unpaid(SlotType::Legendary),
        ];
        PlayerCompact {
            owner,
            business_slots: slots,
            unlocked_slots_count: 9,
            premium_slots_count: 3,
            flags: 0,
            total_invested: 0,
            total_upgrade_spent: 0,
            total_slot_spent: 0,
            total_earned: 0,
            auto_claim_purchased: false,
            created_at: Self::timestamp_to_u32(current_time),
            first_business_time: 0,
            bump,
        }
    }

    /// Sum over occupied slots of their contribution to a claim at
    /// `current_time`, saturating at the largest `u64`.
    pub fn calculate_total_claimable_earnings(&self, current_time: i64) -> (r: u64)
        ensures
            r == self.total_claimable(current_time as int),
    {
        let mut total_earnings: u64 = 0;
        let mut i: usize = 0;
        while i < MAX_REGULAR_SLOTS
            invariant
                0 <= i <= 9,
                total_earnings == clamp_u64(
                    claim_sum(
                        self.business_slots@,
                        self.auto_claim_purchased,
                        current_time as int,
                        i as int,
                    ),
                ),
            decreases 9 - i,
        {
            let slot = &self.business_slots[i];
            if let Some(business) = &slot.business {
                let base_earnings = if self.auto_claim_purchased {
                    business.calculate_claimable_earnings(current_time)
                } else {
                    business.calculate_full_daily_earnings_if_active()
                };
                let slot_earnings = slot.calculate_earnings(base_earnings);
                total_earnings = total_earnings.saturating_add(slot_earnings);
            }
            proof {
                let entitled = self.auto_claim_purchased;
                lemma_slot_claim_nonneg(self.business_slots@[i as int], entitled, current_time as int);
                lemma_claim_sum_nonneg(self.business_slots@, entitled, current_time as int, i as int);
            }
            i = i + 1;
        }
        total_earnings
    }

    /// Restarts the accrual of every held business at `current_time`.
    pub fn update_all_business_claim_times(&mut self, current_time: i64) -> (r: Result<
        (),
        GameError,
    >)
        ensures
            r is Ok,
            old(self).claimed_into(*final(self), 0, current_time as int),
    {
        let mut i: usize = 0;
        while i < MAX_REGULAR_SLOTS
            invariant
                0 <= i <= 9,
                *self == (PlayerCompact { business_slots: self.business_slots, ..*old(self) }),
                forall|j: int|
                    0 <= j < i ==> #[trigger] self.business_slots@[j] == stamped_slot(
                        old(self).business_slots@[j],
                        current_time as int,
                    ),
                forall|j: int|
                    i <= j < 9 ==> #[trigger] self.business_slots@[j] == old(self).business_slots@[j],
            decreases 9 - i,
        {
            let ghost prev = self.business_slots;
            let mut slot = self.business_slots[i];
            if let Some(b) = slot.business {
                let mut business = b;
                business.update_claim_time(current_time);
                slot.business = Some(business);
                self.business_slots[i] = slot;
                assert(self.business_slots@ == prev@.update(i as int, slot));
            }
            i = i + 1;
        }
        Ok(())
    }

    /// Number of occupied slots.
    pub fn get_active_businesses_count(&self) -> (r: u8)
        ensures
            r == occupied_count(self.business_slots@, 9),
    {
        let mut count: u8 = 0;
        let mut i: usize = 0;
        while i < MAX_REGULAR_SLOTS
            invariant
                0 <= i <= 9,
                count == occupied_count(self.business_slots@, i as int),
                count <= i,
            decreases 9 - i,
        {
            if self.business_slots[i].has_business() {
                count = count + 1;
            }
            i = i + 1;
        }
        count
    }

    /// The first slot that holds no business, if any.
    pub fn find_free_slot(&self) -> (r: Option<usize>)
        ensures
            r matches Some(i) ==> i < 9 && !self.slot(i as int).occupied() && forall|j: int|
                0 <= j < i ==> #[trigger] self.business_slots@[j].occupied(),
            r is None ==> forall|j: int| 0 <= j < 9 ==> #[trigger] self.business_slots@[j].occupied(),
    {
        let mut i: usize = 0;
        while i < MAX_REGULAR_SLOTS
            invariant
                0 <= i <= 9,
                forall|j: int| 0 <= j < i ==> #[trigger] self.business_slots@[j].occupied(),
            decreases 9 - i,
        {
            if !self.business_slots[i].has_business() {
                return Some(i);
            }
            i = i + 1;
        }
        None
    }

    /// Puts `business` into slot `slot_index`.
    pub fn place_business_in_slot(&mut self, slot_index: usize, business: Business) -> (r: Result<
        (),
        GameError,
    >)
        ensures
            slot_index >= 9 ==> r == Err::<(), GameError>(GameError::InvalidIndex),
            slot_index < 9 && old(self).slot(slot_index as int).occupied() ==> r == Err::<(), GameError>(
                GameError::SlotOccupied,
            ),
            r is Err ==> *final(self) == *old(self),
            r is Ok <==> slot_index < 9 && !old(self).slot(slot_index as int).occupied(),
            r is Ok ==> old(self).placed_into(*final(self), slot_index as int, business),
            old(self).wf() ==> final(self).wf(),
    {
        if slot_index >= MAX_REGULAR_SLOTS {
            return Err(GameError::InvalidIndex);
        }
        let mut slot = self.business_slots[slot_index];
        match slot.place_business(business) {
            Ok(()) => {},
            Err(e) => return Err(e),
        }
        self.business_slots[slot_index] = slot;
        Ok(())
    }

    /// Buys the auto-accrual entitlement; it can be bought once.
    pub fn purchase_auto_claim(&mut self) -> (r: Result<(), GameError>)
        ensures
            r == old(self).purchase_outcome(),
            *final(self) == old(self).after_purchase(),
    {
        if self.auto_claim_purchased {
            return Err(GameError::AlreadyPurchased);
        }
        self.auto_claim_purchased = true;
        Ok(())
    }

    /// Replaces the business in slot `slot_index` by its upgraded record and
    /// adds `upgrade_cost` to the upgrade spending (saturating). An empty
    /// slot has no record to replace and is refused, so that a slot holds a
    /// business exactly when its occupied flag is set.
    pub fn upgrade_business_in_slot(
        &mut self,
        slot_index: usize,
        upgrade_cost: u64,
        new_business: Business,
    ) -> (r: Result<(), GameError>)
        ensures
            slot_index >= 9 ==> r == Err::<(), GameError>(GameError::InvalidIndex),
            slot_index < 9 && old(self).slot(slot_index as int).business is None ==> r == Err::<
                (),
                GameError,
            >(GameError::SlotEmpty),
            r is Err ==> *final(self) == *old(self),
            r is Ok <==> slot_index < 9 && old(self).slot(slot_index as int).business is Some,
            r is Ok ==> {
                &&& *final(self) == (PlayerCompact {
                    business_slots: final(self).business_slots,
                    total_upgrade_spent: clamp_u64(
                        old(self).total_upgrade_spent + upgrade_cost,
                    ) as u64,
                    ..*old(self)
                })
                &&& forall|j: int|
                    0 <= j < 9 && j != slot_index ==> #[trigger] final(self).business_slots@[j]
                        == old(self).business_slots@[j]
                &&& final(self).slot(slot_index as int) == (BusinessSlotCompact {
                    business: Some(new_business),
                    ..old(self).slot(slot_index as int)
                })
            },
            old(self).wf() ==> final(self).wf(),
    {
        if slot_index >= MAX_REGULAR_SLOTS {
            return Err(GameError::InvalidIndex);
        }
        let mut slot = self.business_slots[slot_index];
        if slot.business.is_none() {
            return Err(GameError::SlotEmpty);
        }
        assert(old(self).wf() ==> old(self).business_slots@[slot_index as int].wf());
        slot.business = Some(new_business);
        self.business_slots[slot_index] = slot;
        self.total_upgrade_spent = self.total_upgrade_spent.saturating_add(upgrade_cost);
        Ok(())
    }

    /// Takes the business out of slot `slot_index`, returning it with the
    /// slot's sell-fee discount for the refund computation.
    pub fn sell_business_from_slot(&mut self, slot_index: usize) -> (r: Result<
        (Business, u8),
        GameError,
    >)
        ensures
            slot_index >= 9 ==> r == Err::<(Business, u8), GameError>(GameError::InvalidIndex),
            slot_index < 9 && old(self).slot(slot_index as int).business is None ==> r == Err::<
                (Business, u8),
                GameError,
            >(GameError::SlotEmpty),
            r is Err ==> *final(self) == *old(self),
            r matches Ok((b, d)) ==> {
                &&& slot_index < 9
                &&& old(self).slot(slot_index as int).business == Some(b)
                &&& d == slot_sell_fee_discount(old(self).slot(slot_index as int).tier())
                &&& old(self).sold_into(*final(self), slot_index as int)
            },
            r is Ok <==> slot_index < 9 && old(self).slot(slot_index as int).business is Some,
            old(self).wf() ==> final(self).wf(),
    {
        if slot_index >= MAX_REGULAR_SLOTS {
            return Err(GameError::InvalidIndex);
        }
        let mut slot = self.business_slots[slot_index];
        let business = match slot.remove_business() {
            Some(b) => b,
            None => return Err(GameError::SlotEmpty),
        };
        let discount = slot.get_sell_fee_discount();
        self.business_slots[slot_index] = slot;
        Ok((business, discount))
    }

    /// What a claim at `current_time` would pay.
    pub fn get_claimable_amount(&self, current_time: i64) -> (r: Result<u64, GameError>)
        ensures
            r matches Ok(a) && a == self.total_claimable(current_time as int),
    {
        Ok(self.calculate_total_claimable_earnings(current_time))
    }

    /// Records a claim of `claimed_amount` at `current_time`: lifetime
    /// earnings grow (saturating) and every held business restarts accrual.
    pub fn process_claim(&mut self, claimed_amount: u64, current_time: i64) -> (r: Result<
        (),
        GameError,
    >)
        ensures
            r is Ok,
            old(self).claimed_into(*final(self), claimed_amount as int, current_time as int),
    {
        self.total_earned = self.total_earned.saturating_add(claimed_amount);
        self.update_all_business_claim_times(current_time)
    }

    /// Whether a claim at `current_time` passes the cooldown.
    pub fn can_claim_without_auto(&self, current_time: i64) -> (r: bool)
        ensures
            r == self.claim_allowed(current_time as int),
    {
        if self.auto_claim_purchased {
            return true;
        }
        let mut latest: i64 = 0;
        let mut i: usize = 0;
        while i < MAX_REGULAR_SLOTS
            invariant
                0 <= i <= 9,
                latest == latest_claim(self.business_slots@, i as int),
                0 <= latest <= u32::MAX,
            decreases 9 - i,
        {
            if let Some(business) = &self.business_slots[i].business {
                if let Some(t) = business.last_claim_at {
                    let time = Business::u32_to_timestamp(t);
                    if time > latest {
                        latest = time;
                    }
                }
            }
            i = i + 1;
        }
        current_time as i128 - latest as i128 >= EARNINGS_INTERVAL as i128
    }

    /// Structural check of the ledger; it accepts every ledger.
    pub fn health_check(&self, _current_time: i64) -> (r: Result<(), GameError>)
        ensures
            r is Ok,
    {
        Ok(())
    }

    /// The held businesses, in slot order.
    pub fn get_all_businesses(&self) -> (r: Vec<&Business>)
        ensures
            r@.len() == held_businesses(self.business_slots@, 9).len(),
            forall|k: int|
                0 <= k < r@.len() ==> *#[trigger] r@[k] == held_businesses(self.business_slots@, 9)[k],
    {
        let mut all: Vec<&Business> = Vec::new();
        let mut i: usize = 0;
        while i < MAX_REGULAR_SLOTS
            invariant
                0 <= i <= 9,
                all@.len() == held_businesses(self.business_slots@, i as int).len(),
                forall|k: int|
                    0 <= k < all@.len() ==> *#[trigger] all@[k] == held_businesses(
                        self.business_slots@,
                        i as int,
                    )[k],
            decreases 9 - i,
        {
            if let Some(business) = &self.business_slots[i].business {
                all.push(business);
            }
            i = i + 1;
        }
        all
    }

    /// Fee due before first use of slot `slot_index` for a business of
    /// price `business_price`; 0 for an index out of range.
    pub fn get_slot_cost_for_business(&self, slot_index: usize, business_price: u64) -> (r: u64)
        ensures
            slot_index >= 9 ==> r == 0,
            slot_index < 9 ==> r == self.slot(slot_index as int).cost(business_price as int),
    {
        if slot_index >= MAX_REGULAR_SLOTS {
            return 0;
        }
        self.business_slots[slot_index].get_slot_cost(business_price)
    }

    /// Charges the fee of slot `slot_index` if it is still due, adding it to
    /// the slot spending (saturating); returns what was charged.
    pub fn pay_slot_if_needed(&mut self, slot_index: usize, business_price: u64) -> (r: Result<
        u64,
        GameError,
    >)
        ensures
            slot_index >= 9 ==> r == Err::<u64, GameError>(GameError::InvalidIndex) && *final(self)
                == *old(self),
            slot_index < 9 ==> r == Ok::<u64, GameError>(
                old(self).slot(slot_index as int).cost(business_price as int) as u64,
            ),
            r matches Ok(c) ==> c == 0 ==> *final(self) == *old(self),
            r matches Ok(c) ==> c > 0 ==> {
                &&& *final(self) == (PlayerCompact {
                    business_slots: final(self).business_slots,
                    total_slot_spent: clamp_u64(old(self).total_slot_spent + c) as u64,
                    ..*old(self)
                })
                &&& forall|j: int|
                    0 <= j < 9 && j != slot_index ==> #[trigger] final(self).business_slots@[j]
                        == old(self).business_slots@[j]
                &&& final(self).slot(slot_index as int).paid_form_of(
                    old(self).slot(slot_index as int),
                    c,
                )
            },
            old(self).wf() ==> final(self).wf(),
    {
        if slot_index >= MAX_REGULAR_SLOTS {
            return Err(GameError::InvalidIndex);
        }
        let mut slot = self.business_slots[slot_index];
        let slot_cost = slot.get_slot_cost(business_price);
        assert(old(self).wf() ==> old(self).business_slots@[slot_index as int].wf());
        if slot_cost > 0 {
            match slot.pay_slot(slot_cost) {
                Ok(()) => {},
                Err(e) => return Err(e),
            }
            self.business_slots[slot_index] = slot;
            self.total_slot_spent = self.total_slot_spent.saturating_add(slot_cost);
        }
        Ok(slot_cost)
    }

    /// What a client is shown of this ledger at `current_time`.
    pub fn get_frontend_data(&self, current_time: i64) -> (r: PlayerFrontendData)
        ensures
            r == (PlayerFrontendData {
                wallet: self.owner,
                total_invested: self.total_invested,
                total_earned: self.total_earned,
                claimable_earnings: self.total_claimable(current_time as int) as u64,
                businesses_count: occupied_count(self.business_slots@, 9) as u8,
                active_businesses: occupied_count(self.business_slots@, 9) as u8,
                auto_claim_purchased: self.auto_claim_purchased,
                can_claim: self.claim_allowed(current_time as int),
            }),
    {
        let claimable_earnings = self.calculate_total_claimable_earnings(current_time);
        let active_businesses = self.get_active_businesses_count();
        let can_claim = self.can_claim_without_auto(current_time);
        PlayerFrontendData {
            wallet: self.owner,
            total_invested: self.total_invested,
            total_earned: self.total_earned,
            claimable_earnings,
            businesses_count: active_businesses,
            active_businesses,
            auto_claim_purchased: self.auto_claim_purchased,
            can_claim,
        }
    }
}

/// A slot never contributes a negative amount.
pub proof fn lemma_slot_claim_nonneg(s: BusinessSlotCompact, entitled: bool, now: int)
    ensures
        slot_claim(s, entitled, now) >= 0,
{
    if let Some(b) = s.business {
        let base = if entitled {
            b.claimable(now)
        } else if b.is_active {
            b.daily()
        } else {
            0
        };
        assert(base >= 0);
        assert(base * slot_yield_bonus(s.tier()) >= 0) by (nonlinear_arith)
            requires base >= 0;
    }
}

/// Partial sums of slot contributions are never negative.
pub proof fn lemma_claim_sum_nonneg(
    slots: Seq<BusinessSlotCompact>,
    entitled: bool,
    now: int,
    n: int,
)
    requires
        n <= slots.len(),
    ensures
        claim_sum(slots, entitled, now, n) >= 0,
    decreases n,
{
    if n > 0 {
        lemma_claim_sum_nonneg(slots, entitled, now, n - 1);
        lemma_slot_claim_nonneg(slots[n - 1], entitled, now);
    }
}

/// Selling the business in a slot and then placing another one there keeps
/// the slot's paid flag: a slot once paid charges no fee again.
pub proof fn lemma_resale_keeps_slot_paid(
    p: PlayerCompact,
    q: PlayerCompact,
    r: PlayerCompact,
    i: int,
    b: Business,
    business_price: int,
)
    requires
        0 <= i < 9,
        p.sold_into(q, i),
        q.placed_into(r, i, b),
    ensures
        r.slot(i).paid() == p.slot(i).paid(),
        p.slot(i).paid() ==> r.slot(i).cost(business_price) == 0,
{
}

/// Buying the entitlement a second time is refused, and leaves the ledger as
/// the first purchase left it.
pub proof fn lemma_second_purchase_refused(p: PlayerCompact)
    ensures
        p.after_purchase().purchase_outcome() == Err::<(), GameError>(GameError::AlreadyPurchased),
        p.after_purchase().after_purchase() == p.after_purchase(),
        p.after_purchase().auto_claim_purchased,
{
}

} // verus!
