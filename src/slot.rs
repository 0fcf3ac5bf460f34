use vstd::prelude::*;
use crate::business::{Business, clamp_u64};
use crate::config::{
    SlotType, BASIS_POINTS, premium_slot_cost, slot_yield_bonus, slot_sell_fee_discount,
    premium_slot_cost_of, slot_yield_bonus_of, slot_sell_fee_discount_of,
};
use crate::error::GameError;

verus! {

/// Bits 0 and 1 of the flags: the tier.
pub const SLOT_TYPE_MASK: u32 = 0x03;

/// Bit 2 of the flags: the slot is unlocked.
pub const UNLOCKED_FLAG: u32 = 0x04;

/// Bit 3 of the flags: the slot holds a business.
pub const HAS_BUSINESS_FLAG: u32 = 0x08;

/// Bit 4 of the flags: the slot's fee has been paid.
pub const IS_PAID_FLAG: u32 = 0x10;

/// The tier that the two low bits of `flags` encode.
pub open spec fn tier_of_flags(flags: u32) -> SlotType {
    let bits = flags & SLOT_TYPE_MASK;
    if bits == 0 {
        SlotType::Basic
    } else if bits == 1 {
        SlotType::Premium
    } else if bits == 2 {
        SlotType::VIP
    } else {
        SlotType::Legendary
    }
}

/// The two-bit code of a tier.
pub open spec fn tier_bits(t: SlotType) -> u32 {
    match t {
        SlotType::Basic => 0,
        SlotType::Premium => 1,
        SlotType::VIP => 2,
        SlotType::Legendary => 3,
    }
}

/// A slot: a tier with its unlocked, occupied and paid flags packed in one
/// word, at most one business, and the fee paid for it.
#[derive(Clone, Copy, Debug)]
pub struct BusinessSlotCompact {
    pub flags: u32,
    pub business: Option<Business>,
    pub slot_cost_paid: u64,
}

impl BusinessSlotCompact {
    pub open spec fn tier(&self) -> SlotType {
        tier_of_flags(self.flags)
    }

    pub open spec fn unlocked(&self) -> bool {
        self.flags & UNLOCKED_FLAG != 0
    }

    pub open spec fn occupied(&self) -> bool {
        self.flags & HAS_BUSINESS_FLAG != 0
    }

    pub open spec fn paid(&self) -> bool {
        self.flags & IS_PAID_FLAG != 0
    }

    /// The occupied flag is set exactly when a business is present.
    pub open spec fn wf(&self) -> bool {
        self.occupied() == self.business is Some
    }

    /// Whether `other` has the same tier and the same unlocked, occupied and
    /// paid flags as this slot.
    pub open spec fn same_flags(&self, other: BusinessSlotCompact) -> bool {
        &&& self.tier() == other.tier()
        &&& self.unlocked() == other.unlocked()
        &&& self.occupied() == other.occupied()
        &&& self.paid() == other.paid()
    }

    /// This slot is `prev` with its fee `cost` paid and nothing else changed.
    pub open spec fn paid_form_of(&self, prev: BusinessSlotCompact, cost: u64) -> bool {
        &&& self.paid()
        &&& self.slot_cost_paid == cost
        &&& self.tier() == prev.tier()
        &&& self.unlocked() == prev.unlocked()
        &&& self.occupied() == prev.occupied()
        &&& self.business == prev.business
    }

    /// Fee still owed before first use, for a business of price `business_price`.
    pub open spec fn cost(&self, business_price: int) -> int {
        if self.paid() {
            0
        } else {
            match self.tier() {
                SlotType::Basic => business_price * 10 / 100,
                _ => premium_slot_cost(self.tier()) as int,
            }
        }
    }

    /// Earnings `base` with the slot's yield bonus added; 0 for an empty slot.
    pub open spec fn applied(&self, base: int) -> int {
        if self.business is Some {
            clamp_u64(base + base * slot_yield_bonus(self.tier()) / BASIS_POINTS as int)
        } else {
            0
        }
    }

    /// A free basic slot: unlocked, and paid from the start.
    pub fn new_basic_free() -> (r: BusinessSlotCompact)
        ensures
            r.tier() == SlotType::Basic,
            r.unlocked(),
            !r.occupied(),
            r.paid(),
            r.business is None,
            r.slot_cost_paid == 0,
            r.wf(),
    {
        let flags: u32 = UNLOCKED_FLAG | IS_PAID_FLAG;
        assert(flags & 3 == 0 && flags & 4 != 0 && flags & 8 == 0 && flags & 16 != 0) by (bit_vector)
            requires flags == 4u32 | 16u32;
        BusinessSlotCompact { flags, business: None, slot_cost_paid: 0 }
    }

    /// A basic slot whose fee is due at first use.
    pub fn new_basic_paid() -> (r: BusinessSlotCompact)
        ensures
            r.tier() == SlotType::Basic,
            r.unlocked(),
            !r.occupied(),
            !r.paid(),
            r.business is None,
            r.slot_cost_paid == 0,
            r.wf(),
    {
        let flags: u32 = UNLOCKED_FLAG;
        assert(flags & 3 == 0 && flags & 4 != 0 && flags & 8 == 0 && flags & 16 == 0) by (bit_vector)
            requires flags == 4u32;
        BusinessSlotCompact { flags, business: None, slot_cost_paid: 0 }
    }

    /// The two-bit code of a tier.
    fn slot_type_bits(slot_type: SlotType) -> (r: u32)
        ensures
            r == tier_bits(slot_type),
            r < 4,
    {
        match slot_type {
            SlotType::Basic => 0,
            SlotType::Premium => 1,
            SlotType::VIP => 2,
            SlotType::Legendary => 3,
        }
    }

    /// An unlocked slot of tier `slot_type` whose fee is due at first use.
    pub fn new_premium_unpaid(slot_type: SlotType) -> (r: BusinessSlotCompact)
        ensures
            r.tier() == slot_type,
            r.unlocked(),
            !r.occupied(),
            !r.paid(),
            r.business is None,
            r.slot_cost_paid == 0,
            r.wf(),
    {
        let bits = Self::slot_type_bits(slot_type);
        let flags: u32 = bits | UNLOCKED_FLAG;
        assert(flags & 3 == bits && flags & 4 != 0 && flags & 8 == 0 && flags & 16 == 0)
            by (bit_vector)
            requires flags == bits | 4u32, bits < 4u32;
        BusinessSlotCompact { flags, business: None, slot_cost_paid: 0 }
    }

    /// An unlocked slot of tier `slot_type` whose fee `cost` is already paid.
    pub fn new_premium(slot_type: SlotType, cost: u64) -> (r: BusinessSlotCompact)
        ensures
            r.tier() == slot_type,
            r.unlocked(),
            !r.occupied(),
            r.paid(),
            r.business is None,
            r.slot_cost_paid == cost,
            r.wf(),
    {
        let bits = Self::slot_type_bits(slot_type);
        let flags: u32 = bits | UNLOCKED_FLAG | IS_PAID_FLAG;
        assert(flags & 3 == bits && flags & 4 != 0 && flags & 8 == 0 && flags & 16 != 0)
            by (bit_vector)
            requires flags == bits | 4u32 | 16u32, bits < 4u32;
        BusinessSlotCompact { flags, business: None, slot_cost_paid: cost }
    }

    pub fn slot_type(&self) -> (r: SlotType)
        ensures
            r == self.tier(),
    {
        let bits = self.flags & SLOT_TYPE_MASK;
        if bits == 0 {
            SlotType::Basic
        } else if bits == 1 {
            SlotType::Premium
        } else if bits == 2 {
            SlotType::VIP
        } else {
            SlotType::Legendary
        }
    }

    pub fn is_unlocked(&self) -> (r: bool)
        ensures
            r == self.unlocked(),
    {
        (self.flags & UNLOCKED_FLAG) != 0
    }

    pub fn has_business(&self) -> (r: bool)
        ensures
            r == self.occupied(),
    {
        (self.flags & HAS_BUSINESS_FLAG) != 0
    }

    pub fn is_paid(&self) -> (r: bool)
        ensures
            r == self.paid(),
    {
        (self.flags & IS_PAID_FLAG) != 0
    }

    pub fn set_unlocked(&mut self, unlocked: bool)
        ensures
            final(self).unlocked() == unlocked,
            final(self).tier() == old(self).tier(),
            final(self).occupied() == old(self).occupied(),
            final(self).paid() == old(self).paid(),
            final(self).business == old(self).business,
            final(self).slot_cost_paid == old(self).slot_cost_paid,
    {
        let f = self.flags;
        if unlocked {
            assert((f | 4) & 4 != 0 && (f | 4) & 3 == f & 3 && (f | 4) & 8 == f & 8 && (f | 4) & 16
                == f & 16) by (bit_vector);
            self.flags = f | UNLOCKED_FLAG;
        } else {
            assert(f & !4u32 & 4 == 0 && f & !4u32 & 3 == f & 3 && f & !4u32 & 8 == f & 8 && f
                & !4u32 & 16 == f & 16) by (bit_vector);
            self.flags = f & !UNLOCKED_FLAG;
        }
    }

    pub fn set_has_business(&mut self, has_business: bool)
        ensures
            final(self).occupied() == has_business,
            final(self).tier() == old(self).tier(),
            final(self).unlocked() == old(self).unlocked(),
            final(self).paid() == old(self).paid(),
            final(self).business == old(self).business,
            final(self).slot_cost_paid == old(self).slot_cost_paid,
    {
        let f = self.flags;
        if has_business {
            assert((f | 8) & 8 != 0 && (f | 8) & 3 == f & 3 && (f | 8) & 4 == f & 4 && (f | 8) & 16
                == f & 16) by (bit_vector);
            self.flags = f | HAS_BUSINESS_FLAG;
        } else {
            assert(f & !8u32 & 8 == 0 && f & !8u32 & 3 == f & 3 && f & !8u32 & 4 == f & 4 && f
                & !8u32 & 16 == f & 16) by (bit_vector);
            self.flags = f & !HAS_BUSINESS_FLAG;
        }
    }

    pub fn set_paid(&mut self, paid: bool)
        ensures
            final(self).paid() == paid,
            final(self).tier() == old(self).tier(),
            final(self).unlocked() == old(self).unlocked(),
            final(self).occupied() == old(self).occupied(),
            final(self).business == old(self).business,
            final(self).slot_cost_paid == old(self).slot_cost_paid,
    {
        let f = self.flags;
        if paid {
            assert((f | 16) & 16 != 0 && (f | 16) & 3 == f & 3 && (f | 16) & 4 == f & 4 && (f | 16)
                & 8 == f & 8) by (bit_vector);
            self.flags = f | IS_PAID_FLAG;
        } else {
            assert(f & !16u32 & 16 == 0 && f & !16u32 & 3 == f & 3 && f & !16u32 & 4 == f & 4 && f
                & !16u32 & 8 == f & 8) by (bit_vector);
            self.flags = f & !IS_PAID_FLAG;
        }
    }

    /// Pays the slot's fee `cost`; a slot is paid for once.
    pub fn pay_slot(&mut self, cost: u64) -> (r: Result<(), GameError>)
        ensures
            old(self).paid() ==> r == Err::<(), GameError>(GameError::AlreadyPaid) && *final(self)
                == *old(self),
            !old(self).paid() ==> r is Ok && final(self).paid_form_of(*old(self), cost),
    {
        if self.is_paid() {
            return Err(GameError::AlreadyPaid);
        }
        self.set_paid(true);
        self.slot_cost_paid = cost;
        Ok(())
    }

    /// Fee due before first use: a tenth of the business price for a basic
    /// slot, the configured fee for a premium tier, nothing once paid.
    pub fn get_slot_cost(&self, business_price: u64) -> (r: u64)
        ensures
            r == self.cost(business_price as int),
    {
        if self.is_paid() {
            return 0;
        }
        match self.slot_type() {
            SlotType::Basic => ((business_price as u128) * 10 / 100) as u64,
            t => premium_slot_cost_of(t),
        }
    }

    /// Puts `business` into an empty slot.
    pub fn place_business(&mut self, business: Business) -> (r: Result<(), GameError>)
        ensures
            old(self).occupied() ==> r == Err::<(), GameError>(GameError::SlotOccupied)
                && *final(self) == *old(self),
            !old(self).occupied() ==> {
                &&& r is Ok
                &&& final(self).business == Some(business)
                &&& final(self).occupied()
                &&& final(self).tier() == old(self).tier()
                &&& final(self).unlocked() == old(self).unlocked()
                &&& final(self).paid() == old(self).paid()
                &&& final(self).slot_cost_paid == old(self).slot_cost_paid
            },
    {
        if self.has_business() {
            return Err(GameError::SlotOccupied);
        }
        self.business = Some(business);
        self.set_has_business(true);
        Ok(())
    }

    /// Takes the business out of the slot, if there is one.
    pub fn remove_business(&mut self) -> (r: Option<Business>)
        ensures
            r == old(self).business,
            final(self).business is None,
            !final(self).occupied(),
            final(self).tier() == old(self).tier(),
            final(self).unlocked() == old(self).unlocked(),
            final(self).paid() == old(self).paid(),
            final(self).slot_cost_paid == old(self).slot_cost_paid,
    {
        let business = self.business.take();
        self.set_has_business(false);
        business
    }

    /// The tier's yield bonus, in basis points.
    pub fn get_yield_bonus(&self) -> (r: u16)
        ensures
            r == slot_yield_bonus(self.tier()),
    {
        slot_yield_bonus_of(self.slot_type())
    }

    /// The tier's discount on the sell fee, in percent.
    pub fn get_sell_fee_discount(&self) -> (r: u8)
        ensures
            r == slot_sell_fee_discount(self.tier()),
    {
        slot_sell_fee_discount_of(self.slot_type())
    }

    /// Earnings `base_earnings` with the tier's yield bonus added, clamped to
    /// a `u64`; 0 for an empty slot.
    pub fn calculate_earnings(&self, base_earnings: u64) -> (r: u64)
        ensures
            r == self.applied(base_earnings as int),
    {
        if self.business.is_some() {
            let slot_bonus = self.get_yield_bonus();
            let base = base_earnings as u128;
            proof {
                assert(base * (slot_bonus as u128) <= 0xFFFF_FFFF_FFFF_FFFFu128 * 0xFFFFu128)
                    by (nonlinear_arith)
                    requires base <= 0xFFFF_FFFF_FFFF_FFFFu128, slot_bonus <= 0xFFFFu16;
            }
            let total = base + base * (slot_bonus as u128) / 10000;
            if total > u64::MAX as u128 {
                u64::MAX
            } else {
                total as u64
            }
        } else {
            0
        }
    }
}

} // verus!
