use vstd::prelude::*;

verus! {

/// Every way an operation on the ledger can be refused. A refused operation
/// leaves the ledger exactly as it was.
#[derive(Clone, Copy, Debug, PartialEq, Eq, Structural)]
pub enum GameError {
    /// An upgrade level that is not the next one, or beyond the maximum.
    InvalidLevel,
    /// Capital arithmetic that would wrap around.
    Overflow,
    /// A slot index outside the nine slots.
    InvalidIndex,
    /// The slot already holds a business.
    SlotOccupied,
    /// The slot holds no business.
    SlotEmpty,
    /// The slot fee was already paid.
    AlreadyPaid,
    /// The claim cooldown has not elapsed yet.
    ClaimTooEarly,
    /// Nothing has accrued.
    NoEarnings,
    /// The auto-accrual entitlement was already bought.
    AlreadyPurchased,
    /// A record fails its consistency check.
    InvalidState,
    /// An upgrade was offered at another price than the configured one.
    InvalidCost,
    /// A ledger already exists for this owner.
    PlayerAlreadyExists,
    /// The treasury holds less than the amount to pay out.
    InsufficientFunds,
}

} // verus!
