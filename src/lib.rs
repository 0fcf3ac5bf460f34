//! Economic core of a persistent investment game: businesses held in fixed
//! slots, yield accrual, claims with a fee, slot payments and upgrades.

pub mod config;
pub mod error;
pub mod business;
pub mod slot;
pub mod player;
pub mod claim;

pub use business::{Business, BusinessType};
pub use config::SlotType;
pub use error::GameError;
pub use slot::BusinessSlotCompact;
pub use player::{PlayerCompact, PlayerFrontendData, OwnerKey};
pub use claim::{ClaimSettlement, claim_earnings, create_player, split_claim};
pub use player::{BusinessSlot, Player};
