//! A sport-equipment marketplace: listings, their life cycle
//! (`Active` -> `Unlisted` / `Sold`), a lightweight searchable index and the
//! platform-fee split of a purchase, all as verified state transitions.
//!
//! The host that runs the contract (persistent storage, authorization,
//! ledger time and token transfers) stays outside this crate: each operation
//! takes the already-authorized caller and the ledger time as plain values,
//! and a purchase hands back the token transfers that the host must perform.

pub mod fees;
pub mod index;
pub mod behaviour;
pub mod laws;
pub mod market;
pub mod types;

pub use index::Selection;
pub use market::{MarketView, SportMarketplace, MAX_FEE_BPS};
pub use types::{
    Address, ItemCondition, Listing, ListingIndex, ListingStatus, MarketError, SportCategory,
    Transfer,
};
