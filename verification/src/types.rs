use vstd::prelude::*;

verus! {

/// An account or contract address, written as its Stellar strkey
/// (`G...` for accounts, `C...` for contracts).
pub type Address = String;

/// Category of the sport item being listed.
#[derive(Clone, Copy, Debug, PartialEq, Eq, Structural)]
pub enum SportCategory {
    Football,
    Basketball,
    Tennis,
    Baseball,
    Golf,
    Swimming,
    Cycling,
    Running,
    Other,
}

/// Condition of the item.
#[derive(Clone, Copy, Debug, PartialEq, Eq, Structural)]
pub enum ItemCondition {
    New,
    LikeNew,
    Good,
    Fair,
    Poor,
}

/// Status of a marketplace listing.
#[derive(Clone, Copy, Debug, PartialEq, Eq, Structural)]
pub enum ListingStatus {
    Active,
    Unlisted,
    Sold,
}

/// Why an operation was refused.
#[derive(Clone, Copy, Debug, PartialEq, Eq, Structural)]
pub enum MarketError {
    NotFound,
    Unauthorized,
    NotActive,
    AlreadyUnlisted,
    SelfPurchase,
    InvalidPrice,
    InvalidFeeBps,
    InsufficientFunds,
    /// `initialize` was called on a marketplace that already has an admin.
    AlreadyInitialized,
    /// The operation needs the admin or the fee vault, and none was set yet.
    NotInitialized,
    /// `relist_item` was called on a listing that is not `Unlisted`.
    NotUnlisted,
}

/// A single marketplace listing.
#[derive(Debug)]
pub struct Listing {
    pub id: u64,
    pub seller: Address,
    pub title: String,
    pub description: String,
    pub category: SportCategory,
    pub condition: ItemCondition,
    /// Price in the token's smallest unit.
    pub price: i128,
    /// Payment token (XLM or any Stellar Asset Contract token).
    pub token: Address,
    pub status: ListingStatus,
    /// Ledger timestamp at creation.
    pub created_at: u64,
    /// Ledger timestamp of the last change.
    pub updated_at: u64,
}

/// Lightweight summary of a listing, kept in the searchable index.
#[derive(Debug)]
pub struct ListingIndex {
    pub id: u64,
    pub seller: Address,
    pub price: i128,
    pub status: ListingStatus,
    pub category: SportCategory,
}

/// A token transfer that a purchase asks the host to perform.
#[derive(Debug)]
pub struct Transfer {
    pub token: Address,
    pub from: Address,
    pub to: Address,
    pub amount: i128,
}

impl Clone for Listing {
    fn clone(&self) -> (r: Self)
        ensures
            r == *self,
    {
        Listing {
            id: self.id,
            seller: self.seller.clone(),
            title: self.title.clone(),
            description: self.description.clone(),
            category: self.category,
            condition: self.condition,
            price: self.price,
            token: self.token.clone(),
            status: self.status,
            created_at: self.created_at,
            updated_at: self.updated_at,
        }
    }
}

impl Clone for ListingIndex {
    fn clone(&self) -> (r: Self)
        ensures
            r == *self,
    {
        ListingIndex {
            id: self.id,
            seller: self.seller.clone(),
            price: self.price,
            status: self.status,
            category: self.category,
        }
    }
}

impl Clone for Transfer {
    fn clone(&self) -> (r: Self)
        ensures
            r == *self,
    {
        Transfer {
            token: self.token.clone(),
            from: self.from.clone(),
            to: self.to.clone(),
            amount: self.amount,
        }
    }
}

} // verus!
