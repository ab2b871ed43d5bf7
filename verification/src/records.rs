//! The records the marketplace keeps: its configuration, the listings and the
//! ownership receipts.

use vstd::prelude::*;
use crate::identity::Identity;

verus! {

/// A record together with the address it is stored at.
#[derive(Clone, Copy, Debug, PartialEq, Eq)]
pub struct Account<T> {
    /// Where the record lives.
    pub key: Identity,
    /// What is stored there.
    pub data: T,
}

/// The marketplace-wide configuration.
#[derive(Clone, Copy, Debug, PartialEq, Eq)]
pub struct Marketplace {
    /// Who operates the marketplace.
    pub authority: Identity,
    /// The fixed amount taken out of every purchase price.
    pub fee: u64,
}

/// A service offered by a vendor.
#[derive(Clone, Debug, PartialEq, Eq)]
pub struct Service {
    /// Who offers the service and is paid for it.
    pub vendor: Identity,
    pub name: String,
    pub description: String,
    /// The current asking price.
    pub price: u64,
    /// Whether receipts for this service stay with their first owner.
    pub is_soulbound: bool,
    /// Whether the service can be purchased.
    pub is_active: bool,
}

impl Service {
    /// A listing is well formed when it asks a positive price.
    pub open spec fn wf(self) -> bool {
        self.price > 0
    }
}

/// The receipt of one purchase: who owns it now and which service it is for.
#[derive(Clone, Copy, Debug, PartialEq, Eq)]
pub struct NFT {
    /// The current owner.
    pub owner: Identity,
    /// The address of the service that was bought.
    pub service: Identity,
    /// Copied from the listing when the receipt is minted, and final: this
    /// flag, not the listing's, decides whether the receipt may change hands.
    pub is_soulbound: bool,
}

} // verus!
