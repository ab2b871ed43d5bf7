//! The transactional core of a two-sided marketplace.
//!
//! Vendors list services, buyers pay for them and receive an ownership
//! receipt, and receipts that are not soulbound can be resold. Every
//! operation works on the records it is handed, checks all its conditions
//! before it changes anything, and returns the movements that the token
//! ledger is to apply; storage, signatures and the ledger itself are kept
//! elsewhere.

pub mod catalog;
pub mod error;
pub mod identity;
pub mod ledger;
pub mod lifecycle;
pub mod purchase;
pub mod records;
pub mod registry;
pub mod resale;

pub use crate::catalog::{create_service, CreateService};
pub use crate::error::ErrorCode;
pub use crate::identity::{Identity, Signer};
pub use crate::ledger::{MintTo, TokenAccount, Transfer};
pub use crate::purchase::{purchase_service, PurchaseService, Settlement};
pub use crate::records::{Account, Marketplace, Service, NFT};
pub use crate::registry::{initialize, Initialize};
pub use crate::resale::{resell_service, ResellService};
