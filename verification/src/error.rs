//! The ways in which a marketplace operation is refused.

use vstd::prelude::*;

verus! {

/// Why an operation was refused. A refused operation changes nothing.
#[derive(Clone, Copy, Debug, PartialEq, Eq, Structural)]
pub enum ErrorCode {
    /// The receipt is bound to its first owner for good.
    SoulboundNFTCannotBeResold,
    /// The seller is not the receipt's current owner.
    NotNFTOwner,
    /// The marketplace configuration exists already.
    AlreadyInitialized,
    /// The place chosen for a new record is occupied.
    AlreadyExists,
    /// The listing is not open for purchase.
    ServiceInactive,
    /// The marketplace fee exceeds the listing's price.
    InvalidFeeConfiguration,
    /// The paying balance holds less than the amount to move.
    InsufficientFunds,
    /// A party's signature was not confirmed.
    Unauthorized,
}

impl ErrorCode {
    /// The text shown to a caller for each refusal.
    pub open spec fn message_text(self) -> Seq<char> {
        match self {
            ErrorCode::SoulboundNFTCannotBeResold => "Soulbound NFTs cannot be resold"@,
            ErrorCode::NotNFTOwner => "Only the NFT owner can resell"@,
            ErrorCode::AlreadyInitialized => "The marketplace is already initialized"@,
            ErrorCode::AlreadyExists => "A record already exists at this address"@,
            ErrorCode::ServiceInactive => "The service is not active"@,
            ErrorCode::InvalidFeeConfiguration => "The marketplace fee exceeds the service price"@,
            ErrorCode::InsufficientFunds => "The paying account holds too little"@,
            ErrorCode::Unauthorized => "A required signature is missing"@,
        }
    }

    /// A human-readable description of the refusal.
    pub fn message(&self) -> (text: &'static str)
        ensures
            text@ == self.message_text(),
    {
        match self {
            ErrorCode::SoulboundNFTCannotBeResold => "Soulbound NFTs cannot be resold",
            ErrorCode::NotNFTOwner => "Only the NFT owner can resell",
            ErrorCode::AlreadyInitialized => "The marketplace is already initialized",
            ErrorCode::AlreadyExists => "A record already exists at this address",
            ErrorCode::ServiceInactive => "The service is not active",
            ErrorCode::InvalidFeeConfiguration => "The marketplace fee exceeds the service price",
            ErrorCode::InsufficientFunds => "The paying account holds too little",
            ErrorCode::Unauthorized => "A required signature is missing",
        }
    }
}

} // verus!
