//! Reselling a receipt: ownership passes to the buyer and the listing takes
//! the new asking price. Soulbound receipts never change hands.

use vstd::prelude::*;
use crate::error::ErrorCode;
use crate::identity::{Identity, Signer};
use crate::ledger::{balance, TokenAccount, Transfer};
use crate::records::{Account, Service, NFT};

verus! {

/// Everything one resale touches.
#[derive(Clone, Debug, PartialEq, Eq)]
pub struct ResellService {
    /// The listing whose asking price the resale sets.
    pub service: Account<Service>,
    /// The receipt that changes hands.
    pub nft: Account<NFT>,
    pub seller: Signer,
    pub buyer: Signer,
    /// The balance that holds the seller's receipt token.
    pub seller_nft_token_account: TokenAccount,
    /// The balance that receives the receipt token.
    pub buyer_nft_token_account: TokenAccount,
    /// The asset of the receipt token.
    pub nft_mint: Identity,
}

impl ResellService {
    /// Why this resale is refused, if it is. A soulbound receipt is refused as
    /// such whoever offers it; after that, an offer by anyone but the owner is
    /// refused as such.
    pub open spec fn refusal(self) -> Option<ErrorCode> {
        if self.nft.data.is_soulbound {
            Some(ErrorCode::SoulboundNFTCannotBeResold)
        } else if self.nft.data.owner != self.seller.key {
            Some(ErrorCode::NotNFTOwner)
        } else if !self.seller.is_signer || !self.buyer.is_signer {
            Some(ErrorCode::Unauthorized)
        } else if self.seller_nft_token_account.amount < 1 {
            Some(ErrorCode::InsufficientFunds)
        } else {
            None
        }
    }

    /// The ledger movement a resale is settled by: the one receipt token, from
    /// seller to buyer.
    pub open spec fn handover(self) -> Transfer {
        Transfer {
            from: self.seller_nft_token_account.key,
            to: self.buyer_nft_token_account.key,
            authority: self.seller.key,
            amount: 1,
        }
    }

    /// The records as an accepted resale at `new_price` leaves them: the
    /// buyer owns the receipt, the listing asks the new price, and nothing
    /// else has changed.
    pub open spec fn resold(self, new_price: u64) -> ResellService {
        ResellService {
            service: Account {
                key: self.service.key,
                data: Service { price: new_price, ..self.service.data },
            },
            nft: Account {
                key: self.nft.key,
                data: NFT { owner: self.buyer.key, ..self.nft.data },
            },
            ..self
        }
    }
}

/// The handover of an accepted resale is covered by the seller's balance.
///
/// On a ledger that holds for the seller what the resale was shown, the
/// transfer of the receipt token is accepted. Where seller and buyer keep
/// different balances, the seller's then holds one token less and the buyer's
/// one more; every other balance is as it was.
pub proof fn handover_is_covered(ctx: ResellService, ledger: Map<Identity, nat>)
    requires
        ctx.refusal() is None,
        balance(ledger, ctx.seller_nft_token_account.key) == ctx.seller_nft_token_account.amount,
    ensures
        ctx.handover().accepted(ledger),
        ({
            let seller = ctx.seller_nft_token_account.key;
            let buyer = ctx.buyer_nft_token_account.key;
            let after = ctx.handover().applied(ledger);
            &&& seller != buyer ==> {
                &&& balance(after, seller) == balance(ledger, seller) - 1
                &&& balance(after, buyer) == balance(ledger, buyer) + 1
            }
            &&& forall|other: Identity|
                other != seller && other != buyer ==> balance(after, other) == balance(
                    ledger,
                    other,
                )
        }),
{
}

/// A resale refused for want of the receipt token is one the ledger would not
/// have settled either.
pub proof fn missing_token_is_the_ledgers_too(ctx: ResellService, ledger: Map<Identity, nat>)
    requires
        ctx.refusal() == Some(ErrorCode::InsufficientFunds),
        balance(ledger, ctx.seller_nft_token_account.key) == ctx.seller_nft_token_account.amount,
    ensures
        !ctx.handover().accepted(ledger),
{
}

/// Passes the receipt from the seller to the buyer at a new asking price.
///
/// An accepted resale makes the buyer the owner, sets the listing's price to
/// `new_price` and returns the movement of the receipt token that the ledger
/// is to apply. A refused resale changes nothing and orders nothing.
pub fn resell_service(ctx: &mut ResellService, new_price: u64) -> (result: Result<
    Transfer,
    ErrorCode,
>)
    requires
        new_price > 0,
    ensures
        match old(ctx).refusal() {
            Some(e) => result == Err::<Transfer, ErrorCode>(e) && *final(ctx) == *old(ctx),
            None => result == Ok::<Transfer, ErrorCode>(old(ctx).handover())
                && *final(ctx) == old(ctx).resold(new_price),
        },
        old(ctx).nft.data.is_soulbound ==> result == Err::<Transfer, ErrorCode>(
            ErrorCode::SoulboundNFTCannotBeResold,
        ) && *final(ctx) == *old(ctx),
        !old(ctx).nft.data.is_soulbound && old(ctx).seller.key != old(ctx).nft.data.owner
            ==> result == Err::<Transfer, ErrorCode>(ErrorCode::NotNFTOwner) && *final(ctx)
            == *old(ctx),
        final(ctx).nft.data.is_soulbound == old(ctx).nft.data.is_soulbound,
        final(ctx).service.data.is_soulbound == old(ctx).service.data.is_soulbound,
        old(ctx).service.data.wf() ==> final(ctx).service.data.wf(),
{
    if ctx.nft.data.is_soulbound {
        return Err(ErrorCode::SoulboundNFTCannotBeResold);
    }
    if ctx.nft.data.owner != ctx.seller.key {
        return Err(ErrorCode::NotNFTOwner);
    }
    if !ctx.seller.is_signer || !ctx.buyer.is_signer {
        return Err(ErrorCode::Unauthorized);
    }
    if ctx.seller_nft_token_account.amount < 1 {
        return Err(ErrorCode::InsufficientFunds);
    }
    ctx.service.data.price = new_price;
    ctx.nft.data.owner = ctx.buyer.key;
    Ok(
        Transfer {
            from: ctx.seller_nft_token_account.key,
            to: ctx.buyer_nft_token_account.key,
            authority: ctx.seller.key,
            amount: 1,
        },
    )
}

} // verus!
