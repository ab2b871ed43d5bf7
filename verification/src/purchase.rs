//! Buying a service: the price is split between vendor and marketplace, and
//! the buyer receives a fresh ownership receipt.

use vstd::prelude::*;
use crate::error::ErrorCode;
use crate::identity::{Identity, Signer};
use crate::ledger::{balance, MintTo, TokenAccount, Transfer};
use crate::records::{Account, Marketplace, Service, NFT};

verus! {

/// Everything one purchase touches.
#[derive(Clone, Debug, PartialEq, Eq)]
pub struct PurchaseService {
    /// The listing being bought.
    pub service: Account<Service>,
    /// The marketplace configuration in force.
    pub marketplace: Account<Marketplace>,
    pub buyer: Signer,
    /// The balance the buyer pays from.
    pub buyer_token_account: TokenAccount,
    /// The balance the vendor is paid into.
    pub vendor_token_account: TokenAccount,
    /// The balance that collects the marketplace fee.
    pub marketplace_token_account: TokenAccount,
    /// The place for the new receipt; it must be vacant.
    pub nft: Account<Option<NFT>>,
    /// The asset of which one unit is minted as the receipt token.
    pub nft_mint: Identity,
    /// The balance that receives the receipt token.
    pub buyer_nft_token_account: TokenAccount,
    /// Who pays for the new record and authorises the mint.
    pub payer: Signer,
}

/// The ledger movements that make up one purchase. They belong together:
/// either all of them are applied or none.
#[derive(Clone, Copy, Debug, PartialEq, Eq)]
pub struct Settlement {
    /// The vendor's share of the price, from buyer to vendor.
    pub vendor_payment: Transfer,
    /// The marketplace fee, from buyer to marketplace.
    pub fee_payment: Transfer,
    /// The single receipt token minted to the buyer.
    pub receipt: MintTo,
}

impl PurchaseService {
    /// Why this purchase is refused, if it is. The fee is looked at first, so
    /// a fee above the price is reported as such whatever else is wrong.
    pub open spec fn refusal(self) -> Option<ErrorCode> {
        if self.marketplace.data.fee > self.service.data.price {
            Some(ErrorCode::InvalidFeeConfiguration)
        } else if !self.service.data.is_active {
            Some(ErrorCode::ServiceInactive)
        } else if !self.buyer.is_signer || !self.payer.is_signer {
            Some(ErrorCode::Unauthorized)
        } else if self.nft.data is Some {
            Some(ErrorCode::AlreadyExists)
        } else if self.buyer_token_account.amount < self.service.data.price {
            Some(ErrorCode::InsufficientFunds)
        } else {
            None
        }
    }

    /// What the vendor receives: the price less the marketplace fee.
    pub open spec fn vendor_share(self) -> int {
        self.service.data.price - self.marketplace.data.fee
    }

    /// The receipt this purchase mints.
    pub open spec fn minted_receipt(self) -> NFT {
        NFT {
            owner: self.buyer.key,
            service: self.service.key,
            is_soulbound: self.service.data.is_soulbound,
        }
    }

    /// The receipt this purchase mints, together with the place it stands in.
    pub open spec fn receipt(self) -> Account<NFT> {
        Account { key: self.nft.key, data: self.minted_receipt() }
    }

    /// The ledger movements this purchase is settled by.
    pub open spec fn settlement(self) -> Settlement
        recommends
            self.refusal() is None,
    {
        Settlement {
            vendor_payment: Transfer {
                from: self.buyer_token_account.key,
                to: self.vendor_token_account.key,
                authority: self.buyer.key,
                amount: self.vendor_share() as u64,
            },
            fee_payment: Transfer {
                from: self.buyer_token_account.key,
                to: self.marketplace_token_account.key,
                authority: self.buyer.key,
                amount: self.marketplace.data.fee,
            },
            receipt: MintTo {
                mint: self.nft_mint,
                to: self.buyer_nft_token_account.key,
                authority: self.payer.key,
                amount: 1,
            },
        }
    }

    /// The records as an accepted purchase leaves them: the receipt stands in
    /// its place and nothing else has changed.
    pub open spec fn purchased(self) -> PurchaseService {
        PurchaseService {
            nft: Account { key: self.nft.key, data: Some(self.minted_receipt()) },
            ..self
        }
    }
}

impl Settlement {
    /// The ledger after the two payments, the vendor's first.
    pub open spec fn paid(self, ledger: Map<Identity, nat>) -> Map<Identity, nat> {
        self.fee_payment.applied(self.vendor_payment.applied(ledger))
    }

    /// The ledger after the whole settlement: both payments, then the mint.
    pub open spec fn settled(self, ledger: Map<Identity, nat>) -> Map<Identity, nat> {
        self.receipt.applied(self.paid(ledger))
    }
}

/// The settlement of an accepted purchase is covered by the buyer's balance.
///
/// On a ledger that holds for the buyer what the purchase was shown, both
/// payments are accepted in turn. Where buyer, vendor and marketplace keep
/// three different balances, the buyer's then holds the price less, the
/// vendor's the price without the fee more, and the marketplace's the fee
/// more; every other balance is as it was: nothing is created or lost.
pub proof fn settlement_is_covered(ctx: PurchaseService, ledger: Map<Identity, nat>)
    requires
        ctx.refusal() is None,
        balance(ledger, ctx.buyer_token_account.key) == ctx.buyer_token_account.amount,
    ensures
        ctx.settlement().vendor_payment.accepted(ledger),
        ctx.settlement().fee_payment.accepted(ctx.settlement().vendor_payment.applied(ledger)),
        ({
            let buyer = ctx.buyer_token_account.key;
            let vendor = ctx.vendor_token_account.key;
            let market = ctx.marketplace_token_account.key;
            let paid = ctx.settlement().paid(ledger);
            &&& buyer != vendor && buyer != market && vendor != market ==> {
                &&& balance(paid, buyer) == balance(ledger, buyer) - ctx.service.data.price
                &&& balance(paid, vendor) == balance(ledger, vendor) + ctx.vendor_share()
                &&& balance(paid, market) == balance(ledger, market) + ctx.marketplace.data.fee
            }
            &&& forall|other: Identity|
                other != buyer && other != vendor && other != market ==> balance(paid, other)
                    == balance(ledger, other)
        }),
{
}

/// A purchase refused for want of funds is one the ledger would not have
/// settled either. Where the buyer pays the vendor out of a balance that is
/// not the vendor's own, the ledger would refuse the first payment or, having
/// applied it, the second.
pub proof fn shortfall_is_the_ledgers_too(ctx: PurchaseService, ledger: Map<Identity, nat>)
    requires
        ctx.refusal() == Some(ErrorCode::InsufficientFunds),
        balance(ledger, ctx.buyer_token_account.key) == ctx.buyer_token_account.amount,
        ctx.buyer_token_account.key != ctx.vendor_token_account.key,
    ensures
        !ctx.settlement().vendor_payment.accepted(ledger) || !ctx.settlement().fee_payment.accepted(
            ctx.settlement().vendor_payment.applied(ledger),
        ),
{
}

/// The mint of an accepted purchase gives the buyer exactly one receipt
/// token, whatever the payments did to that balance before.
pub proof fn settlement_mints_one_receipt(ctx: PurchaseService, ledger: Map<Identity, nat>)
    requires
        ctx.refusal() is None,
    ensures
        ({
            let receipts = ctx.buyer_nft_token_account.key;
            let paid = ctx.settlement().paid(ledger);
            let settled = ctx.settlement().settled(ledger);
            &&& balance(settled, receipts) == balance(paid, receipts) + 1
            &&& forall|other: Identity|
                other != receipts ==> balance(settled, other) == balance(paid, other)
        }),
{
}

/// Buys the service for the buyer.
///
/// An accepted purchase writes the new receipt into its place and returns
/// the movements the token ledger is to apply: the vendor's share and the
/// fee, which add up to the price exactly, and one receipt token for the
/// buyer. A refused purchase changes nothing and orders nothing.
pub fn purchase_service(ctx: &mut PurchaseService) -> (result: Result<Settlement, ErrorCode>)
    ensures
        match old(ctx).refusal() {
            Some(e) => result == Err::<Settlement, ErrorCode>(e) && *final(ctx) == *old(ctx),
            None => result == Ok::<Settlement, ErrorCode>(old(ctx).settlement())
                && *final(ctx) == old(ctx).purchased(),
        },
        result matches Ok(s) ==> s.vendor_payment.amount + s.fee_payment.amount == old(
            ctx,
        ).service.data.price,
        old(ctx).marketplace.data.fee > old(ctx).service.data.price ==> result == Err::<
            Settlement,
            ErrorCode,
        >(ErrorCode::InvalidFeeConfiguration),
{
    let price: u64 = ctx.service.data.price;
    let fee: u64 = ctx.marketplace.data.fee;
    if fee > price {
        return Err(ErrorCode::InvalidFeeConfiguration);
    }
    if !ctx.service.data.is_active {
        return Err(ErrorCode::ServiceInactive);
    }
    if !ctx.buyer.is_signer || !ctx.payer.is_signer {
        return Err(ErrorCode::Unauthorized);
    }
    if ctx.nft.data.is_some() {
        return Err(ErrorCode::AlreadyExists);
    }
    if ctx.buyer_token_account.amount < price {
        return Err(ErrorCode::InsufficientFunds);
    }
    let vendor_payment = Transfer {
        from: ctx.buyer_token_account.key,
        to: ctx.vendor_token_account.key,
        authority: ctx.buyer.key,
        amount: price - fee,
    };
    let fee_payment = Transfer {
        from: ctx.buyer_token_account.key,
        to: ctx.marketplace_token_account.key,
        authority: ctx.buyer.key,
        amount: fee,
    };
    ctx.nft.data = Some(
        NFT {
            owner: ctx.buyer.key,
            service: ctx.service.key,
            is_soulbound: ctx.service.data.is_soulbound,
        },
    );
    let receipt = MintTo {
        mint: ctx.nft_mint,
        to: ctx.buyer_nft_token_account.key,
        authority: ctx.payer.key,
        amount: 1,
    };
    Ok(Settlement { vendor_payment, fee_payment, receipt })
}

} // verus!
