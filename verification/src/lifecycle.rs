//! The life of a receipt, from the purchase that mints it through its
//! resales. A soulbound receipt stays where it was minted; a transferable one
//! can change hands any number of times, each time by its current owner only.

use vstd::prelude::*;
use crate::error::ErrorCode;
use crate::purchase::PurchaseService;
use crate::records::{Account, NFT};
use crate::resale::ResellService;

verus! {

/// The resale offers `receipt`, and it is the receipt's owner who offers it:
/// both parties have signed and the seller holds the receipt token.
pub open spec fn offered_by_owner(resale: ResellService, receipt: Account<NFT>) -> bool {
    &&& resale.nft == receipt
    &&& resale.seller.key == receipt.data.owner
    &&& resale.seller.is_signer
    &&& resale.buyer.is_signer
    &&& resale.seller_nft_token_account.amount >= 1
}

/// A receipt minted for a soulbound service is never resold: whoever offers
/// it, to whomever and under whatever listing, the resale is refused as
/// `SoulboundNFTCannotBeResold`.
pub proof fn soulbound_receipt_is_never_resold(purchase: PurchaseService, resale: ResellService)
    requires
        purchase.service.data.is_soulbound,
        purchase.refusal() is None,
        resale.nft == purchase.receipt(),
    ensures
        resale.refusal() == Some(ErrorCode::SoulboundNFTCannotBeResold),
{
}

/// A receipt minted for a transferable service can be resold by its buyer.
pub proof fn transferable_receipt_can_be_resold(purchase: PurchaseService, resale: ResellService)
    requires
        !purchase.service.data.is_soulbound,
        purchase.refusal() is None,
        offered_by_owner(resale, purchase.receipt()),
    ensures
        resale.refusal() is None,
{
}

/// Two purchases of one transferable service by different buyers, one after
/// the other, mint two receipts that differ and stand in different places.
/// Each can then be resold by its own owner, and neither resale depends on
/// the other: whichever receipt is resold first, and at whatever price, the
/// other is still accepted under the listing as that resale left it.
pub proof fn purchases_mint_independent_receipts(
    first: PurchaseService,
    second: PurchaseService,
    resale_of_first: ResellService,
    resale_of_second: ResellService,
)
    requires
        first.service == second.service,
        !first.service.data.is_soulbound,
        first.buyer.key != second.buyer.key,
        first.refusal() is None,
        second.refusal() is None,
        // The second purchase comes after the first: had it named the same
        // place for its receipt, it would have found the first receipt there.
        second.nft.key == first.nft.key ==> second.nft == first.purchased().nft,
        offered_by_owner(resale_of_first, first.receipt()),
        offered_by_owner(resale_of_second, second.receipt()),
    ensures
        first.receipt().key != second.receipt().key,
        first.minted_receipt() != second.minted_receipt(),
        resale_of_first.refusal() is None,
        resale_of_second.refusal() is None,
        forall|price: u64|
            (ResellService {
                service: (#[trigger] resale_of_first.resold(price)).service,
                ..resale_of_second
            }).refusal() is None,
        forall|price: u64|
            (ResellService {
                service: (#[trigger] resale_of_second.resold(price)).service,
                ..resale_of_first
            }).refusal() is None,
{
}

/// An accepted resale hands the right to resell from the seller to the
/// buyer: the receipt stays transferable, the buyer's next offer of it is
/// accepted, and an offer by the former owner is refused as `NotNFTOwner`.
pub proof fn resale_passes_the_right_to_resell(
    resale: ResellService,
    new_price: u64,
    next: ResellService,
)
    requires
        resale.refusal() is None,
        next.nft == resale.resold(new_price).nft,
    ensures
        !next.nft.data.is_soulbound,
        offered_by_owner(next, resale.resold(new_price).nft) ==> next.refusal() is None,
        next.seller.key == resale.seller.key && resale.seller.key != resale.buyer.key
            ==> next.refusal() == Some(ErrorCode::NotNFTOwner),
{
}

} // verus!
