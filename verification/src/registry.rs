//! Setting up the marketplace: its configuration is written once and never
//! changed afterwards.

use vstd::prelude::*;
use crate::error::ErrorCode;
use crate::identity::Signer;
use crate::records::{Account, Marketplace};

verus! {

/// Everything the set-up of the marketplace touches.
#[derive(Clone, Copy, Debug, PartialEq, Eq)]
pub struct Initialize {
    /// The place of the configuration; vacant until the marketplace is set up.
    pub marketplace: Account<Option<Marketplace>>,
    /// Who will operate the marketplace.
    pub authority: Signer,
}

impl Initialize {
    /// Why this set-up is refused, if it is. An existing configuration is
    /// reported first, whoever asks.
    pub open spec fn refusal(self) -> Option<ErrorCode> {
        if self.marketplace.data is Some {
            Some(ErrorCode::AlreadyInitialized)
        } else if !self.authority.is_signer {
            Some(ErrorCode::Unauthorized)
        } else {
            None
        }
    }

    /// The records as an accepted set-up with the given fee leaves them.
    pub open spec fn initialized(self, marketplace_fee: u64) -> Initialize {
        Initialize {
            marketplace: Account {
                key: self.marketplace.key,
                data: Some(Marketplace { authority: self.authority.key, fee: marketplace_fee }),
            },
            ..self
        }
    }
}

/// Creates the marketplace configuration with the given authority and fee.
///
/// A refused set-up changes nothing; in particular an existing configuration
/// is never overwritten.
pub fn initialize(ctx: &mut Initialize, marketplace_fee: u64) -> (result: Result<(), ErrorCode>)
    ensures
        match old(ctx).refusal() {
            Some(e) => result == Err::<(), ErrorCode>(e) && *final(ctx) == *old(ctx),
            None => result == Ok::<(), ErrorCode>(()) && *final(ctx) == old(ctx).initialized(
                marketplace_fee,
            ),
        },
        old(ctx).marketplace.data is Some ==> result == Err::<(), ErrorCode>(
            ErrorCode::AlreadyInitialized,
        ),
{
    if ctx.marketplace.data.is_some() {
        return Err(ErrorCode::AlreadyInitialized);
    }
    if !ctx.authority.is_signer {
        return Err(ErrorCode::Unauthorized);
    }
    ctx.marketplace.data = Some(Marketplace { authority: ctx.authority.key, fee: marketplace_fee });
    Ok(())
}

} // verus!
