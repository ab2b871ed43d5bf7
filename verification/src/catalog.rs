//! Listing a service for sale.

use vstd::prelude::*;
use crate::error::ErrorCode;
use crate::identity::Signer;
use crate::records::{Account, Service};

verus! {

/// Everything the listing of a new service touches.
#[derive(Clone, Debug, PartialEq, Eq)]
pub struct CreateService {
    /// The place for the new listing; it must be vacant.
    pub service: Account<Option<Service>>,
    /// Who offers the service.
    pub vendor: Signer,
}

impl CreateService {
    /// Why this listing is refused, if it is.
    pub open spec fn refusal(self) -> Option<ErrorCode> {
        if self.service.data is Some {
            Some(ErrorCode::AlreadyExists)
        } else if !self.vendor.is_signer {
            Some(ErrorCode::Unauthorized)
        } else {
            None
        }
    }

    /// The listing a vendor's offer creates: open for purchase from the start.
    pub open spec fn listing(
        self,
        name: String,
        description: String,
        price: u64,
        is_soulbound: bool,
    ) -> Service {
        Service {
            vendor: self.vendor.key,
            name,
            description,
            price,
            is_soulbound,
            is_active: true,
        }
    }
}

/// Lists a new service of the vendor at the given price.
///
/// An accepted listing stands in its place, active and well formed; a
/// refused one changes nothing.
pub fn create_service(
    ctx: &mut CreateService,
    name: String,
    description: String,
    price: u64,
    is_soulbound: bool,
) -> (result: Result<(), ErrorCode>)
    requires
        price > 0,
    ensures
        match old(ctx).refusal() {
            Some(e) => result == Err::<(), ErrorCode>(e) && *final(ctx) == *old(ctx),
            None => result == Ok::<(), ErrorCode>(()) && *final(ctx) == (CreateService {
                service: Account {
                    key: old(ctx).service.key,
                    data: Some(old(ctx).listing(name, description, price, is_soulbound)),
                },
                vendor: old(ctx).vendor,
            }),
        },
        result is Ok ==> (final(ctx).service.data matches Some(s) && s.wf() && s.is_active),
{
    if ctx.service.data.is_some() {
        return Err(ErrorCode::AlreadyExists);
    }
    if !ctx.vendor.is_signer {
        return Err(ErrorCode::Unauthorized);
    }
    ctx.service.data = Some(
        Service { vendor: ctx.vendor.key, name, description, price, is_soulbound, is_active: true },
    );
    Ok(())
}

} // verus!
