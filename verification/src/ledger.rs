//! What the marketplace asks of the token ledger. The ledger itself is kept
//! elsewhere; an operation reads a balance and says which movements are due.
//!
//! The spec functions below state how the marketplace expects the ledger to
//! treat those movements: a transfer is accepted when the paying balance
//! covers it, a mint always.

use vstd::prelude::*;
use crate::identity::Identity;

verus! {

/// A token balance as the ledger reported it when the operation began.
#[derive(Clone, Copy, Debug, PartialEq, Eq)]
pub struct TokenAccount {
    /// The address of the balance.
    pub key: Identity,
    /// The units it holds.
    pub amount: u64,
}

/// An order to move `amount` units from one balance to another.
#[derive(Clone, Copy, Debug, PartialEq, Eq)]
pub struct Transfer {
    pub from: Identity,
    pub to: Identity,
    /// The party on whose word the units move.
    pub authority: Identity,
    pub amount: u64,
}

/// An order to create `amount` new units of an asset in a balance.
#[derive(Clone, Copy, Debug, PartialEq, Eq)]
pub struct MintTo {
    /// The asset to mint.
    pub mint: Identity,
    pub to: Identity,
    /// The party on whose word the units are created.
    pub authority: Identity,
    pub amount: u64,
}

/// What a balance holds in a ledger; a balance the ledger does not know
/// holds nothing.
pub open spec fn balance(ledger: Map<Identity, nat>, account: Identity) -> nat {
    if ledger.dom().contains(account) {
        ledger[account]
    } else {
        0
    }
}

impl Transfer {
    /// The ledger accepts a transfer exactly when the paying balance holds
    /// the amount.
    pub open spec fn accepted(self, ledger: Map<Identity, nat>) -> bool {
        balance(ledger, self.from) >= self.amount
    }

    /// The ledger after an accepted transfer: the amount has left the paying
    /// balance and arrived in the receiving one.
    pub open spec fn applied(self, ledger: Map<Identity, nat>) -> Map<Identity, nat>
        recommends
            self.accepted(ledger),
    {
        let debited = ledger.insert(self.from, (balance(ledger, self.from) - self.amount) as nat);
        debited.insert(self.to, (balance(debited, self.to) + self.amount) as nat)
    }
}

impl MintTo {
    /// The ledger after a mint: the receiving balance holds `amount` more.
    pub open spec fn applied(self, ledger: Map<Identity, nat>) -> Map<Identity, nat> {
        ledger.insert(self.to, (balance(ledger, self.to) + self.amount) as nat)
    }
}

} // verus!
