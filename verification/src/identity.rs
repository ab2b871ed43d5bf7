//! Identities of the parties and records of the marketplace.

use vstd::prelude::*;

verus! {

/// A 32-byte address naming a party, a record or a token balance.
#[derive(Clone, Copy, Debug, Eq)]
pub struct Identity {
    pub bytes: [u8; 32],
}

impl PartialEq for Identity {
    /// Byte-wise comparison of the two addresses.
    fn eq(&self, other: &Identity) -> (r: bool) {
        let mut i: usize = 0;
        while i < 32
            invariant
                i <= 32,
                forall|j: int| 0 <= j < i ==> self.bytes[j] == other.bytes[j],
            decreases 32 - i,
        {
            if self.bytes[i] != other.bytes[i] {
                return false;
            }
            i += 1;
        }
        assert(self.bytes =~= other.bytes);
        true
    }
}

impl vstd::std_specs::cmp::PartialEqSpecImpl for Identity {
    open spec fn obeys_eq_spec() -> bool {
        true
    }

    /// Two identities are equal exactly when all 32 bytes agree.
    open spec fn eq_spec(&self, other: &Identity) -> bool {
        *self == *other
    }
}

impl Identity {
    /// The identity with the given bytes.
    pub fn new(bytes: [u8; 32]) -> (id: Identity)
        ensures
            id.bytes == bytes,
    {
        Identity { bytes }
    }

    /// The bytes of this identity.
    pub fn to_bytes(&self) -> (bytes: [u8; 32])
        ensures
            bytes == self.bytes,
    {
        self.bytes
    }
}

/// A party named in an operation, together with what the identity verifier
/// reported of its signature. The marketplace takes that report as given.
#[derive(Clone, Copy, Debug, PartialEq, Eq)]
pub struct Signer {
    /// The identity the party claims.
    pub key: Identity,
    /// Whether the claim was confirmed as authentic.
    pub is_signer: bool,
}

} // verus!
