//! The identifier type shared by pools, positions and custody accounts.

use vstd::prelude::*;

verus! {

/// A 32-byte account identifier, stored as four 64-bit words in
/// little-endian order.  Identifiers are opaque to the logic: they are only
/// ever compared for equality or serialized into derivation seeds.
#[derive(Clone, Copy, PartialEq, Eq, Structural, Debug)]
pub struct AccountId {
    pub w0: u64,
    pub w1: u64,
    pub w2: u64,
    pub w3: u64,
}

impl AccountId {
    /// The all-zero identifier, which marks an unset field.
    pub fn zeroed() -> (r: AccountId)
        ensures
            r == AccountId::spec_zeroed(),
    {
        AccountId { w0: 0, w1: 0, w2: 0, w3: 0 }
    }

    pub open spec fn spec_zeroed() -> AccountId {
        AccountId { w0: 0, w1: 0, w2: 0, w3: 0 }
    }
}

} // verus!
