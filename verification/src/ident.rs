//! Plain-value stand-ins for the environment's 32-byte identity and hash
//! fields, split into two 128-bit halves so that equality is field equality.

use vstd::prelude::*;

verus! {

/// A principal identity: the 32-byte key of an account, authority or payee,
/// as the two halves of its byte representation.
#[derive(Clone, Copy, PartialEq, Eq, Structural, Debug, Hash)]
pub struct Ident {
    pub hi: u128,
    pub lo: u128,
}

impl Ident {
    /// The all-zero identity.
    pub open spec fn spec_zero() -> Ident {
        Ident { hi: 0, lo: 0 }
    }

    /// The all-zero identity.
    pub fn zero() -> (r: Ident)
        ensures
            r == Ident::spec_zero(),
    {
        Ident { hi: 0, lo: 0 }
    }
}

/// A 32-byte hash value (integrity anchor, verification or migration hash),
/// as the two halves of its byte representation.
#[derive(Clone, Copy, PartialEq, Eq, Structural, Debug)]
pub struct Hash32 {
    pub hi: u128,
    pub lo: u128,
}

impl Hash32 {
    /// The all-zero hash.
    pub open spec fn spec_zero() -> Hash32 {
        Hash32 { hi: 0, lo: 0 }
    }

    /// The all-zero hash.
    pub fn zero() -> (r: Hash32)
        ensures
            r == Hash32::spec_zero(),
    {
        Hash32 { hi: 0, lo: 0 }
    }

    /// Whether every byte of the hash is zero.
    pub open spec fn is_zero(self) -> bool {
        self == Hash32::spec_zero()
    }
}

} // verus!
