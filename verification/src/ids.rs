use vstd::prelude::*;

verus! {

/// A 32-byte on-ledger public identifier (a public key, or a derived
/// program address), held as two machine words so that equality is the
/// equality of the underlying bytes.
#[derive(Clone, Copy, PartialEq, Eq, Structural, Debug, Hash)]
pub struct AccountId {
    /// The first sixteen bytes.
    pub hi: u128,
    /// The last sixteen bytes.
    pub lo: u128,
}

} // verus!
