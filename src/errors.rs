use vstd::prelude::*;

verus! {

/// Why a request was turned down. A request that fails leaves every stored
/// record as it was.
#[derive(Clone, Copy, Debug, PartialEq, Eq, Structural)]
pub enum Errors {
    /// The caller is not the identity that claimed the record.
    InvalidOwner,
    /// The record at the derived address is not of the expected kind.
    TypeMismatch,
    /// No bump value puts the derived address outside the signable space.
    DerivationExhausted,
    /// The counter already holds the largest value a `u64` can hold.
    ValueOverflow,
}

} // verus!
