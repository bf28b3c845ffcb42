use vstd::prelude::*;

verus! {

/// Every way an operation of the program can be rejected.
#[derive(Clone, Copy, Debug, PartialEq, Eq, Structural)]
pub enum CoinFlipError {
    /// The tier index is not below the number of configured tiers.
    InvalidTier,
    /// More tiers were requested than the table can hold.
    TooManyTiers,
    /// A checked addition, multiplication or subtraction left the integer range.
    Overflow,
    /// The signer is not the identity that the operation is scoped to.
    Unauthorized,
    /// A transfer would take more than the source balance holds.
    InsufficientFunds,
    /// The oracle feed could not be read.
    OracleUnavailable,
}

} // verus!
