//! Error taxonomy. Every operation aborts as a whole: an error means no
//! state was changed.

use vstd::prelude::*;

verus! {

/// Rejections tied to a collateral-backed position.
#[derive(Clone, Copy, Debug, PartialEq, Eq)]
pub enum PositionError {
    /// The configured interest-rate bounds are out of policy range.
    InvalidInterestRate,
    /// Opening above the maximum loan-to-value, or liquidating a healthy
    /// position.
    InvalidLTV,
}

/// Rejections tied to a collateral vault.
#[derive(Clone, Copy, Debug, PartialEq, Eq)]
pub enum CollateralError {
    /// The asset is not accepted as collateral.
    InvalidMintAsCollateral,
    /// The vault holds less collateral than the operation would move.
    InsufficientCollateral,
}

/// Failure of a checked arithmetic step; the whole operation aborts with
/// no state change.
#[derive(Clone, Copy, Debug, PartialEq, Eq)]
pub enum ArithmeticError {
    ArithmeticOverflow,
}

/// Rejections tied to stability-pool stakes.
#[derive(Clone, Copy, Debug, PartialEq, Eq)]
pub enum StakeError {
    /// A withdrawal or absorption exceeds the available balance.
    InsufficientFunds,
    /// The requested amount is not acceptable.
    InvalidAmount,
    /// A stake record already exists for this staker and vault.
    StakeAccountExists,
    /// No stake record exists for this staker and vault.
    StakeAccountNotFound,
}

/// Union of everything a composite operation can report.
#[derive(Clone, Copy, Debug, PartialEq, Eq)]
pub enum ProtocolError {
    Position(PositionError),
    Collateral(CollateralError),
    Arithmetic(ArithmeticError),
    Stake(StakeError),
    /// The oracle reading is older than the staleness bound.
    StalePrice,
}

} // verus!
