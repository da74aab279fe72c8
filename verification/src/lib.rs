//! Accounting engine for a collateral-backed stablecoin.
//!
//! Users lock collateral and mint stablecoin debt against it. Interest
//! accrues on outstanding debt through a global fixed-point index, so each
//! position's debt is computed lazily from a stored index snapshot.
//! Under-collateralized positions are liquidated into a stability pool of
//! stablecoin stakers, whose proportional shares of losses and rewards are
//! tracked in O(1) per staker by a scale-factor / cumulative-sum ledger.
//!
//! This crate holds only the accounting: the interest-rate controller, the
//! compound-accrual engine, the per-vault stability-pool ledger, and the
//! position, stake and liquidation state transitions. Token transfers,
//! account storage and the price oracle are the host's concern; every
//! operation here takes oracle readings and timestamps as plain values and
//! reports the token movements it requires as plain amounts.

pub mod collateral;
pub mod constants;
pub mod errors;
pub mod interest;
pub mod liquidation;
pub mod math;
pub mod oracle;
pub mod position;
pub mod protocol_config;
pub mod stake;
