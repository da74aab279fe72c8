//! Fixed-point scales and protocol policy bounds.

use vstd::prelude::*;

verus! {

/// Maximum loan-to-value ratio, in basis points, at or above which a
/// position becomes liquidatable and below or at which it may be opened.
pub const MAX_LTV: u16 = 8000;

/// Seconds in a (non-leap) year; converts an annualized rate to a
/// per-second rate.
pub const YEAR_IN_SECONDS: u64 = 365 * 24 * 60 * 60;

/// Basis points scale: 100% == 10_000 bps.
pub const BPS_SCALE: u16 = 10_000;

/// Fixed-point unit (1e18) for interest rates, the cumulative interest
/// index, the deposit depletion factor and the reward-per-debt accumulator.
pub const INTEREST_SCALE: u128 = 1_000_000_000_000_000_000;

/// Policy floor for the annualized interest rate: 1% APR.
pub const MIN_INTEREST_RATE: u128 = INTEREST_SCALE / 100;

/// Policy cap for the annualized interest rate: 30% APR.
pub const MAX_INTEREST_RATE: u128 = INTEREST_SCALE * 30 / 100;

/// Oracle readings older than this many seconds are rejected as stale.
pub const MAX_PRICE_AGE_SECONDS: i64 = 30;

} // verus!
