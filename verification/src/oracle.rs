//! Oracle readings as plain values, and the valuation arithmetic derived
//! from them: staleness, collateral value, loan-to-value.
//!
//! The oracle itself is external: the host fetches `(price, confidence,
//! exponent, publish_time)` for a feed and hands the reading in here.
//! Every consumer of a reading rejects it once it is older than
//! [`crate::constants::MAX_PRICE_AGE_SECONDS`].

use vstd::prelude::*;

verus! {

use crate::constants::{BPS_SCALE, MAX_PRICE_AGE_SECONDS};
use crate::errors::ArithmeticError;
use crate::math::{lemma_pow10_le_18, pow10, pow10_u128};

/// One oracle reading: the asset trades at `price * 10^exponent`, known to
/// within `conf`, observed at `publish_time` (Unix seconds).
#[derive(Clone, Copy, Debug, PartialEq, Eq)]
pub struct PriceInfo {
    pub price: i64,
    pub conf: u64,
    pub exponent: i32,
    pub publish_time: i64,
}

/// A reading is stale once it is older than the staleness bound.
pub open spec fn spec_is_stale(price: PriceInfo, now: int) -> bool {
    now - price.publish_time > MAX_PRICE_AGE_SECONDS
}

/// Magnitude of the price exponent.
pub open spec fn spec_exp_abs(exponent: int) -> nat {
    if exponent >= 0 {
        exponent as nat
    } else {
        (-exponent) as nat
    }
}

/// Value of `amount` base units at the given raw price:
/// `price * amount / 10^|exponent|`.
pub open spec fn spec_collateral_value(price: int, exponent: int, amount: int) -> int {
    price * amount / pow10(spec_exp_abs(exponent))
}

/// Loan-to-value in basis points: `debt * BPS_SCALE / value`.
pub open spec fn spec_ltv_bps(debt: int, value: int) -> int
    recommends
        value > 0,
{
    debt * BPS_SCALE / value
}

/// Whether the reading is recent enough to be used.
pub fn price_is_fresh(price: &PriceInfo, now: i64) -> (r: bool)
    ensures
        r == !spec_is_stale(*price, now as int),
{
    (now as i128) - (price.publish_time as i128) <= MAX_PRICE_AGE_SECONDS as i128
}

/// Values `amount` base units of the asset at an oracle reading. A price
/// that is zero or negative carries no usable valuation and is rejected as
/// an arithmetic failure.
pub fn collateral_value(price: &PriceInfo, amount: u64) -> (r: Result<u128, ArithmeticError>)
    requires
        -18 <= price.exponent <= 18,
    ensures
        price.price <= 0 ==> r == Err::<u128, ArithmeticError>(ArithmeticError::ArithmeticOverflow),
        price.price > 0 ==> r == Ok::<u128, ArithmeticError>(
            spec_collateral_value(price.price as int, price.exponent as int, amount as int) as u128,
        ) && 0 <= spec_collateral_value(price.price as int, price.exponent as int, amount as int)
            <= u128::MAX,
{
    if price.price <= 0 {
        return Err(ArithmeticError::ArithmeticOverflow);
    }
    let exp_abs: u32 = if price.exponent >= 0 {
        price.exponent as u32
    } else {
        (-price.exponent) as u32
    };
    let divisor = pow10_u128(exp_abs);
    proof {
        lemma_pow10_le_18(exp_abs as nat);
        assert((price.price as int) * (amount as int) <= (i64::MAX as int) * (u64::MAX as int))
            by (nonlinear_arith)
            requires
                0 < price.price <= i64::MAX as int,
                0 <= amount <= u64::MAX as int,
        ;
        vstd::arithmetic::mul::lemma_mul_nonnegative(price.price as int, amount as int);
        vstd::arithmetic::div_mod::lemma_div_pos_is_pos(
            (price.price as int) * (amount as int),
            divisor as int,
        );
        vstd::arithmetic::div_mod::lemma_div_nonincreasing(
            (price.price as int) * (amount as int),
            divisor as int,
        );
    }
    Ok((price.price as u128) * (amount as u128) / divisor)
}

/// Loan-to-value of `debt` against a collateral value, in basis points. A
/// zero value makes the ratio undefined and is rejected as an arithmetic
/// failure.
pub fn ltv_bps(debt: u64, value: u128) -> (r: Result<u128, ArithmeticError>)
    ensures
        value == 0 ==> r == Err::<u128, ArithmeticError>(ArithmeticError::ArithmeticOverflow),
        value > 0 ==> r == Ok::<u128, ArithmeticError>(
            spec_ltv_bps(debt as int, value as int) as u128,
        ) && 0 <= spec_ltv_bps(debt as int, value as int) <= u128::MAX,
{
    if value == 0 {
        return Err(ArithmeticError::ArithmeticOverflow);
    }
    proof {
        vstd::arithmetic::mul::lemma_mul_nonnegative(debt as int, BPS_SCALE as int);
        vstd::arithmetic::div_mod::lemma_div_pos_is_pos(
            (debt as int) * (BPS_SCALE as int),
            value as int,
        );
        vstd::arithmetic::div_mod::lemma_div_nonincreasing(
            (debt as int) * (BPS_SCALE as int),
            value as int,
        );
    }
    Ok((debt as u128) * (BPS_SCALE as u128) / value)
}

} // verus!
