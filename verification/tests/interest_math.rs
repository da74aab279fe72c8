//! The fixed-point Taylor exponential, the rate controller's clamping,
//! and the compound-interest growth factor on exact values.

use cdp_stablecoin_protocol::constants::{
    INTEREST_SCALE, MAX_INTEREST_RATE, MIN_INTEREST_RATE,
};
use cdp_stablecoin_protocol::errors::ArithmeticError;
use cdp_stablecoin_protocol::interest::{
    calculate_interest_rate, compound_interest, exponential_approximation,
};

#[test]
fn exp_of_zero_is_one() {
    assert_eq!(exponential_approximation(false, 0), Ok(INTEREST_SCALE));
}

#[test]
fn exp_of_one_matches_series() {
    // 1 + 1 + 1/2 + 1/6, truncated per step in 1e18 fixed point.
    assert_eq!(
        exponential_approximation(false, INTEREST_SCALE),
        Ok(2_666_666_666_666_666_666)
    );
}

#[test]
fn exp_of_minus_one_matches_series() {
    // 1 - 1 + 1/2 - 1/6, truncated per step in 1e18 fixed point.
    assert_eq!(
        exponential_approximation(true, INTEREST_SCALE),
        Ok(333_333_333_333_333_334)
    );
}

#[test]
fn exp_overflow_is_reported() {
    // x^2 alone exceeds the u128 range.
    assert_eq!(
        exponential_approximation(false, 30_000_000_000_000_000_000),
        Err(ArithmeticError::ArithmeticOverflow)
    );
}

#[test]
fn rate_at_peg_is_base_rate() {
    // Price exactly at peg: deviation 0, e^0 = 1, rate = 5% in 1e18 terms.
    let r = calculate_interest_rate(1_000_000, -6, 500, 200).unwrap();
    assert_eq!(r, 50_000_000_000_000_000);
}

#[test]
fn rate_below_peg_rises() {
    // 0.1% below peg with sigma 2%: x = 0.05, rate = 5% * e^0.05.
    let r = calculate_interest_rate(999_000, -6, 500, 200).unwrap();
    assert_eq!(r, 52_563_541_666_666_666);
    assert!(r > 50_000_000_000_000_000);
}

#[test]
fn rate_above_peg_clamps_to_minimum() {
    // 5% above peg with sigma 2%: the series goes negative and the rate
    // clamps at the policy floor.
    let r = calculate_interest_rate(1_050_000, -6, 500, 200).unwrap();
    assert_eq!(r, MIN_INTEREST_RATE);
}

#[test]
fn rate_far_below_peg_clamps_to_maximum() {
    // 10% below peg with sigma 2%: x = 5, e^x ~ 39, clamped at the cap.
    let r = calculate_interest_rate(900_000, -6, 500, 200).unwrap();
    assert_eq!(r, MAX_INTEREST_RATE);
}

#[test]
fn rate_overflow_is_reported() {
    // A wildly negative price with the smallest sensitivity drives the
    // rescaled deviation past the u128 range.
    assert_eq!(
        calculate_interest_rate(i64::MIN, -18, 500, 1),
        Err(ArithmeticError::ArithmeticOverflow)
    );
}

#[test]
fn growth_factor_at_zero_elapsed_is_one() {
    assert_eq!(compound_interest(100_000_000_000_000_000, 0), Ok(INTEREST_SCALE));
}

#[test]
fn growth_factor_at_one_second_is_one_plus_rate() {
    let r = 100_000_000_000_000_000u128;
    assert_eq!(compound_interest(r, 1), Ok(INTEREST_SCALE + r));
}

#[test]
fn growth_factor_small_powers_are_exact() {
    // (1.1)^t in 1e18 fixed point, one rescale per multiplication.
    let r = 100_000_000_000_000_000u128;
    assert_eq!(compound_interest(r, 2), Ok(1_210_000_000_000_000_000));
    assert_eq!(compound_interest(r, 3), Ok(1_331_000_000_000_000_000));
    assert_eq!(compound_interest(r, 4), Ok(1_464_100_000_000_000_000));
}

#[test]
fn growth_factor_binomial_expansion() {
    // 1 + 5r + C(5,2) r^2 + C(5,3) r^3 with r = 0.1.
    let r = 100_000_000_000_000_000u128;
    assert_eq!(compound_interest(r, 5), Ok(1_610_000_000_000_000_000));
}

#[test]
fn growth_factor_never_below_one() {
    let r = 1_585_489_599u128;
    for t in 0..10u128 {
        assert!(compound_interest(r, t).unwrap() >= INTEREST_SCALE);
    }
}
