//! Opening, closing and liquidating positions against oracle readings.

use cdp_stablecoin_protocol::collateral::CollateralConfig;
use cdp_stablecoin_protocol::constants::INTEREST_SCALE;
use cdp_stablecoin_protocol::errors::{
    ArithmeticError, CollateralError, PositionError, ProtocolError, StakeError,
};
use cdp_stablecoin_protocol::liquidation::liquidate_position;
use cdp_stablecoin_protocol::oracle::PriceInfo;
use cdp_stablecoin_protocol::position::{close_position, open_position, Position};
use cdp_stablecoin_protocol::protocol_config::ProtocolConfig;

fn unit_price(now: i64) -> PriceInfo {
    PriceInfo { price: 1, conf: 0, exponent: 0, publish_time: now }
}

fn fresh_ledgers() -> (ProtocolConfig, CollateralConfig) {
    (
        ProtocolConfig::initialize_protocol_config(500, 200, 5000, 0),
        CollateralConfig::initialize_collateral_vault(),
    )
}

#[test]
fn open_below_max_ltv_succeeds() {
    // Collateral worth 10,000 against 7,999 debt: 7999 bps, just under.
    let (mut p, mut v) = fresh_ledgers();
    let position = open_position(&mut p, &mut v, 10_000, 7_999, &unit_price(100), 100).unwrap();
    assert_eq!(position.collateral_amount, 10_000);
    assert_eq!(position.debt_amount, 7_999);
    assert_eq!(position.prev_cumulative_interest_rate, INTEREST_SCALE);
    assert_eq!(v.collateral_amount, 10_000);
    assert_eq!(p.total_debt, 7_999);
}

#[test]
fn open_at_max_ltv_succeeds() {
    let (mut p, mut v) = fresh_ledgers();
    assert!(open_position(&mut p, &mut v, 10_000, 8_000, &unit_price(100), 100).is_ok());
}

#[test]
fn open_above_max_ltv_is_rejected() {
    // 8001 bps: just over the limit.
    let (mut p, mut v) = fresh_ledgers();
    let before = (p, v);
    assert_eq!(
        open_position(&mut p, &mut v, 10_000, 8_001, &unit_price(100), 100),
        Err(ProtocolError::Position(PositionError::InvalidLTV))
    );
    assert_eq!((p, v), before);
}

#[test]
fn open_with_stale_price_is_rejected() {
    let (mut p, mut v) = fresh_ledgers();
    // Reading is 31 seconds old, one past the bound.
    assert_eq!(
        open_position(&mut p, &mut v, 10_000, 7_999, &unit_price(100), 131),
        Err(ProtocolError::StalePrice)
    );
}

#[test]
fn open_with_worthless_collateral_is_rejected() {
    let (mut p, mut v) = fresh_ledgers();
    let bad = PriceInfo { price: 0, conf: 0, exponent: 0, publish_time: 100 };
    assert_eq!(
        open_position(&mut p, &mut v, 10_000, 1, &bad, 100),
        Err(ProtocolError::Arithmetic(ArithmeticError::ArithmeticOverflow))
    );
}

#[test]
fn close_returns_collateral_and_burns_debt() {
    let (mut p, mut v) = fresh_ledgers();
    let mut position = open_position(&mut p, &mut v, 10_000, 7_999, &unit_price(100), 100).unwrap();
    let out = close_position(&mut p, &mut v, &mut position, &unit_price(100), 100).unwrap();
    assert_eq!(out.collateral_returned, 10_000);
    assert_eq!(out.debt_burned, 7_999);
    assert_eq!(v.collateral_amount, 0);
    assert_eq!(p.total_debt, 0);
    assert_eq!(position, Position {
        collateral_amount: 0,
        debt_amount: 0,
        prev_cumulative_interest_rate: 0,
    });
}

#[test]
fn close_of_underwater_position_is_rejected() {
    let (mut p, mut v) = fresh_ledgers();
    let mut position = open_position(&mut p, &mut v, 10_000, 8_000, &unit_price(100), 100).unwrap();
    // The index doubles: the debt is now 16,000 against 10,000 of value.
    p.cumulative_interest_rate = 2 * INTEREST_SCALE;
    assert_eq!(
        close_position(&mut p, &mut v, &mut position, &unit_price(100), 100),
        Err(ProtocolError::Position(PositionError::InvalidLTV))
    );
    assert_eq!(position.debt_amount, 8_000);
}

#[test]
fn close_with_short_vault_is_rejected() {
    let (mut p, mut v) = fresh_ledgers();
    let mut position = open_position(&mut p, &mut v, 10_000, 7_999, &unit_price(100), 100).unwrap();
    v.collateral_amount = 9_999;
    assert_eq!(
        close_position(&mut p, &mut v, &mut position, &unit_price(100), 100),
        Err(ProtocolError::Collateral(CollateralError::InsufficientCollateral))
    );
}

#[test]
fn current_debt_follows_the_index() {
    let (mut p, _) = fresh_ledgers();
    let position = Position {
        collateral_amount: 10,
        debt_amount: 1_000,
        prev_cumulative_interest_rate: INTEREST_SCALE,
    };
    assert_eq!(p.calculate_current_debt(&position), Ok(1_000));
    p.cumulative_interest_rate = 2 * INTEREST_SCALE;
    assert_eq!(p.calculate_current_debt(&position), Ok(2_000));
}

#[test]
fn current_debt_with_zero_snapshot_is_rejected() {
    let (p, _) = fresh_ledgers();
    let position = Position {
        collateral_amount: 10,
        debt_amount: 1_000,
        prev_cumulative_interest_rate: 0,
    };
    assert_eq!(
        p.calculate_current_debt(&position),
        Err(ArithmeticError::ArithmeticOverflow)
    );
}

#[test]
fn index_ratio_on_concrete_values() {
    // debt(i2) == debt(i1) * i2 / i1 when the divisions are exact.
    let (mut p, _) = fresh_ledgers();
    let position = Position {
        collateral_amount: 10,
        debt_amount: 1_000,
        prev_cumulative_interest_rate: INTEREST_SCALE,
    };
    p.cumulative_interest_rate = 2 * INTEREST_SCALE;
    let d1 = p.calculate_current_debt(&position).unwrap();
    p.cumulative_interest_rate = 3 * INTEREST_SCALE;
    let d2 = p.calculate_current_debt(&position).unwrap();
    assert_eq!(d2 as u128, (d1 as u128) * (3 * INTEREST_SCALE) / (2 * INTEREST_SCALE));
}

#[test]
fn update_totals_books_signed_changes() {
    let (mut p, _) = fresh_ledgers();
    p.update_totals(100).unwrap();
    p.update_totals(-40).unwrap();
    assert_eq!(p.total_debt, 60);
    assert_eq!(
        p.update_totals(-100),
        Err(ArithmeticError::ArithmeticOverflow)
    );
    assert_eq!(p.total_debt, 60);
}

fn liquidation_scene(debt: u64) -> (ProtocolConfig, CollateralConfig, Position) {
    let mut p = ProtocolConfig::initialize_protocol_config(500, 200, 5000, 0);
    p.total_debt = 1_000_000;
    let mut v = CollateralConfig::initialize_collateral_vault();
    v.collateral_amount = 110_000;
    v.deposit_depletion_factor = 1_000_000_000;
    v.total_stake_amount = 1_000_000;
    let position = Position {
        collateral_amount: 110_000,
        debt_amount: debt,
        prev_cumulative_interest_rate: INTEREST_SCALE,
    };
    (p, v, position)
}

#[test]
fn liquidate_healthy_position_is_rejected() {
    // 50,000 debt against 110,000 of value: 4545 bps, well below the max.
    let (mut p, mut v, mut position) = liquidation_scene(50_000);
    let before = (p, v, position);
    assert_eq!(
        liquidate_position(&mut p, &mut v, &mut position, &unit_price(100), 100),
        Err(ProtocolError::Position(PositionError::InvalidLTV))
    );
    assert_eq!((p, v, position), before);
}

#[test]
fn liquidate_underwater_position_zeroes_it() {
    // 100,000 debt against 110,000 of value: 9090 bps, above the max.
    let (mut p, mut v, mut position) = liquidation_scene(100_000);
    let out = liquidate_position(&mut p, &mut v, &mut position, &unit_price(100), 100).unwrap();
    assert_eq!(out.pool_reward_minted, 0);
    assert_eq!(out.collateral_seized, 110_000);
    assert_eq!(out.debt_burned, 100_000);
    // The worked example's ledger updates.
    assert_eq!(v.gain_summation, 110_000_000);
    assert_eq!(v.deposit_depletion_factor, 900_000_000);
    assert_eq!(v.total_stake_amount, 900_000);
    assert_eq!(v.collateral_amount, 0);
    assert_eq!(v.stability_pool_rewards_amount, 110_000);
    assert_eq!(p.total_debt, 900_000);
    assert_eq!(position, Position {
        collateral_amount: 0,
        debt_amount: 0,
        prev_cumulative_interest_rate: 0,
    });
}

#[test]
fn liquidate_with_stale_price_is_rejected() {
    let (mut p, mut v, mut position) = liquidation_scene(100_000);
    assert_eq!(
        liquidate_position(&mut p, &mut v, &mut position, &unit_price(100), 200),
        Err(ProtocolError::StalePrice)
    );
}

#[test]
fn liquidate_against_thin_pool_is_rejected() {
    // The pool holds less stake than the debt to burn.
    let (mut p, mut v, mut position) = liquidation_scene(100_000);
    v.total_stake_amount = 50_000;
    assert_eq!(
        liquidate_position(&mut p, &mut v, &mut position, &unit_price(100), 100),
        Err(ProtocolError::Stake(StakeError::InsufficientFunds))
    );
    assert_eq!(position.debt_amount, 100_000);
}
