//! A collateral-backed debt position and its open/close transitions.

use vstd::prelude::*;

verus! {

use crate::collateral::CollateralConfig;
use crate::constants::MAX_LTV;
use crate::errors::{ArithmeticError, CollateralError, PositionError, ProtocolError};
use crate::oracle::{
    collateral_value, ltv_bps, price_is_fresh, spec_collateral_value, spec_is_stale, spec_ltv_bps,
    PriceInfo,
};
use crate::protocol_config::{spec_scaled_debt, ProtocolConfig};

/// One collateral-backed debt record. `debt_amount` is the principal at
/// the index snapshot `prev_cumulative_interest_rate`; the debt owed now
/// is `debt_amount * index_now / prev_cumulative_interest_rate`.
#[derive(Clone, Copy, Debug, PartialEq, Eq)]
pub struct Position {
    pub collateral_amount: u64,
    pub debt_amount: u64,
    pub prev_cumulative_interest_rate: u128,
}

/// What closing a position settles: the collateral handed back to the
/// owner and the stablecoin debt the owner must burn.
#[derive(Clone, Copy, Debug, PartialEq, Eq)]
pub struct CloseOutcome {
    pub collateral_returned: u64,
    pub debt_burned: u64,
}

/// The open transition, from the ledgers it touches and the oracle
/// reading: the position it creates and the new ledger states, or the
/// rejection.
pub open spec fn spec_open_position(
    protocol: ProtocolConfig,
    vault: CollateralConfig,
    collateral_amount: int,
    debt_amount: int,
    price: PriceInfo,
    now: int,
) -> Result<(ProtocolConfig, CollateralConfig, Position), ProtocolError> {
    if spec_is_stale(price, now) {
        Err(ProtocolError::StalePrice)
    } else if price.price <= 0 {
        Err(ProtocolError::Arithmetic(ArithmeticError::ArithmeticOverflow))
    } else {
        let value = spec_collateral_value(price.price as int, price.exponent as int, collateral_amount);
        if value == 0 {
            Err(ProtocolError::Arithmetic(ArithmeticError::ArithmeticOverflow))
        } else if spec_ltv_bps(debt_amount, value) > MAX_LTV {
            Err(ProtocolError::Position(PositionError::InvalidLTV))
        } else if vault.collateral_amount + collateral_amount > u64::MAX {
            Err(ProtocolError::Arithmetic(ArithmeticError::ArithmeticOverflow))
        } else if protocol.total_debt + debt_amount > u128::MAX {
            Err(ProtocolError::Arithmetic(ArithmeticError::ArithmeticOverflow))
        } else {
            Ok(
                (
                    (ProtocolConfig {
                        total_debt: (protocol.total_debt + debt_amount) as u128,
                        ..protocol
                    }),
                    (CollateralConfig {
                        collateral_amount: (vault.collateral_amount + collateral_amount) as u64,
                        ..vault
                    }),
                    (Position {
                        collateral_amount: collateral_amount as u64,
                        debt_amount: debt_amount as u64,
                        prev_cumulative_interest_rate: protocol.cumulative_interest_rate,
                    }),
                ),
            )
        }
    }
}

/// Opens a position: values the collateral at a fresh oracle reading,
/// accepts the position only at or below the maximum loan-to-value, books
/// the collateral into the vault and the debt into the protocol total, and
/// snapshots the current interest index. The host must move
/// `collateral_amount` from the owner into the vault and mint
/// `debt_amount` stablecoin to the owner exactly when this returns `Ok`.
pub fn open_position(
    protocol: &mut ProtocolConfig,
    vault: &mut CollateralConfig,
    collateral_amount: u64,
    debt_amount: u64,
    price: &PriceInfo,
    now: i64,
) -> (r: Result<Position, ProtocolError>)
    requires
        -18 <= price.exponent <= 18,
    ensures
        match spec_open_position(
            *old(protocol),
            *old(vault),
            collateral_amount as int,
            debt_amount as int,
            *price,
            now as int,
        ) {
            Ok(next) => r == Ok::<Position, ProtocolError>(next.2) && *final(protocol) == next.0
                && *final(vault) == next.1,
            Err(e) => r == Err::<Position, ProtocolError>(e) && *final(protocol) == *old(protocol)
                && *final(vault) == *old(vault),
        },
        r matches Ok(p) ==> p.prev_cumulative_interest_rate == old(
            protocol,
        ).cumulative_interest_rate,
{
    if !price_is_fresh(price, now) {
        return Err(ProtocolError::StalePrice);
    }
    let value = match collateral_value(price, collateral_amount) {
        Ok(v) => v,
        Err(e) => {
            return Err(ProtocolError::Arithmetic(e));
        },
    };
    let ltv = match ltv_bps(debt_amount, value) {
        Ok(v) => v,
        Err(e) => {
            return Err(ProtocolError::Arithmetic(e));
        },
    };
    if ltv > MAX_LTV as u128 {
        return Err(ProtocolError::Position(PositionError::InvalidLTV));
    }
    let new_vault_collateral = match vault.collateral_amount.checked_add(collateral_amount) {
        Some(v) => v,
        None => {
            return Err(ProtocolError::Arithmetic(ArithmeticError::ArithmeticOverflow));
        },
    };
    let new_total_debt = match protocol.total_debt.checked_add(debt_amount as u128) {
        Some(v) => v,
        None => {
            return Err(ProtocolError::Arithmetic(ArithmeticError::ArithmeticOverflow));
        },
    };
    let position = Position {
        collateral_amount,
        debt_amount,
        prev_cumulative_interest_rate: protocol.cumulative_interest_rate,
    };
    vault.collateral_amount = new_vault_collateral;
    protocol.total_debt = new_total_debt;
    Ok(position)
}

/// The close transition: what the owner gets back and burns, the new
/// ledger states, or the rejection.
pub open spec fn spec_close_position(
    protocol: ProtocolConfig,
    vault: CollateralConfig,
    position: Position,
    price: PriceInfo,
    now: int,
) -> Result<(ProtocolConfig, CollateralConfig, CloseOutcome), ProtocolError> {
    let index = protocol.cumulative_interest_rate as int;
    let snap = position.prev_cumulative_interest_rate as int;
    if position.debt_amount * index > u128::MAX || snap == 0 || spec_scaled_debt(
        position.debt_amount as int,
        index,
        snap,
    ) > u64::MAX {
        Err(ProtocolError::Arithmetic(ArithmeticError::ArithmeticOverflow))
    } else {
        let current_debt = spec_scaled_debt(position.debt_amount as int, index, snap);
        if spec_is_stale(price, now) {
            Err(ProtocolError::StalePrice)
        } else if price.price <= 0 {
            Err(ProtocolError::Arithmetic(ArithmeticError::ArithmeticOverflow))
        } else {
            let value = spec_collateral_value(
                price.price as int,
                price.exponent as int,
                position.collateral_amount as int,
            );
            if value == 0 {
                Err(ProtocolError::Arithmetic(ArithmeticError::ArithmeticOverflow))
            } else if spec_ltv_bps(current_debt, value) > MAX_LTV {
                Err(ProtocolError::Position(PositionError::InvalidLTV))
            } else if vault.collateral_amount < position.collateral_amount {
                Err(ProtocolError::Collateral(CollateralError::InsufficientCollateral))
            } else if protocol.total_debt < current_debt {
                Err(ProtocolError::Arithmetic(ArithmeticError::ArithmeticOverflow))
            } else {
                Ok(
                    (
                        (ProtocolConfig {
                            total_debt: (protocol.total_debt - current_debt) as u128,
                            ..protocol
                        }),
                        (CollateralConfig {
                            collateral_amount: (vault.collateral_amount
                                - position.collateral_amount) as u64,
                            ..vault
                        }),
                        (CloseOutcome {
                            collateral_returned: position.collateral_amount,
                            debt_burned: current_debt as u64,
                        }),
                    ),
                )
            }
        }
    }
}

/// Closes a healthy position: recomputes the debt from the index
/// snapshot, verifies at a fresh oracle reading that the position is at or
/// below the maximum loan-to-value, returns the collateral and removes the
/// debt from the ledgers, and zeroes the record. The host must return
/// `collateral_returned` to the owner and burn `debt_burned` stablecoin
/// from the owner exactly when this returns `Ok`.
pub fn close_position(
    protocol: &mut ProtocolConfig,
    vault: &mut CollateralConfig,
    position: &mut Position,
    price: &PriceInfo,
    now: i64,
) -> (r: Result<CloseOutcome, ProtocolError>)
    requires
        -18 <= price.exponent <= 18,
    ensures
        match spec_close_position(*old(protocol), *old(vault), *old(position), *price, now as int) {
            Ok(next) => r == Ok::<CloseOutcome, ProtocolError>(next.2) && *final(protocol)
                == next.0 && *final(vault) == next.1 && *final(position) == (Position {
                collateral_amount: 0,
                debt_amount: 0,
                prev_cumulative_interest_rate: 0,
            }),
            Err(e) => r == Err::<CloseOutcome, ProtocolError>(e) && *final(protocol) == *old(
                protocol,
            ) && *final(vault) == *old(vault) && *final(position) == *old(position),
        },
{
    let current_debt = match protocol.calculate_current_debt(position) {
        Ok(v) => v,
        Err(e) => {
            return Err(ProtocolError::Arithmetic(e));
        },
    };
    if !price_is_fresh(price, now) {
        return Err(ProtocolError::StalePrice);
    }
    let value = match collateral_value(price, position.collateral_amount) {
        Ok(v) => v,
        Err(e) => {
            return Err(ProtocolError::Arithmetic(e));
        },
    };
    let ltv = match ltv_bps(current_debt, value) {
        Ok(v) => v,
        Err(e) => {
            return Err(ProtocolError::Arithmetic(e));
        },
    };
    if ltv > MAX_LTV as u128 {
        return Err(ProtocolError::Position(PositionError::InvalidLTV));
    }
    if vault.collateral_amount < position.collateral_amount {
        return Err(ProtocolError::Collateral(CollateralError::InsufficientCollateral));
    }
    if protocol.total_debt < current_debt as u128 {
        return Err(ProtocolError::Arithmetic(ArithmeticError::ArithmeticOverflow));
    }
    let outcome = CloseOutcome {
        collateral_returned: position.collateral_amount,
        debt_burned: current_debt,
    };
    vault.collateral_amount = vault.collateral_amount - position.collateral_amount;
    protocol.total_debt = protocol.total_debt - (current_debt as u128);
    position.collateral_amount = 0;
    position.debt_amount = 0;
    position.prev_cumulative_interest_rate = 0;
    Ok(outcome)
}

} // verus!
