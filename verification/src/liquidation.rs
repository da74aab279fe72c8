//! The liquidation transition: evaluate a position's loan-to-value at a
//! fresh oracle reading and, if it is at or above the maximum, seize its
//! collateral into the stability pool, burn its debt from the pooled
//! stablecoin, and update every affected ledger atomically.

use vstd::prelude::*;

verus! {

use crate::collateral::{
    spec_absorb_loss, spec_claim_pending_rewards, spec_compound_total_debt, CollateralConfig,
};
use crate::constants::MAX_LTV;
use crate::errors::{ArithmeticError, CollateralError, PositionError, ProtocolError};
use crate::oracle::{
    collateral_value, ltv_bps, price_is_fresh, spec_collateral_value, spec_is_stale, spec_ltv_bps,
    PriceInfo,
};
use crate::position::Position;
use crate::protocol_config::{spec_scaled_debt, ProtocolConfig};

/// What a liquidation moves: the stablecoin the host mints into the pool
/// for the reward pull, the collateral seized into the pool's reward
/// balance, and the stablecoin debt the host burns from the pool.
#[derive(Clone, Copy, Debug, PartialEq, Eq)]
pub struct LiquidationOutcome {
    pub pool_reward_minted: u64,
    pub collateral_seized: u64,
    pub debt_burned: u64,
}

/// The whole liquidation sequence as one transition on the three ledgers,
/// or the rejection that aborts it with nothing changed: pull the pool's
/// pending reward and compound the vault's debt share; recompute the
/// position's debt from its index snapshot; value the collateral at a
/// fresh reading and reject a healthy position; move the collateral into
/// the pool's reward balance; absorb the loss into the `(P, S, T)`
/// accumulators; and take the burned debt out of the protocol total.
pub open spec fn spec_liquidate_position(
    protocol: ProtocolConfig,
    vault: CollateralConfig,
    position: Position,
    price: PriceInfo,
    now: int,
) -> Result<(ProtocolConfig, CollateralConfig, LiquidationOutcome), ProtocolError> {
    match spec_claim_pending_rewards(vault, protocol) {
        Err(e) => Err(e),
        Ok((v1, minted)) => match spec_compound_total_debt(v1, protocol) {
            Err(e) => Err(ProtocolError::Arithmetic(e)),
            Ok(v2) => {
                let debt = position.debt_amount as int;
                let index = protocol.cumulative_interest_rate as int;
                let snap = position.prev_cumulative_interest_rate as int;
                if debt * index > u128::MAX || snap == 0 || spec_scaled_debt(debt, index, snap)
                    > u64::MAX {
                    Err(ProtocolError::Arithmetic(ArithmeticError::ArithmeticOverflow))
                } else {
                    let current_debt = spec_scaled_debt(debt, index, snap);
                    if spec_is_stale(price, now) {
                        Err(ProtocolError::StalePrice)
                    } else if price.price <= 0 {
                        Err(ProtocolError::Arithmetic(ArithmeticError::ArithmeticOverflow))
                    } else {
                        let value = spec_collateral_value(
                            price.price as int,
                            price.exponent as int,
                            position.collateral_amount as int,
                        );
                        if value == 0 {
                            Err(ProtocolError::Arithmetic(ArithmeticError::ArithmeticOverflow))
                        } else if spec_ltv_bps(current_debt, value) < MAX_LTV {
                            Err(ProtocolError::Position(PositionError::InvalidLTV))
                        } else if v2.collateral_amount < position.collateral_amount {
                            Err(ProtocolError::Collateral(CollateralError::InsufficientCollateral))
                        } else if v2.stability_pool_rewards_amount + position.collateral_amount
                            > u64::MAX {
                            Err(ProtocolError::Arithmetic(ArithmeticError::ArithmeticOverflow))
                        } else {
                            let v3 = CollateralConfig {
                                collateral_amount: (v2.collateral_amount
                                    - position.collateral_amount) as u64,
                                stability_pool_rewards_amount: (v2.stability_pool_rewards_amount
                                    + position.collateral_amount) as u64,
                                ..v2
                            };
                            match spec_absorb_loss(
                                v3,
                                current_debt,
                                position.collateral_amount as int,
                            ) {
                                Err(e) => Err(e),
                                Ok(v4) => {
                                    if protocol.total_debt < current_debt {
                                        Err(
                                            ProtocolError::Arithmetic(
                                                ArithmeticError::ArithmeticOverflow,
                                            ),
                                        )
                                    } else {
                                        Ok(
                                            (
                                                (ProtocolConfig {
                                                    total_debt: (protocol.total_debt
                                                        - current_debt) as u128,
                                                    ..protocol
                                                }),
                                                v4,
                                                (LiquidationOutcome {
                                                    pool_reward_minted: minted,
                                                    collateral_seized: position.collateral_amount,
                                                    debt_burned: current_debt as u64,
                                                }),
                                            ),
                                        )
                                    }
                                },
                            }
                        }
                    }
                }
            },
        },
    }
}

/// Liquidates an under-collateralized position. On `Ok` the host must,
/// atomically with this call: mint `pool_reward_minted` stablecoin into
/// the pool, move `collateral_seized` from the collateral vault into the
/// pool's reward balance, and burn `debt_burned` stablecoin from the
/// pool. The position record is zeroed and may be destroyed. On any error
/// nothing has changed.
pub fn liquidate_position(
    protocol: &mut ProtocolConfig,
    vault: &mut CollateralConfig,
    position: &mut Position,
    price: &PriceInfo,
    now: i64,
) -> (r: Result<LiquidationOutcome, ProtocolError>)
    requires
        old(protocol).wf(),
        old(vault).wf(),
        -18 <= price.exponent <= 18,
    ensures
        match spec_liquidate_position(
            *old(protocol),
            *old(vault),
            *old(position),
            *price,
            now as int,
        ) {
            Ok(next) => r == Ok::<LiquidationOutcome, ProtocolError>(next.2) && *final(protocol)
                == next.0 && *final(vault) == next.1 && *final(position) == (Position {
                collateral_amount: 0,
                debt_amount: 0,
                prev_cumulative_interest_rate: 0,
            }),
            Err(e) => r == Err::<LiquidationOutcome, ProtocolError>(e) && *final(protocol) == *old(
                protocol,
            ) && *final(vault) == *old(vault) && *final(position) == *old(position),
        },
        final(vault).wf(),
        final(vault).gain_summation >= old(vault).gain_summation,
{
    let mut v_next = *vault;
    let minted = match v_next.claim_pending_rewards(protocol) {
        Ok(m) => m,
        Err(e) => {
            return Err(e);
        },
    };
    match v_next.compound_total_debt(protocol) {
        Ok(_) => {},
        Err(e) => {
            return Err(ProtocolError::Arithmetic(e));
        },
    }
    let current_debt = match protocol.calculate_current_debt(position) {
        Ok(v) => v,
        Err(e) => {
            return Err(ProtocolError::Arithmetic(e));
        },
    };
    if !price_is_fresh(price, now) {
        return Err(ProtocolError::StalePrice);
    }
    let value = match collateral_value(price, position.collateral_amount) {
        Ok(v) => v,
        Err(e) => {
            return Err(ProtocolError::Arithmetic(e));
        },
    };
    let ltv = match ltv_bps(current_debt, value) {
        Ok(v) => v,
        Err(e) => {
            return Err(ProtocolError::Arithmetic(e));
        },
    };
    if ltv < MAX_LTV as u128 {
        return Err(ProtocolError::Position(PositionError::InvalidLTV));
    }
    if v_next.collateral_amount < position.collateral_amount {
        return Err(ProtocolError::Collateral(CollateralError::InsufficientCollateral));
    }
    let new_rewards = match v_next.stability_pool_rewards_amount.checked_add(
        position.collateral_amount,
    ) {
        Some(v) => v,
        None => {
            return Err(ProtocolError::Arithmetic(ArithmeticError::ArithmeticOverflow));
        },
    };
    v_next.collateral_amount = v_next.collateral_amount - position.collateral_amount;
    v_next.stability_pool_rewards_amount = new_rewards;
    match v_next.absorb_loss(current_debt, position.collateral_amount) {
        Ok(_) => {},
        Err(e) => {
            return Err(e);
        },
    }
    let new_total_debt = match protocol.total_debt.checked_sub(current_debt as u128) {
        Some(v) => v,
        None => {
            return Err(ProtocolError::Arithmetic(ArithmeticError::ArithmeticOverflow));
        },
    };
    let outcome = LiquidationOutcome {
        pool_reward_minted: minted,
        collateral_seized: position.collateral_amount,
        debt_burned: current_debt,
    };
    protocol.total_debt = new_total_debt;
    *vault = v_next;
    position.collateral_amount = 0;
    position.debt_amount = 0;
    position.prev_cumulative_interest_rate = 0;
    Ok(outcome)
}

} // verus!
