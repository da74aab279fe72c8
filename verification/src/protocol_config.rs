//! The protocol-wide ledger: the cumulative interest index, the aggregate
//! debt, and the revenue accumulators.

use vstd::prelude::*;

verus! {

use crate::constants::{BPS_SCALE, INTEREST_SCALE};
use crate::errors::{ArithmeticError, StakeError};
use crate::math::{lemma_scale_le_one, lemma_scale_nonneg};
use crate::position::Position;

/// The protocol singleton. `cumulative_interest_rate` is the global debt
/// index (fixed point, unit [`INTEREST_SCALE`], never below it);
/// `cumulative_reward_per_debt` accumulates, per unit of debt, the
/// interest revenue owed to the stability pools; both only grow.
#[derive(Clone, Copy, Debug, PartialEq, Eq)]
pub struct ProtocolConfig {
    /// Base annualized interest rate, in basis points.
    pub base_rate: u16,
    /// Sensitivity of the rate response to peg deviation, in basis points.
    pub sigma: u16,
    /// Share of interest revenue routed to the stability pools, in basis
    /// points; the remainder accrues to the treasury.
    pub revenue_share_bps: u16,
    /// Global debt index, fixed point with unit [`INTEREST_SCALE`].
    pub cumulative_interest_rate: u128,
    /// The annualized rate chosen at the last update.
    pub last_interest_rate: u128,
    /// Unix time of the last accrual.
    pub last_interest_rate_update_time: i64,
    /// Protocol-wide debt, compounded on every accrual.
    pub total_debt: u128,
    /// Interest revenue owed to stability pools, per unit of debt, fixed
    /// point with unit [`INTEREST_SCALE`].
    pub cumulative_reward_per_debt: u128,
    /// Treasury revenue accrued but not yet minted.
    pub pending_treasury_rewards: u64,
}

impl ProtocolConfig {
    /// Well-formedness: the index never falls below one, the rate
    /// response has a positive sensitivity, and the pool share is a
    /// fraction.
    pub open spec fn wf(self) -> bool {
        &&& self.cumulative_interest_rate >= INTEREST_SCALE
        &&& self.sigma >= 1
        &&& self.revenue_share_bps <= BPS_SCALE
    }

    /// Creates the protocol ledger with an index of one, no debt and no
    /// accrued revenue.
    pub fn initialize_protocol_config(
        base_rate: u16,
        sigma: u16,
        revenue_share_bps: u16,
        now: i64,
    ) -> (r: ProtocolConfig)
        requires
            sigma >= 1,
            revenue_share_bps <= BPS_SCALE,
        ensures
            r == (ProtocolConfig {
                base_rate,
                sigma,
                revenue_share_bps,
                cumulative_interest_rate: INTEREST_SCALE,
                last_interest_rate: 0,
                last_interest_rate_update_time: now,
                total_debt: 0,
                cumulative_reward_per_debt: 0,
                pending_treasury_rewards: 0,
            }),
            r.wf(),
    {
        ProtocolConfig {
            base_rate,
            sigma,
            revenue_share_bps,
            cumulative_interest_rate: INTEREST_SCALE,
            last_interest_rate: 0,
            last_interest_rate_update_time: now,
            total_debt: 0,
            cumulative_reward_per_debt: 0,
            pending_treasury_rewards: 0,
        }
    }

    /// The position's debt compounded to the current index, before any
    /// overflow concern: `debt * index / snapshot`.
    pub fn calculate_current_debt(&self, position: &Position) -> (r: Result<u64, ArithmeticError>)
        ensures
            ({
                let debt = position.debt_amount as int;
                let index = self.cumulative_interest_rate as int;
                let snap = position.prev_cumulative_interest_rate as int;
                if debt * index > u128::MAX || snap == 0 || spec_scaled_debt(debt, index, snap)
                    > u64::MAX {
                    r == Err::<u64, ArithmeticError>(ArithmeticError::ArithmeticOverflow)
                } else {
                    r == Ok::<u64, ArithmeticError>(spec_scaled_debt(debt, index, snap) as u64)
                }
            }),
    {
        let scaled = match (position.debt_amount as u128).checked_mul(
            self.cumulative_interest_rate,
        ) {
            Some(v) => v,
            None => {
                return Err(ArithmeticError::ArithmeticOverflow);
            },
        };
        if position.prev_cumulative_interest_rate == 0 {
            return Err(ArithmeticError::ArithmeticOverflow);
        }
        let current = scaled / position.prev_cumulative_interest_rate;
        if current > u64::MAX as u128 {
            return Err(ArithmeticError::ArithmeticOverflow);
        }
        Ok(current as u64)
    }

    /// Books a signed change of the protocol-wide debt.
    pub fn update_totals(&mut self, debt_change: i64) -> (r: Result<(), ArithmeticError>)
        ensures
            ({
                let change = debt_change as int;
                if 0 <= change {
                    if old(self).total_debt + change > u128::MAX {
                        r == Err::<(), ArithmeticError>(ArithmeticError::ArithmeticOverflow)
                            && *final(self) == *old(self)
                    } else {
                        r == Ok::<(), ArithmeticError>(()) && *final(self) == (ProtocolConfig {
                            total_debt: (old(self).total_debt + change) as u128,
                            ..*old(self)
                        })
                    }
                } else {
                    if old(self).total_debt < -change {
                        r == Err::<(), ArithmeticError>(ArithmeticError::ArithmeticOverflow)
                            && *final(self) == *old(self)
                    } else {
                        r == Ok::<(), ArithmeticError>(()) && *final(self) == (ProtocolConfig {
                            total_debt: (old(self).total_debt + change) as u128,
                            ..*old(self)
                        })
                    }
                }
            }),
    {
        if debt_change >= 0 {
            match self.total_debt.checked_add(debt_change as u128) {
                Some(v) => {
                    self.total_debt = v;
                    Ok(())
                },
                None => Err(ArithmeticError::ArithmeticOverflow),
            }
        } else {
            let magnitude = (-(debt_change as i128)) as u128;
            match self.total_debt.checked_sub(magnitude) {
                Some(v) => {
                    self.total_debt = v;
                    Ok(())
                },
                None => Err(ArithmeticError::ArithmeticOverflow),
            }
        }
    }

    /// Takes the treasury revenue accrued so far; the host mints exactly
    /// this amount to the treasury. Nothing pending is a rejection, as is
    /// asking twice.
    pub fn withdraw_treasury(&mut self) -> (r: Result<u64, StakeError>)
        ensures
            old(self).pending_treasury_rewards == 0 ==> r == Err::<u64, StakeError>(
                StakeError::InsufficientFunds,
            ) && *final(self) == *old(self),
            old(self).pending_treasury_rewards > 0 ==> r == Ok::<u64, StakeError>(
                old(self).pending_treasury_rewards,
            ) && *final(self) == (ProtocolConfig { pending_treasury_rewards: 0, ..*old(self) }),
    {
        if self.pending_treasury_rewards == 0 {
            return Err(StakeError::InsufficientFunds);
        }
        let pending = self.pending_treasury_rewards;
        self.pending_treasury_rewards = 0;
        Ok(pending)
    }
}

/// A position's debt compounded to the present: `debt * index / snapshot`.
pub open spec fn spec_scaled_debt(debt: int, index: int, snapshot: int) -> int
    recommends
        snapshot > 0,
{
    debt * index / snapshot
}

/// Index ratio law: a position's debt at a later index is its debt at an
/// earlier index scaled by the ratio of the two indices,
/// `debt(i2) == debt(i1) * i2 / i1`, exactly whenever the two fixed-point
/// divisions lose nothing. (Rounding can break the exact equation: with
/// `debt = 1`, `snapshot = 10`, the debts at indices 19 and 20 are both 1,
/// yet `1 * 20 / 19 == 1 < 2 == 1 * 20 / 10` only by the floor.)
pub proof fn lemma_index_ratio(debt: int, snapshot: int, index1: int, index2: int)
    requires
        0 <= debt,
        0 < snapshot,
        0 < index1 <= index2,
        (debt * index1) % snapshot == 0,
        (spec_scaled_debt(debt, index1, snapshot) * index2) % index1 == 0,
    ensures
        spec_scaled_debt(debt, index2, snapshot) == spec_scaled_debt(debt, index1, snapshot)
            * index2 / index1,
{
    let cd1 = debt * index1 / snapshot;
    let q = cd1 * index2 / index1;
    vstd::arithmetic::div_mod::lemma_fundamental_div_mod(debt * index1, snapshot);
    vstd::arithmetic::div_mod::lemma_fundamental_div_mod(cd1 * index2, index1);
    assert(debt * index2 == snapshot * q) by (nonlinear_arith)
        requires
            debt * index1 == snapshot * cd1,
            cd1 * index2 == index1 * q,
            0 < index1,
    ;
    vstd::arithmetic::div_mod::lemma_div_multiples_vanish(q, snapshot);
}

/// A position's debt never shrinks as the index grows: the scaled debt is
/// monotone in the index.
pub proof fn lemma_current_debt_monotone(debt: int, snapshot: int, index1: int, index2: int)
    requires
        0 <= debt,
        0 < snapshot,
        0 <= index1 <= index2,
    ensures
        spec_scaled_debt(debt, index1, snapshot) <= spec_scaled_debt(debt, index2, snapshot),
{
    vstd::arithmetic::mul::lemma_mul_inequality(index1, index2, debt);
    assert(debt * index1 == index1 * debt) by (nonlinear_arith);
    assert(debt * index2 == index2 * debt) by (nonlinear_arith);
    vstd::arithmetic::div_mod::lemma_div_is_ordered(debt * index1, debt * index2, snapshot);
}

/// How one accrual's interest revenue is split.
#[derive(Clone, Copy, Debug, PartialEq, Eq)]
pub struct RevenueSplit {
    /// Folded into `cumulative_reward_per_debt` for the stability pools.
    pub stability_pool_amount: u64,
    /// Accrued to `pending_treasury_rewards`.
    pub treasury_amount: u64,
}

/// The revenue-distribution transition: with no debt outstanding the whole
/// revenue accrues to the treasury; otherwise `revenue_share_bps` of it is
/// folded into the per-debt reward accumulator and the rest accrues to the
/// treasury.
pub open spec fn spec_distribute_revenue(p: ProtocolConfig, revenue: int) -> Result<
    (ProtocolConfig, RevenueSplit),
    ArithmeticError,
>
    recommends
        p.wf(),
        0 <= revenue <= u64::MAX,
{
    if p.total_debt == 0 {
        if p.pending_treasury_rewards + revenue > u64::MAX {
            Err(ArithmeticError::ArithmeticOverflow)
        } else {
            Ok(
                (
                    (ProtocolConfig {
                        pending_treasury_rewards: (p.pending_treasury_rewards + revenue) as u64,
                        ..p
                    }),
                    (RevenueSplit { stability_pool_amount: 0, treasury_amount: revenue as u64 }),
                ),
            )
        }
    } else {
        let share = revenue * p.revenue_share_bps / (BPS_SCALE as int);
        let treasury = revenue - share;
        let delta = share * INTEREST_SCALE / (p.total_debt as int);
        if p.cumulative_reward_per_debt + delta > u128::MAX {
            Err(ArithmeticError::ArithmeticOverflow)
        } else if p.pending_treasury_rewards + treasury > u64::MAX {
            Err(ArithmeticError::ArithmeticOverflow)
        } else {
            Ok(
                (
                    (ProtocolConfig {
                        cumulative_reward_per_debt: (p.cumulative_reward_per_debt + delta) as u128,
                        pending_treasury_rewards: (p.pending_treasury_rewards + treasury) as u64,
                        ..p
                    }),
                    (RevenueSplit {
                        stability_pool_amount: share as u64,
                        treasury_amount: treasury as u64,
                    }),
                ),
            )
        }
    }
}

impl ProtocolConfig {
    /// Splits one accrual's interest revenue between the stability pools
    /// and the treasury. The pools' share is not minted here: it is owed
    /// through `cumulative_reward_per_debt` and minted when a vault pulls
    /// its pending reward; the treasury's share is owed through
    /// `pending_treasury_rewards` and minted on an explicit claim.
    pub fn distribute_revenue(&mut self, revenue: u64) -> (r: Result<RevenueSplit, ArithmeticError>)
        requires
            old(self).wf(),
        ensures
            match spec_distribute_revenue(*old(self), revenue as int) {
                Ok(next) => r == Ok::<RevenueSplit, ArithmeticError>(next.1) && *final(self)
                    == next.0,
                Err(e) => r == Err::<RevenueSplit, ArithmeticError>(e) && *final(self) == *old(
                    self,
                ),
            },
            final(self).wf(),
            final(self).cumulative_reward_per_debt >= old(self).cumulative_reward_per_debt,
    {
        if self.total_debt == 0 {
            let new_pending = match self.pending_treasury_rewards.checked_add(revenue) {
                Some(v) => v,
                None => {
                    return Err(ArithmeticError::ArithmeticOverflow);
                },
            };
            self.pending_treasury_rewards = new_pending;
            return Ok(RevenueSplit { stability_pool_amount: 0, treasury_amount: revenue });
        }
        proof {
            lemma_scale_le_one(revenue as int, self.revenue_share_bps as int, BPS_SCALE as int);
        }
        let share_wide = (revenue as u128) * (self.revenue_share_bps as u128) / (BPS_SCALE as u128);
        let share = share_wide as u64;
        let treasury = revenue - share;
        proof {
            lemma_scale_nonneg(share as int, INTEREST_SCALE as int, self.total_debt as int);
        }
        let delta = (share as u128) * INTEREST_SCALE / self.total_debt;
        let new_cumulative = match self.cumulative_reward_per_debt.checked_add(delta) {
            Some(v) => v,
            None => {
                return Err(ArithmeticError::ArithmeticOverflow);
            },
        };
        let new_pending = match self.pending_treasury_rewards.checked_add(treasury) {
            Some(v) => v,
            None => {
                return Err(ArithmeticError::ArithmeticOverflow);
            },
        };
        self.cumulative_reward_per_debt = new_cumulative;
        self.pending_treasury_rewards = new_pending;
        Ok(RevenueSplit { stability_pool_amount: share, treasury_amount: treasury })
    }
}

} // verus!
