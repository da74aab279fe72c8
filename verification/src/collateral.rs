//! The per-collateral vault ledger: the stability pool's proportional
//! loss/reward distribution and the vault's compounding debt share.
//!
//! The pool serves an unbounded, changing set of stakers in O(1) per
//! operation with two accumulators: the deposit depletion factor `P`,
//! which scales every stake down across loss events and up across reward
//! inflows, and the gain summation `S`, which accumulates seized
//! collateral per unit of stake weighted by `P`. A staker's snapshot of
//! `(P, S)` at deposit time turns both into exact per-staker balances
//! without iterating stakers.

use vstd::prelude::*;

verus! {

use crate::constants::INTEREST_SCALE;
use crate::errors::{ArithmeticError, ProtocolError, StakeError};
use crate::math::{lemma_scale_le_one, lemma_scale_nonneg};
use crate::protocol_config::ProtocolConfig;

/// The ledger of one collateral asset's vault and stability pool.
#[derive(Clone, Copy, Debug, PartialEq, Eq)]
pub struct CollateralConfig {
    /// Collateral locked by open positions.
    pub collateral_amount: u64,
    /// Collateral seized by liquidations, held for stakers to claim.
    pub stability_pool_rewards_amount: u64,
    /// Deposit depletion factor `P`, fixed point with unit
    /// [`INTEREST_SCALE`]; shrinks with absorbed losses, grows with
    /// reward inflows, never reaches zero.
    pub deposit_depletion_factor: u128,
    /// Gain summation `S`: cumulative seized collateral per unit of
    /// stake, weighted by `P`; never decreases.
    pub gain_summation: u128,
    /// Total stake `T` backing this pool, in stablecoin units.
    pub total_stake_amount: u128,
    /// This vault's share of the protocol debt, compounded lazily.
    pub total_debt: u128,
    /// Snapshot of the protocol's reward-per-debt accumulator at the last
    /// pull.
    pub last_reward_per_debt: u128,
    /// Snapshot of the interest index at the last debt compounding.
    pub last_compound_cumulative_rate: u128,
}

/// The pull of a vault's pending interest reward: the new ledger and the
/// stablecoin amount to mint into the pool, or the abort. A vault with no
/// debt is owed nothing; a pool with no stakers can credit no one, so the
/// pull forfeits the pending amount and advances the snapshot.
pub open spec fn spec_claim_pending_rewards(v: CollateralConfig, p: ProtocolConfig) -> Result<
    (CollateralConfig, u64),
    ProtocolError,
> {
    if v.total_debt == 0 {
        Ok((v, 0))
    } else if p.cumulative_reward_per_debt < v.last_reward_per_debt {
        Err(ProtocolError::Arithmetic(ArithmeticError::ArithmeticOverflow))
    } else {
        let owed = p.cumulative_reward_per_debt - v.last_reward_per_debt;
        if v.total_debt * owed > u128::MAX {
            Err(ProtocolError::Arithmetic(ArithmeticError::ArithmeticOverflow))
        } else {
            let pending = v.total_debt * owed / (INTEREST_SCALE as int);
            if pending > u64::MAX {
                Err(ProtocolError::Arithmetic(ArithmeticError::ArithmeticOverflow))
            } else if v.total_stake_amount == 0 {
                Ok(((CollateralConfig { last_reward_per_debt: p.cumulative_reward_per_debt, ..v }), 0))
            } else if v.deposit_depletion_factor * pending > u128::MAX {
                Err(ProtocolError::Arithmetic(ArithmeticError::ArithmeticOverflow))
            } else {
                let bump = v.deposit_depletion_factor * pending / (v.total_stake_amount as int);
                if v.deposit_depletion_factor + bump > u128::MAX {
                    Err(ProtocolError::Arithmetic(ArithmeticError::ArithmeticOverflow))
                } else {
                    Ok(
                        (
                            (CollateralConfig {
                                deposit_depletion_factor: (v.deposit_depletion_factor + bump) as u128,
                                last_reward_per_debt: p.cumulative_reward_per_debt,
                                ..v
                            }),
                            pending as u64,
                        ),
                    )
                }
            }
        }
    }
}

/// The lazy compounding of the vault's debt share: the new ledger, or the
/// abort.
pub open spec fn spec_compound_total_debt(v: CollateralConfig, p: ProtocolConfig) -> Result<
    CollateralConfig,
    ArithmeticError,
> {
    if p.cumulative_interest_rate * INTEREST_SCALE > u128::MAX || v.last_compound_cumulative_rate
        == 0 {
        Err(ArithmeticError::ArithmeticOverflow)
    } else {
        let factor = p.cumulative_interest_rate * INTEREST_SCALE
            / (v.last_compound_cumulative_rate as int);
        if v.total_debt * factor > u128::MAX {
            Err(ArithmeticError::ArithmeticOverflow)
        } else {
            Ok(
                (CollateralConfig {
                    total_debt: (v.total_debt * factor / (INTEREST_SCALE as int)) as u128,
                    last_compound_cumulative_rate: p.cumulative_interest_rate,
                    ..v
                }),
            )
        }
    }
}

/// The loss-absorption transition of the stability pool: burn `loss`
/// stablecoin of stake against `collateral_gain` seized collateral. The
/// `P`-weighting of the gain increment scales gains correctly for stakers
/// who joined after earlier depletions. A loss above the pool's stake is
/// rejected; a loss of exactly the whole stake wipes the pool and resets
/// `P` to one; a depletion that would floor `P` to zero is rejected as an
/// arithmetic failure, since no later stake could be valued against it.
pub open spec fn spec_absorb_loss(v: CollateralConfig, loss: int, collateral_gain: int) -> Result<
    CollateralConfig,
    ProtocolError,
> {
    let t = v.total_stake_amount as int;
    let p = v.deposit_depletion_factor as int;
    if v.total_stake_amount == 0 || loss > t {
        Err(ProtocolError::Stake(StakeError::InsufficientFunds))
    } else if loss == t {
        Ok(
            (CollateralConfig {
                deposit_depletion_factor: INTEREST_SCALE,
                total_stake_amount: 0,
                ..v
            }),
        )
    } else if collateral_gain * p > u128::MAX {
        Err(ProtocolError::Arithmetic(ArithmeticError::ArithmeticOverflow))
    } else {
        let gain_delta = collateral_gain * p / t;
        if v.gain_summation + gain_delta > u128::MAX {
            Err(ProtocolError::Arithmetic(ArithmeticError::ArithmeticOverflow))
        } else if p * (t - loss) > u128::MAX {
            Err(ProtocolError::Arithmetic(ArithmeticError::ArithmeticOverflow))
        } else {
            let p_new = p * (t - loss) / t;
            if p_new == 0 {
                Err(ProtocolError::Arithmetic(ArithmeticError::ArithmeticOverflow))
            } else {
                Ok(
                    (CollateralConfig {
                        gain_summation: (v.gain_summation + gain_delta) as u128,
                        deposit_depletion_factor: p_new as u128,
                        total_stake_amount: (t - loss) as u128,
                        ..v
                    }),
                )
            }
        }
    }
}

impl CollateralConfig {
    /// Well-formedness: both fixed-point divisors stay positive.
    pub open spec fn wf(self) -> bool {
        &&& self.deposit_depletion_factor >= 1
        &&& self.last_compound_cumulative_rate >= 1
    }

    /// Creates the ledger of a fresh vault: depletion factor one, no
    /// gains, no stake, no debt.
    pub fn initialize_collateral_vault() -> (r: CollateralConfig)
        ensures
            r == (CollateralConfig {
                collateral_amount: 0,
                stability_pool_rewards_amount: 0,
                deposit_depletion_factor: INTEREST_SCALE,
                gain_summation: 0,
                total_stake_amount: 0,
                total_debt: 0,
                last_reward_per_debt: 0,
                last_compound_cumulative_rate: INTEREST_SCALE,
            }),
            r.wf(),
    {
        CollateralConfig {
            collateral_amount: 0,
            stability_pool_rewards_amount: 0,
            deposit_depletion_factor: INTEREST_SCALE,
            gain_summation: 0,
            total_stake_amount: 0,
            total_debt: 0,
            last_reward_per_debt: 0,
            last_compound_cumulative_rate: INTEREST_SCALE,
        }
    }

    /// Pulls the interest reward this vault is owed since its last pull,
    /// inflating `P` so existing stakes are worth the minted stablecoin.
    /// Must run before any stake mutation or liquidation touches the
    /// vault. The host must mint the returned amount into the pool's
    /// stablecoin balance exactly when it is positive.
    pub fn claim_pending_rewards(&mut self, protocol: &ProtocolConfig) -> (r: Result<
        u64,
        ProtocolError,
    >)
        requires
            old(self).wf(),
        ensures
            match spec_claim_pending_rewards(*old(self), *protocol) {
                Ok(next) => r == Ok::<u64, ProtocolError>(next.1) && *final(self) == next.0,
                Err(e) => r == Err::<u64, ProtocolError>(e) && *final(self) == *old(self),
            },
            final(self).wf(),
            final(self).deposit_depletion_factor >= old(self).deposit_depletion_factor,
            final(self).gain_summation == old(self).gain_summation,
    {
        if self.total_debt == 0 {
            return Ok(0);
        }
        let owed = match protocol.cumulative_reward_per_debt.checked_sub(
            self.last_reward_per_debt,
        ) {
            Some(v) => v,
            None => {
                return Err(ProtocolError::Arithmetic(ArithmeticError::ArithmeticOverflow));
            },
        };
        let pending_wide = match self.total_debt.checked_mul(owed) {
            Some(v) => v,
            None => {
                return Err(ProtocolError::Arithmetic(ArithmeticError::ArithmeticOverflow));
            },
        };
        let pending = pending_wide / INTEREST_SCALE;
        if pending > u64::MAX as u128 {
            return Err(ProtocolError::Arithmetic(ArithmeticError::ArithmeticOverflow));
        }
        if self.total_stake_amount == 0 {
            self.last_reward_per_debt = protocol.cumulative_reward_per_debt;
            return Ok(0);
        }
        let bump_wide = match self.deposit_depletion_factor.checked_mul(pending) {
            Some(v) => v,
            None => {
                return Err(ProtocolError::Arithmetic(ArithmeticError::ArithmeticOverflow));
            },
        };
        let bump = bump_wide / self.total_stake_amount;
        let new_factor = match self.deposit_depletion_factor.checked_add(bump) {
            Some(v) => v,
            None => {
                return Err(ProtocolError::Arithmetic(ArithmeticError::ArithmeticOverflow));
            },
        };
        self.deposit_depletion_factor = new_factor;
        self.last_reward_per_debt = protocol.cumulative_reward_per_debt;
        Ok(pending as u64)
    }

    /// Compounds this vault's debt share by the growth of the global
    /// index since the vault's last compounding, and advances the
    /// snapshot.
    pub fn compound_total_debt(&mut self, protocol: &ProtocolConfig) -> (r: Result<
        (),
        ArithmeticError,
    >)
        requires
            old(self).wf(),
            protocol.wf(),
        ensures
            match spec_compound_total_debt(*old(self), *protocol) {
                Ok(next) => r == Ok::<(), ArithmeticError>(()) && *final(self) == next,
                Err(e) => r == Err::<(), ArithmeticError>(e) && *final(self) == *old(self),
            },
            final(self).wf(),
    {
        let factor_num = match protocol.cumulative_interest_rate.checked_mul(INTEREST_SCALE) {
            Some(v) => v,
            None => {
                return Err(ArithmeticError::ArithmeticOverflow);
            },
        };
        let factor = factor_num / self.last_compound_cumulative_rate;
        let debt_num = match self.total_debt.checked_mul(factor) {
            Some(v) => v,
            None => {
                return Err(ArithmeticError::ArithmeticOverflow);
            },
        };
        self.total_debt = debt_num / INTEREST_SCALE;
        self.last_compound_cumulative_rate = protocol.cumulative_interest_rate;
        Ok(())
    }

    /// Absorbs a liquidation's loss into the pool: the stake total drops
    /// by the burned stablecoin, `P` scales down in proportion, and `S`
    /// rises by the seized collateral per unit of stake, weighted by `P`.
    pub fn absorb_loss(&mut self, loss: u64, collateral_gain: u64) -> (r: Result<
        (),
        ProtocolError,
    >)
        requires
            old(self).wf(),
        ensures
            match spec_absorb_loss(*old(self), loss as int, collateral_gain as int) {
                Ok(next) => r == Ok::<(), ProtocolError>(()) && *final(self) == next,
                Err(e) => r == Err::<(), ProtocolError>(e) && *final(self) == *old(self),
            },
            final(self).wf(),
            final(self).gain_summation >= old(self).gain_summation,
            final(self).total_stake_amount <= old(self).total_stake_amount,
            (r matches Ok(_) && (loss as int) < old(self).total_stake_amount) ==> final(self).deposit_depletion_factor <= old(self).deposit_depletion_factor,
    {
        let t = self.total_stake_amount;
        let p = self.deposit_depletion_factor;
        if t == 0 || (loss as u128) > t {
            return Err(ProtocolError::Stake(StakeError::InsufficientFunds));
        }
        if (loss as u128) == t {
            // Full depletion: every stake is consumed; reset the factor
            // so the pool can be seeded afresh.
            self.deposit_depletion_factor = INTEREST_SCALE;
            self.total_stake_amount = 0;
            return Ok(());
        }
        let gain_num = match (collateral_gain as u128).checked_mul(p) {
            Some(v) => v,
            None => {
                return Err(ProtocolError::Arithmetic(ArithmeticError::ArithmeticOverflow));
            },
        };
        proof {
            lemma_scale_nonneg(collateral_gain as int, p as int, t as int);
        }
        let gain_delta = gain_num / t;
        let new_gain = match self.gain_summation.checked_add(gain_delta) {
            Some(v) => v,
            None => {
                return Err(ProtocolError::Arithmetic(ArithmeticError::ArithmeticOverflow));
            },
        };
        let remaining = t - (loss as u128);
        let p_num = match p.checked_mul(remaining) {
            Some(v) => v,
            None => {
                return Err(ProtocolError::Arithmetic(ArithmeticError::ArithmeticOverflow));
            },
        };
        proof {
            lemma_scale_le_one(p as int, remaining as int, t as int);
        }
        let p_new = p_num / t;
        if p_new == 0 {
            return Err(ProtocolError::Arithmetic(ArithmeticError::ArithmeticOverflow));
        }
        self.gain_summation = new_gain;
        self.deposit_depletion_factor = p_new;
        self.total_stake_amount = remaining;
        Ok(())
    }
}

} // verus!
