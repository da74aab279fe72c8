//! Per-staker stability-pool accounts: snapshot records that turn the
//! pool's `(P, S)` accumulators into exact balances, and the deposit,
//! withdraw and claim transitions.

use vstd::prelude::*;

verus! {

use crate::collateral::{spec_claim_pending_rewards, CollateralConfig};
use crate::errors::{ArithmeticError, ProtocolError, StakeError};
use crate::protocol_config::ProtocolConfig;

/// One staker's record. `amount` is the stake recorded at the pool state
/// snapshotted in `init_deposit_depletion_factor` (`P0`) and
/// `init_gain_summation` (`S0`); the stake's present worth is
/// `amount * P_now / P0` and its unclaimed collateral gain is
/// `amount * (S_now - S0) / P0`.
#[derive(Clone, Copy, Debug, PartialEq, Eq)]
pub struct StakeAccount {
    pub amount: u64,
    pub init_deposit_depletion_factor: u128,
    pub init_gain_summation: u128,
    pub last_staked: i64,
}

/// What a stake operation moves, beyond the record itself: the interest
/// reward the host mints into the pool, the collateral gain it pays the
/// staker, and the stablecoin principal it returns to the staker.
#[derive(Clone, Copy, Debug, PartialEq, Eq)]
pub struct StakeOutcome {
    pub pool_reward_minted: u64,
    pub gain_paid: u64,
    pub principal_paid: u64,
}

/// A stake's present worth: `amount * p_now / p0`.
pub open spec fn spec_staker_value(amount: int, p_now: int, p0: int) -> int
    recommends
        p0 > 0,
{
    amount * p_now / p0
}

/// A stake's unclaimed collateral gain: `amount * (s_now - s0) / p0`.
pub open spec fn spec_staker_gain(amount: int, s_now: int, s0: int, p0: int) -> int
    recommends
        p0 > 0,
{
    amount * (s_now - s0) / p0
}

/// Settling a stake against the pool's current accumulators: its present
/// worth and unclaimed gain, or the abort.
pub open spec fn spec_settle(a: StakeAccount, v: CollateralConfig) -> Result<
    (int, int),
    ProtocolError,
> {
    let p0 = a.init_deposit_depletion_factor as int;
    if p0 == 0 {
        Err(ProtocolError::Arithmetic(ArithmeticError::ArithmeticOverflow))
    } else if v.gain_summation < a.init_gain_summation {
        Err(ProtocolError::Arithmetic(ArithmeticError::ArithmeticOverflow))
    } else if a.amount * (v.gain_summation - a.init_gain_summation) > u128::MAX {
        Err(ProtocolError::Arithmetic(ArithmeticError::ArithmeticOverflow))
    } else {
        let gain = spec_staker_gain(
            a.amount as int,
            v.gain_summation as int,
            a.init_gain_summation as int,
            p0,
        );
        if gain > u64::MAX {
            Err(ProtocolError::Arithmetic(ArithmeticError::ArithmeticOverflow))
        } else if a.amount * v.deposit_depletion_factor > u128::MAX {
            Err(ProtocolError::Arithmetic(ArithmeticError::ArithmeticOverflow))
        } else {
            let value = spec_staker_value(
                a.amount as int,
                v.deposit_depletion_factor as int,
                p0,
            );
            if value > u64::MAX {
                Err(ProtocolError::Arithmetic(ArithmeticError::ArithmeticOverflow))
            } else {
                Ok((value, gain))
            }
        }
    }
}

/// The deposit transition: pull the pool's pending interest reward, settle
/// the staker's gain, fold the stake's present worth together with the new
/// deposit into a fresh snapshot, and grow the pool's stake total.
pub open spec fn spec_deposit_tokens(
    a: StakeAccount,
    v: CollateralConfig,
    p: ProtocolConfig,
    amount: int,
    now: int,
) -> Result<(StakeAccount, CollateralConfig, StakeOutcome), ProtocolError> {
    match spec_claim_pending_rewards(v, p) {
        Err(e) => Err(e),
        Ok((v1, minted)) => match spec_settle(a, v1) {
            Err(e) => Err(e),
            Ok((value, gain)) => {
                if value + amount > u64::MAX {
                    Err(ProtocolError::Arithmetic(ArithmeticError::ArithmeticOverflow))
                } else if v1.total_stake_amount + amount > u128::MAX {
                    Err(ProtocolError::Arithmetic(ArithmeticError::ArithmeticOverflow))
                } else {
                    Ok(
                        (
                            (StakeAccount {
                                amount: (value + amount) as u64,
                                init_deposit_depletion_factor: v1.deposit_depletion_factor,
                                init_gain_summation: v1.gain_summation,
                                last_staked: now as i64,
                            }),
                            (CollateralConfig {
                                total_stake_amount: (v1.total_stake_amount + amount) as u128,
                                ..v1
                            }),
                            (StakeOutcome {
                                pool_reward_minted: minted,
                                gain_paid: gain as u64,
                                principal_paid: 0,
                            }),
                        ),
                    )
                }
            },
        },
    }
}

/// The withdraw transition: pull the pending reward, settle the gain,
/// return the requested part of the stake's present worth, and re-snapshot
/// the remainder.
pub open spec fn spec_withdraw_tokens(
    a: StakeAccount,
    v: CollateralConfig,
    p: ProtocolConfig,
    requested: int,
    now: int,
) -> Result<(StakeAccount, CollateralConfig, StakeOutcome), ProtocolError> {
    match spec_claim_pending_rewards(v, p) {
        Err(e) => Err(e),
        Ok((v1, minted)) => match spec_settle(a, v1) {
            Err(e) => Err(e),
            Ok((value, gain)) => {
                if requested > value {
                    Err(ProtocolError::Stake(StakeError::InsufficientFunds))
                } else if v1.total_stake_amount < requested {
                    Err(ProtocolError::Arithmetic(ArithmeticError::ArithmeticOverflow))
                } else {
                    Ok(
                        (
                            (StakeAccount {
                                amount: (value - requested) as u64,
                                init_deposit_depletion_factor: v1.deposit_depletion_factor,
                                init_gain_summation: v1.gain_summation,
                                last_staked: now as i64,
                            }),
                            (CollateralConfig {
                                total_stake_amount: (v1.total_stake_amount - requested) as u128,
                                ..v1
                            }),
                            (StakeOutcome {
                                pool_reward_minted: minted,
                                gain_paid: gain as u64,
                                principal_paid: requested as u64,
                            }),
                        ),
                    )
                }
            },
        },
    }
}

/// The claim transition: pull the pending reward, pay out the gain, and
/// re-snapshot the stake at its present worth; the pool's stake total does
/// not move.
pub open spec fn spec_claim_stake_reward(
    a: StakeAccount,
    v: CollateralConfig,
    p: ProtocolConfig,
) -> Result<(StakeAccount, CollateralConfig, StakeOutcome), ProtocolError> {
    match spec_claim_pending_rewards(v, p) {
        Err(e) => Err(e),
        Ok((v1, minted)) => match spec_settle(a, v1) {
            Err(e) => Err(e),
            Ok((value, gain)) => Ok(
                (
                    (StakeAccount {
                        amount: value as u64,
                        init_deposit_depletion_factor: v1.deposit_depletion_factor,
                        init_gain_summation: v1.gain_summation,
                        last_staked: a.last_staked,
                    }),
                    v1,
                    (StakeOutcome {
                        pool_reward_minted: minted,
                        gain_paid: gain as u64,
                        principal_paid: 0,
                    }),
                ),
            ),
        },
    }
}

impl StakeAccount {
    /// Well-formedness: the snapshotted depletion factor is a usable
    /// divisor.
    pub open spec fn wf(self) -> bool {
        self.init_deposit_depletion_factor >= 1
    }

    /// Creates an empty stake record snapshotted at the pool's current
    /// accumulators.
    pub fn init_stake_account(vault: &CollateralConfig, now: i64) -> (r: StakeAccount)
        requires
            vault.wf(),
        ensures
            r == (StakeAccount {
                amount: 0,
                init_deposit_depletion_factor: vault.deposit_depletion_factor,
                init_gain_summation: vault.gain_summation,
                last_staked: now,
            }),
            r.wf(),
    {
        StakeAccount {
            amount: 0,
            init_deposit_depletion_factor: vault.deposit_depletion_factor,
            init_gain_summation: vault.gain_summation,
            last_staked: now,
        }
    }

    /// The stake's present worth and unclaimed collateral gain against
    /// the pool's current accumulators.
    pub fn settle_amounts(&self, vault: &CollateralConfig) -> (r: Result<(u64, u64), ProtocolError>)
        ensures
            match spec_settle(*self, *vault) {
                Ok(amounts) => r == Ok::<(u64, u64), ProtocolError>(
                    (amounts.0 as u64, amounts.1 as u64),
                ),
                Err(e) => r == Err::<(u64, u64), ProtocolError>(e),
            },
    {
        if self.init_deposit_depletion_factor == 0 {
            return Err(ProtocolError::Arithmetic(ArithmeticError::ArithmeticOverflow));
        }
        let gain_diff = match vault.gain_summation.checked_sub(self.init_gain_summation) {
            Some(v) => v,
            None => {
                return Err(ProtocolError::Arithmetic(ArithmeticError::ArithmeticOverflow));
            },
        };
        let gain_num = match (self.amount as u128).checked_mul(gain_diff) {
            Some(v) => v,
            None => {
                return Err(ProtocolError::Arithmetic(ArithmeticError::ArithmeticOverflow));
            },
        };
        let gain = gain_num / self.init_deposit_depletion_factor;
        if gain > u64::MAX as u128 {
            return Err(ProtocolError::Arithmetic(ArithmeticError::ArithmeticOverflow));
        }
        let value_num = match (self.amount as u128).checked_mul(vault.deposit_depletion_factor) {
            Some(v) => v,
            None => {
                return Err(ProtocolError::Arithmetic(ArithmeticError::ArithmeticOverflow));
            },
        };
        let value = value_num / self.init_deposit_depletion_factor;
        if value > u64::MAX as u128 {
            return Err(ProtocolError::Arithmetic(ArithmeticError::ArithmeticOverflow));
        }
        Ok((value as u64, gain as u64))
    }

    /// Deposits `amount` stablecoin into the pool. Pulls the pool's
    /// pending reward first, settles the gain owed so far, and
    /// re-snapshots the record. The host must move `amount` from the
    /// staker into the pool, mint `pool_reward_minted` into the pool, and
    /// pay `gain_paid` collateral to the staker exactly when this returns
    /// `Ok`.
    pub fn deposit_tokens(
        &mut self,
        vault: &mut CollateralConfig,
        protocol: &ProtocolConfig,
        amount: u64,
        now: i64,
    ) -> (r: Result<StakeOutcome, ProtocolError>)
        requires
            old(self).wf(),
            old(vault).wf(),
        ensures
            match spec_deposit_tokens(*old(self), *old(vault), *protocol, amount as int, now as int) {
                Ok(next) => r == Ok::<StakeOutcome, ProtocolError>(next.2) && *final(self)
                    == next.0 && *final(vault) == next.1,
                Err(e) => r == Err::<StakeOutcome, ProtocolError>(e) && *final(self) == *old(self)
                    && *final(vault) == *old(vault),
            },
            final(self).wf(),
            final(vault).wf(),
            final(vault).gain_summation == old(vault).gain_summation,
            final(vault).deposit_depletion_factor >= old(vault).deposit_depletion_factor,
    {
        let mut v_next = *vault;
        let minted = match v_next.claim_pending_rewards(protocol) {
            Ok(m) => m,
            Err(e) => {
                return Err(e);
            },
        };
        let (value, gain) = match self.settle_amounts(&v_next) {
            Ok(a) => a,
            Err(e) => {
                return Err(e);
            },
        };
        let new_amount = match value.checked_add(amount) {
            Some(v) => v,
            None => {
                return Err(ProtocolError::Arithmetic(ArithmeticError::ArithmeticOverflow));
            },
        };
        let new_total = match v_next.total_stake_amount.checked_add(amount as u128) {
            Some(v) => v,
            None => {
                return Err(ProtocolError::Arithmetic(ArithmeticError::ArithmeticOverflow));
            },
        };
        v_next.total_stake_amount = new_total;
        self.amount = new_amount;
        self.init_deposit_depletion_factor = v_next.deposit_depletion_factor;
        self.init_gain_summation = v_next.gain_summation;
        self.last_staked = now;
        *vault = v_next;
        Ok(StakeOutcome { pool_reward_minted: minted, gain_paid: gain, principal_paid: 0 })
    }

    /// Withdraws `requested` stablecoin of the stake's present worth.
    /// Pulls the pool's pending reward first and settles the gain owed so
    /// far: principal cannot leave without the gain being credited. The
    /// host must mint `pool_reward_minted` into the pool, pay `gain_paid`
    /// collateral and return `principal_paid` stablecoin to the staker
    /// exactly when this returns `Ok`; a record left at amount zero is a
    /// full withdrawal and may be destroyed.
    pub fn withdraw_tokens(
        &mut self,
        vault: &mut CollateralConfig,
        protocol: &ProtocolConfig,
        requested: u64,
        now: i64,
    ) -> (r: Result<StakeOutcome, ProtocolError>)
        requires
            old(self).wf(),
            old(vault).wf(),
        ensures
            match spec_withdraw_tokens(
                *old(self),
                *old(vault),
                *protocol,
                requested as int,
                now as int,
            ) {
                Ok(next) => r == Ok::<StakeOutcome, ProtocolError>(next.2) && *final(self)
                    == next.0 && *final(vault) == next.1,
                Err(e) => r == Err::<StakeOutcome, ProtocolError>(e) && *final(self) == *old(self)
                    && *final(vault) == *old(vault),
            },
            final(self).wf(),
            final(vault).wf(),
            final(vault).gain_summation == old(vault).gain_summation,
            final(vault).deposit_depletion_factor >= old(vault).deposit_depletion_factor,
    {
        let mut v_next = *vault;
        let minted = match v_next.claim_pending_rewards(protocol) {
            Ok(m) => m,
            Err(e) => {
                return Err(e);
            },
        };
        let (value, gain) = match self.settle_amounts(&v_next) {
            Ok(a) => a,
            Err(e) => {
                return Err(e);
            },
        };
        if requested > value {
            return Err(ProtocolError::Stake(StakeError::InsufficientFunds));
        }
        let new_total = match v_next.total_stake_amount.checked_sub(requested as u128) {
            Some(v) => v,
            None => {
                return Err(ProtocolError::Arithmetic(ArithmeticError::ArithmeticOverflow));
            },
        };
        v_next.total_stake_amount = new_total;
        self.amount = value - requested;
        self.init_deposit_depletion_factor = v_next.deposit_depletion_factor;
        self.init_gain_summation = v_next.gain_summation;
        self.last_staked = now;
        *vault = v_next;
        Ok(StakeOutcome { pool_reward_minted: minted, gain_paid: gain, principal_paid: requested })
    }

    /// Pays out the stake's unclaimed collateral gain and re-snapshots
    /// the record at its present worth. The host must mint
    /// `pool_reward_minted` into the pool and pay `gain_paid` collateral
    /// to the staker exactly when this returns `Ok`.
    pub fn claim_stake_reward(
        &mut self,
        vault: &mut CollateralConfig,
        protocol: &ProtocolConfig,
    ) -> (r: Result<StakeOutcome, ProtocolError>)
        requires
            old(self).wf(),
            old(vault).wf(),
        ensures
            match spec_claim_stake_reward(*old(self), *old(vault), *protocol) {
                Ok(next) => r == Ok::<StakeOutcome, ProtocolError>(next.2) && *final(self)
                    == next.0 && *final(vault) == next.1,
                Err(e) => r == Err::<StakeOutcome, ProtocolError>(e) && *final(self) == *old(self)
                    && *final(vault) == *old(vault),
            },
            final(self).wf(),
            final(vault).wf(),
            final(vault).gain_summation == old(vault).gain_summation,
            final(vault).deposit_depletion_factor >= old(vault).deposit_depletion_factor,
    {
        let mut v_next = *vault;
        let minted = match v_next.claim_pending_rewards(protocol) {
            Ok(m) => m,
            Err(e) => {
                return Err(e);
            },
        };
        let (value, gain) = match self.settle_amounts(&v_next) {
            Ok(a) => a,
            Err(e) => {
                return Err(e);
            },
        };
        self.amount = value;
        self.init_deposit_depletion_factor = v_next.deposit_depletion_factor;
        self.init_gain_summation = v_next.gain_summation;
        *vault = v_next;
        Ok(StakeOutcome { pool_reward_minted: minted, gain_paid: gain, principal_paid: 0 })
    }
}

} // verus!
