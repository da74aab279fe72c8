//! The stability pool's scale-factor / cumulative-sum ledger: loss
//! absorption, reward pulls, debt compounding, and per-staker settling.

use cdp_stablecoin_protocol::collateral::CollateralConfig;
use cdp_stablecoin_protocol::constants::INTEREST_SCALE;
use cdp_stablecoin_protocol::errors::{ArithmeticError, ProtocolError, StakeError};
use cdp_stablecoin_protocol::protocol_config::ProtocolConfig;
use cdp_stablecoin_protocol::stake::StakeAccount;

fn vault_with(p: u128, s: u128, t: u128) -> CollateralConfig {
    let mut v = CollateralConfig::initialize_collateral_vault();
    v.deposit_depletion_factor = p;
    v.gain_summation = s;
    v.total_stake_amount = t;
    v
}

#[test]
fn absorb_loss_worked_example() {
    // T = 1,000,000, P = 1e9, S = 0; absorb L = 100,000 for C = 110,000.
    let mut v = vault_with(1_000_000_000, 0, 1_000_000);
    v.absorb_loss(100_000, 110_000).unwrap();
    assert_eq!(v.gain_summation, 110_000_000);
    assert_eq!(v.deposit_depletion_factor, 900_000_000);
    assert_eq!(v.total_stake_amount, 900_000);
}

#[test]
fn staker_settles_after_loss() {
    // Continuing the worked example: a staker of 500,000 at the initial
    // snapshot now holds 450,000 with a claimable gain of 55,000.
    let mut v = vault_with(1_000_000_000, 0, 1_000_000);
    v.absorb_loss(100_000, 110_000).unwrap();
    let account = StakeAccount {
        amount: 500_000,
        init_deposit_depletion_factor: 1_000_000_000,
        init_gain_summation: 0,
        last_staked: 0,
    };
    assert_eq!(account.settle_amounts(&v), Ok((450_000, 55_000)));
}

#[test]
fn absorb_loss_of_whole_stake_resets_pool() {
    let mut v = vault_with(400_000_000, 7, 1_000_000);
    v.absorb_loss(1_000_000, 500_000).unwrap();
    assert_eq!(v.deposit_depletion_factor, INTEREST_SCALE);
    assert_eq!(v.total_stake_amount, 0);
    assert_eq!(v.gain_summation, 7);
}

#[test]
fn absorb_loss_beyond_stake_is_rejected() {
    let mut v = vault_with(1_000_000_000, 0, 1_000_000);
    let before = v;
    assert_eq!(
        v.absorb_loss(1_000_001, 10),
        Err(ProtocolError::Stake(StakeError::InsufficientFunds))
    );
    assert_eq!(v, before);
}

#[test]
fn absorb_loss_into_empty_pool_is_rejected() {
    let mut v = vault_with(INTEREST_SCALE, 0, 0);
    assert_eq!(
        v.absorb_loss(1, 1),
        Err(ProtocolError::Stake(StakeError::InsufficientFunds))
    );
}

#[test]
fn absorb_loss_flooring_factor_to_zero_is_rejected() {
    // P = 1 and a loss of all but one unit would floor P to zero.
    let mut v = vault_with(1, 0, 1_000_000);
    assert_eq!(
        v.absorb_loss(999_999, 10),
        Err(ProtocolError::Arithmetic(ArithmeticError::ArithmeticOverflow))
    );
}

#[test]
fn pending_reward_pull_inflates_factor() {
    let mut v = vault_with(INTEREST_SCALE, 0, 1_000_000);
    v.total_debt = 1_000_000;
    let mut p = ProtocolConfig::initialize_protocol_config(500, 200, 5000, 0);
    p.cumulative_reward_per_debt = 500_000_000_000_000_000;
    // pending = 1e6 * 0.5 = 500,000; P grows by P * pending / T = 50%.
    let minted = v.claim_pending_rewards(&p).unwrap();
    assert_eq!(minted, 500_000);
    assert_eq!(v.deposit_depletion_factor, 1_500_000_000_000_000_000);
    assert_eq!(v.last_reward_per_debt, 500_000_000_000_000_000);
}

#[test]
fn pending_reward_pull_without_debt_is_a_noop() {
    let mut v = vault_with(INTEREST_SCALE, 0, 1_000_000);
    let mut p = ProtocolConfig::initialize_protocol_config(500, 200, 5000, 0);
    p.cumulative_reward_per_debt = 500_000_000_000_000_000;
    let before = v;
    assert_eq!(v.claim_pending_rewards(&p), Ok(0));
    assert_eq!(v, before);
}

#[test]
fn pending_reward_pull_without_stakers_forfeits() {
    let mut v = vault_with(INTEREST_SCALE, 0, 0);
    v.total_debt = 1_000_000;
    let mut p = ProtocolConfig::initialize_protocol_config(500, 200, 5000, 0);
    p.cumulative_reward_per_debt = 500_000_000_000_000_000;
    assert_eq!(v.claim_pending_rewards(&p), Ok(0));
    assert_eq!(v.deposit_depletion_factor, INTEREST_SCALE);
    assert_eq!(v.last_reward_per_debt, 500_000_000_000_000_000);
}

#[test]
fn compound_total_debt_applies_index_growth() {
    let mut v = CollateralConfig::initialize_collateral_vault();
    v.total_debt = 1_000_000;
    let mut p = ProtocolConfig::initialize_protocol_config(500, 200, 5000, 0);
    p.cumulative_interest_rate = 2 * INTEREST_SCALE;
    v.compound_total_debt(&p).unwrap();
    assert_eq!(v.total_debt, 2_000_000);
    assert_eq!(v.last_compound_cumulative_rate, 2 * INTEREST_SCALE);
}

#[test]
fn deposit_withdraw_round_trip() {
    let mut v = CollateralConfig::initialize_collateral_vault();
    let p = ProtocolConfig::initialize_protocol_config(500, 200, 5000, 0);
    let mut account = StakeAccount::init_stake_account(&v, 10);
    let out = account.deposit_tokens(&mut v, &p, 1_000, 10).unwrap();
    assert_eq!(out.pool_reward_minted, 0);
    assert_eq!(out.gain_paid, 0);
    assert_eq!(account.amount, 1_000);
    assert_eq!(v.total_stake_amount, 1_000);

    // A liquidation burns 200 of the pool against 300 seized collateral.
    v.absorb_loss(200, 300).unwrap();

    let out = account.withdraw_tokens(&mut v, &p, 800, 20).unwrap();
    assert_eq!(out.gain_paid, 300);
    assert_eq!(out.principal_paid, 800);
    assert_eq!(account.amount, 0);
    assert_eq!(v.total_stake_amount, 0);
    assert_eq!(account.init_deposit_depletion_factor, v.deposit_depletion_factor);
    assert_eq!(account.init_gain_summation, v.gain_summation);
}

#[test]
fn withdraw_beyond_value_is_rejected() {
    let mut v = CollateralConfig::initialize_collateral_vault();
    let p = ProtocolConfig::initialize_protocol_config(500, 200, 5000, 0);
    let mut account = StakeAccount::init_stake_account(&v, 10);
    account.deposit_tokens(&mut v, &p, 1_000, 10).unwrap();
    v.absorb_loss(200, 300).unwrap();
    // Worth 800 now; asking for 801 must fail and change nothing.
    let before_account = account;
    let before_vault = v;
    assert_eq!(
        account.withdraw_tokens(&mut v, &p, 801, 20),
        Err(ProtocolError::Stake(StakeError::InsufficientFunds))
    );
    assert_eq!(account, before_account);
    assert_eq!(v, before_vault);
}

#[test]
fn claim_pays_gain_and_resnapshots() {
    let mut v = CollateralConfig::initialize_collateral_vault();
    let p = ProtocolConfig::initialize_protocol_config(500, 200, 5000, 0);
    let mut account = StakeAccount::init_stake_account(&v, 10);
    account.deposit_tokens(&mut v, &p, 1_000, 10).unwrap();
    v.absorb_loss(200, 300).unwrap();
    let out = account.claim_stake_reward(&mut v, &p).unwrap();
    assert_eq!(out.gain_paid, 300);
    assert_eq!(out.principal_paid, 0);
    assert_eq!(account.amount, 800);
    assert_eq!(v.total_stake_amount, 800);
    // A second claim finds nothing further.
    let out = account.claim_stake_reward(&mut v, &p).unwrap();
    assert_eq!(out.gain_paid, 0);
    assert_eq!(account.amount, 800);
}

#[test]
fn second_staker_after_depletion_gains_proportionally() {
    // A staker who joins after a loss snapshots the depleted P, so the
    // earlier loss never touches them.
    let mut v = CollateralConfig::initialize_collateral_vault();
    let p = ProtocolConfig::initialize_protocol_config(500, 200, 5000, 0);
    let mut first = StakeAccount::init_stake_account(&v, 0);
    first.deposit_tokens(&mut v, &p, 1_000, 0).unwrap();
    v.absorb_loss(500, 600).unwrap();
    let mut second = StakeAccount::init_stake_account(&v, 1);
    second.deposit_tokens(&mut v, &p, 1_000, 1).unwrap();
    assert_eq!(second.settle_amounts(&v), Ok((1_000, 0)));
    assert_eq!(first.settle_amounts(&v), Ok((500, 600)));
}
