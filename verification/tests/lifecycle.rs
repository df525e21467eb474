use spl_staking::accounts::{AccountId, CustodyAuthority, State, UserStakeAccount};
use spl_staking::errors::CustomError;
use spl_staking::ledger::{
    claim_rewards, initialize_state, stake, unstake, update_stake, INITIAL_VAULT_FUNDING,
};
use spl_staking::transfer::TransferAuthority;

fn acct(id: u64) -> AccountId {
    AccountId { id }
}

fn fresh_pool() -> State {
    let (state, _funding) = initialize_state(
        acct(1),
        acct(2),
        acct(3),
        acct(4),
        CustodyAuthority { seed: 42 },
        1000,
        2000,
        500,
        10,
    );
    state
}

#[test]
fn initialization_seeds_the_vault_from_the_owner() {
    let (state, funding) = initialize_state(
        acct(1),
        acct(2),
        acct(3),
        acct(4),
        CustodyAuthority { seed: 42 },
        1000,
        2000,
        500,
        10,
    );
    assert_eq!(state.owner, acct(1));
    assert_eq!(state.token_mint, acct(2));
    assert_eq!(state.vault, acct(3));
    assert_eq!(state.start_time, 1000);
    assert_eq!(state.end_time, 2000);
    assert_eq!(state.lock_duration, 500);
    assert_eq!(state.apy, 10);
    assert_eq!(state.total_staked, 0);
    assert_eq!(funding.from, acct(4));
    assert_eq!(funding.to, acct(3));
    assert_eq!(funding.amount, INITIAL_VAULT_FUNDING);
    assert_eq!(funding.amount, 1_000_000_000);
    assert_eq!(funding.authority, TransferAuthority::User(acct(1)));
}

#[test]
fn staking_before_the_window_fails() {
    let mut state = fresh_pool();
    let mut record = UserStakeAccount::new(acct(5));
    let r = stake(&mut state, &mut record, acct(5), acct(6), 1_000_000, 999);
    assert_eq!(r, Err(CustomError::StakingNotStarted));
    assert_eq!(record.amount_staked, 0);
}

#[test]
fn staking_after_the_window_fails() {
    let mut state = fresh_pool();
    let mut record = UserStakeAccount::new(acct(5));
    let r = stake(&mut state, &mut record, acct(5), acct(6), 1_000_000, 2001);
    assert_eq!(r, Err(CustomError::StakingEnded));
    assert_eq!(record.amount_staked, 0);
}

#[test]
fn staking_inside_the_window_locks_the_principal() {
    let mut state = fresh_pool();
    let mut record = UserStakeAccount::new(acct(5));
    let instr = stake(&mut state, &mut record, acct(5), acct(6), 1_000_000, 1500).unwrap();
    assert_eq!(instr.from, acct(6));
    assert_eq!(instr.to, acct(3));
    assert_eq!(instr.authority, TransferAuthority::User(acct(5)));
    assert_eq!(instr.amount, 1_000_000);
    assert_eq!(record.user, acct(5));
    assert_eq!(record.amount_staked, 1_000_000);
    assert_eq!(record.start_time, 1500);
    assert_eq!(record.lock_duration, 500);
    assert_eq!(record.apy, 10);
    assert_eq!(record.reward_claimed, 0);
    assert_eq!(state.total_staked, 1_000_000);
}

#[test]
fn a_second_stake_on_an_active_record_fails() {
    let mut state = fresh_pool();
    let mut record = UserStakeAccount::new(acct(5));
    stake(&mut state, &mut record, acct(5), acct(6), 1_000_000, 1500).unwrap();
    let before = record;
    let r = stake(&mut state, &mut record, acct(5), acct(6), 5, 1600);
    assert_eq!(r, Err(CustomError::AlreadyStaked));
    assert_eq!(record, before);
    assert_eq!(state.total_staked, 1_000_000);
}

#[test]
fn claiming_in_the_staking_instant_finds_nothing() {
    let mut state = fresh_pool();
    let mut record = UserStakeAccount::new(acct(5));
    stake(&mut state, &mut record, acct(5), acct(6), 1_000_000, 1500).unwrap();
    let r = claim_rewards(&state, &mut record, acct(6), 1500);
    assert_eq!(r, Err(CustomError::NoRewardsAvailable));
    assert_eq!(record.reward_claimed, 0);
}

#[test]
fn claiming_on_an_empty_record_finds_nothing() {
    let state = fresh_pool();
    let mut record = UserStakeAccount::new(acct(5));
    let r = claim_rewards(&state, &mut record, acct(6), 1500);
    assert_eq!(r, Err(CustomError::NoRewardsAvailable));
}

#[test]
fn a_year_of_staking_accrues_ten_percent() {
    let mut state = fresh_pool();
    let mut record = UserStakeAccount::new(acct(5));
    stake(&mut state, &mut record, acct(5), acct(6), 1_000_000, 1500).unwrap();
    let instr = claim_rewards(&state, &mut record, acct(6), 1500 + 31_536_000).unwrap();
    assert_eq!(instr.from, acct(3));
    assert_eq!(instr.to, acct(6));
    assert_eq!(instr.authority, TransferAuthority::Custody(CustodyAuthority { seed: 42 }));
    assert_eq!(instr.amount, 100_000);
    assert_eq!(record.reward_claimed, 100_000);
}

#[test]
fn an_immediate_second_claim_finds_nothing() {
    let mut state = fresh_pool();
    let mut record = UserStakeAccount::new(acct(5));
    stake(&mut state, &mut record, acct(5), acct(6), 1_000_000, 1500).unwrap();
    claim_rewards(&state, &mut record, acct(6), 1500 + 31_536_000).unwrap();
    let again = claim_rewards(&state, &mut record, acct(6), 1500 + 31_536_000);
    assert_eq!(again, Err(CustomError::NoRewardsAvailable));
    assert_eq!(record.reward_claimed, 100_000);
}

#[test]
fn a_later_claim_pays_only_the_difference() {
    let mut state = fresh_pool();
    let mut record = UserStakeAccount::new(acct(5));
    stake(&mut state, &mut record, acct(5), acct(6), 1_000_000, 1500).unwrap();
    claim_rewards(&state, &mut record, acct(6), 1500 + 31_536_000).unwrap();
    let second = claim_rewards(&state, &mut record, acct(6), 1500 + 2 * 31_536_000).unwrap();
    assert_eq!(second.amount, 100_000);
    assert_eq!(record.reward_claimed, 200_000);
}

#[test]
fn unstaking_before_the_lock_elapses_fails() {
    let mut state = fresh_pool();
    let mut record = UserStakeAccount::new(acct(5));
    stake(&mut state, &mut record, acct(5), acct(6), 1_000_000, 1500).unwrap();
    let r = unstake(&mut state, &mut record, acct(6), 1999);
    assert_eq!(r, Err(CustomError::LockPeriodNotOver));
    assert_eq!(record.amount_staked, 1_000_000);
}

#[test]
fn unstaking_at_the_lock_boundary_returns_the_principal() {
    let mut state = fresh_pool();
    let mut record = UserStakeAccount::new(acct(5));
    stake(&mut state, &mut record, acct(5), acct(6), 1_000_000, 1500).unwrap();
    // A mid-cycle claim leaves a nonzero claimed total behind...
    claim_rewards(&state, &mut record, acct(6), 2000).unwrap();
    assert_eq!(record.reward_claimed, 1);
    let instr = unstake(&mut state, &mut record, acct(6), 2000).unwrap();
    assert_eq!(instr.from, acct(3));
    assert_eq!(instr.to, acct(6));
    assert_eq!(instr.authority, TransferAuthority::Custody(CustodyAuthority { seed: 42 }));
    assert_eq!(instr.amount, 1_000_000);
    // ...and closing the stake resets both counters.
    assert_eq!(record.amount_staked, 0);
    assert_eq!(record.reward_claimed, 0);
    assert_eq!(state.total_staked, 0);
}

#[test]
fn a_record_is_reusable_after_unstaking() {
    let mut state = fresh_pool();
    let mut record = UserStakeAccount::new(acct(5));
    stake(&mut state, &mut record, acct(5), acct(6), 1_000_000, 1400).unwrap();
    unstake(&mut state, &mut record, acct(6), 1900).unwrap();
    assert_eq!(record.amount_staked, 0);
    let r = stake(&mut state, &mut record, acct(5), acct(6), 777, 1950);
    assert!(r.is_ok());
    assert_eq!(record.amount_staked, 777);
    assert_eq!(record.start_time, 1950);
    assert_eq!(record.reward_claimed, 0);
}

#[test]
fn only_the_owner_may_reconfigure() {
    let mut state = fresh_pool();
    let before = state;
    let r = update_stake(&mut state, acct(7), 0, 9000, 1, 99);
    assert_eq!(r, Err(CustomError::Unauthorized));
    assert_eq!(state, before);
}

#[test]
fn the_owner_reconfigures_in_place() {
    let mut state = fresh_pool();
    let r = update_stake(&mut state, acct(1), 3000, 4000, 600, 12);
    assert_eq!(r, Ok(()));
    assert_eq!(state.start_time, 3000);
    assert_eq!(state.end_time, 4000);
    assert_eq!(state.lock_duration, 600);
    assert_eq!(state.apy, 12);
    assert_eq!(state.owner, acct(1));
    assert_eq!(state.vault, acct(3));
    assert_eq!(state.token_mint, acct(2));
}

#[test]
fn reconfiguration_cannot_touch_an_open_stake() {
    let mut state = fresh_pool();
    let mut record = UserStakeAccount::new(acct(5));
    stake(&mut state, &mut record, acct(5), acct(6), 1_000_000, 1500).unwrap();
    // The owner drops the rate to zero and shortens the window...
    update_stake(&mut state, acct(1), 1000, 2000, 100_000_000, 0).unwrap();
    // ...but the open stake accrues at its snapshotted rate...
    let instr = claim_rewards(&state, &mut record, acct(6), 1500 + 31_536_000).unwrap();
    assert_eq!(instr.amount, 100_000);
    // ...and unlocks by its snapshotted lock duration.
    let r = unstake(&mut state, &mut record, acct(6), 1500 + 31_536_000);
    assert!(r.is_ok());
}

#[test]
fn errors_describe_themselves() {
    assert_eq!(
        CustomError::LockPeriodNotOver.describe(),
        "The lock period has not yet ended."
    );
    assert_eq!(
        CustomError::Unauthorized.describe(),
        "Only the pool owner may reconfigure the pool."
    );
}
