use vstd::prelude::*;
use crate::accounts::{AccountId, CustodyAuthority, State, UserStakeAccount};
use crate::errors::CustomError;
use crate::rewards::{calculate_rewards, reward_of};
use crate::transfer::{TransferAuthority, TransferInstruction};

verus! {

/// Tokens moved from the owner's account into the vault when the pool is
/// created, the funding from which rewards are later paid.
pub const INITIAL_VAULT_FUNDING: u64 = 1_000_000_000;

/// Sum of two counters, clamped to the range of `u64`. Used only for the
/// informational `total_staked` aggregate, which nothing else relies on.
pub open spec fn clamped_total_plus(total: u64, amount: u64) -> u64 {
    if total + amount <= u64::MAX {
        (total + amount) as u64
    } else {
        u64::MAX
    }
}

/// Difference of two counters, clamped to the range of `u64`. Used only
/// for the informational `total_staked` aggregate.
pub open spec fn clamped_total_minus(total: u64, amount: u64) -> u64 {
    if amount <= total {
        (total - amount) as u64
    } else {
        0
    }
}

/// The pool state and the funding transfer that `initialize_state`
/// produces from its arguments.
pub open spec fn initialize_spec(
    owner: AccountId,
    token_mint: AccountId,
    vault: AccountId,
    owner_token_account: AccountId,
    bump: CustodyAuthority,
    start_time: i64,
    end_time: i64,
    lock_duration: i64,
    apy: u64,
) -> (State, TransferInstruction) {
    (
        State {
            owner,
            token_mint,
            vault,
            start_time,
            end_time,
            lock_duration,
            apy,
            total_staked: 0,
            bump,
        },
        TransferInstruction {
            from: owner_token_account,
            to: vault,
            authority: TransferAuthority::User(owner),
            amount: INITIAL_VAULT_FUNDING,
        },
    )
}

/// How `update_stake` transforms the pool state: a caller other than the
/// owner is rejected and changes nothing; the owner overwrites the four
/// mutable parameters and nothing else.
pub open spec fn update_spec(
    state: State,
    caller: AccountId,
    start_time: i64,
    end_time: i64,
    lock_duration: i64,
    apy: u64,
) -> (State, Result<(), CustomError>) {
    if caller != state.owner {
        (state, Err(CustomError::Unauthorized))
    } else {
        (State { start_time, end_time, lock_duration, apy, ..state }, Ok(()))
    }
}

/// How `stake` transforms the pool state and the caller's record, and
/// which transfer it issues.
pub open spec fn stake_spec(
    state: State,
    record: UserStakeAccount,
    user: AccountId,
    user_token_account: AccountId,
    amount: u64,
    now: i64,
) -> (State, UserStakeAccount, Result<TransferInstruction, CustomError>) {
    if now < state.start_time {
        (state, record, Err(CustomError::StakingNotStarted))
    } else if now > state.end_time {
        (state, record, Err(CustomError::StakingEnded))
    } else if record.amount_staked != 0 {
        (state, record, Err(CustomError::AlreadyStaked))
    } else {
        (
            State { total_staked: clamped_total_plus(state.total_staked, amount), ..state },
            UserStakeAccount {
                user,
                amount_staked: amount,
                start_time: now,
                lock_duration: state.lock_duration,
                apy: state.apy,
                reward_claimed: 0,
            },
            Ok(TransferInstruction {
                from: user_token_account,
                to: state.vault,
                authority: TransferAuthority::User(user),
                amount,
            }),
        )
    }
}

/// How `claim_rewards` transforms the caller's record, and which transfer
/// it issues. `total` is the reward accrued so far by the snapshotted
/// rate; only the part above what was already claimed is paid out.
pub open spec fn claim_spec(
    state: State,
    record: UserStakeAccount,
    user_token_account: AccountId,
    now: i64,
) -> (UserStakeAccount, Result<TransferInstruction, CustomError>) {
    let total = reward_of(record.amount_staked, record.apy, now - record.start_time);
    if total > record.reward_claimed {
        (
            UserStakeAccount { reward_claimed: total as u64, ..record },
            Ok(TransferInstruction {
                from: state.vault,
                to: user_token_account,
                authority: TransferAuthority::Custody(state.bump),
                amount: (total - record.reward_claimed) as u64,
            }),
        )
    } else {
        (record, Err(CustomError::NoRewardsAvailable))
    }
}

/// How `unstake` transforms the pool state and the caller's record, and
/// which transfer it issues.
pub open spec fn unstake_spec(
    state: State,
    record: UserStakeAccount,
    user_token_account: AccountId,
    now: i64,
) -> (State, UserStakeAccount, Result<TransferInstruction, CustomError>) {
    if now < record.start_time + record.lock_duration {
        (state, record, Err(CustomError::LockPeriodNotOver))
    } else {
        (
            State {
                total_staked: clamped_total_minus(state.total_staked, record.amount_staked),
                ..state
            },
            UserStakeAccount { amount_staked: 0, reward_claimed: 0, ..record },
            Ok(TransferInstruction {
                from: state.vault,
                to: user_token_account,
                authority: TransferAuthority::Custody(state.bump),
                amount: record.amount_staked,
            }),
        )
    }
}

/// Creates the singleton pool state and the transfer that seed-funds the
/// vault from the owner's own token account. The host's account store is
/// responsible for creating the pool at most once, for carrying out the
/// funding transfer, and for committing the returned state only if that
/// transfer succeeds.
pub fn initialize_state(
    owner: AccountId,
    token_mint: AccountId,
    vault: AccountId,
    owner_token_account: AccountId,
    bump: CustodyAuthority,
    start_time: i64,
    end_time: i64,
    lock_duration: i64,
    apy: u64,
) -> (r: (State, TransferInstruction))
    requires
        start_time <= end_time,
    ensures
        r == initialize_spec(
            owner,
            token_mint,
            vault,
            owner_token_account,
            bump,
            start_time,
            end_time,
            lock_duration,
            apy,
        ),
        r.0.wf(),
{
    (
        State {
            owner,
            token_mint,
            vault,
            start_time,
            end_time,
            lock_duration,
            apy,
            total_staked: 0,
            bump,
        },
        TransferInstruction {
            from: owner_token_account,
            to: vault,
            authority: TransferAuthority::User(owner),
            amount: INITIAL_VAULT_FUNDING,
        },
    )
}

/// Overwrites the pool's staking window, lock duration and rate, in
/// place, when and only when `caller` is the pool owner; any other caller
/// is rejected with `Unauthorized` and the state is left untouched. The
/// owner, asset, vault, custody credential and aggregate never change.
pub fn update_stake(
    state: &mut State,
    caller: AccountId,
    start_time: i64,
    end_time: i64,
    lock_duration: i64,
    apy: u64,
) -> (r: Result<(), CustomError>)
    requires
        start_time <= end_time,
    ensures
        (*final(state), r) == update_spec(*old(state), caller, start_time, end_time, lock_duration, apy),
        old(state).wf() ==> final(state).wf(),
{
    if caller != state.owner {
        return Err(CustomError::Unauthorized);
    }
    state.start_time = start_time;
    state.end_time = end_time;
    state.lock_duration = lock_duration;
    state.apy = apy;
    Ok(())
}

/// Opens a stake of `amount` tokens for `user` at time `now`. Succeeds
/// when and only when `now` lies inside the pool's staking window and the
/// record holds no active stake; the record then snapshots the pool's
/// lock duration and rate, and the returned transfer moves the principal
/// from the user's token account into the vault. The host must commit the
/// mutated state only if that transfer succeeds.
pub fn stake(
    state: &mut State,
    record: &mut UserStakeAccount,
    user: AccountId,
    user_token_account: AccountId,
    amount: u64,
    now: i64,
) -> (r: Result<TransferInstruction, CustomError>)
    ensures
        (*final(state), *final(record), r) == stake_spec(
            *old(state),
            *old(record),
            user,
            user_token_account,
            amount,
            now,
        ),
{
    if now < state.start_time {
        return Err(CustomError::StakingNotStarted);
    }
    if now > state.end_time {
        return Err(CustomError::StakingEnded);
    }
    if record.amount_staked != 0 {
        return Err(CustomError::AlreadyStaked);
    }
    record.user = user;
    record.amount_staked = amount;
    record.start_time = now;
    record.lock_duration = state.lock_duration;
    record.apy = state.apy;
    record.reward_claimed = 0;
    state.total_staked = if amount <= u64::MAX - state.total_staked {
        state.total_staked + amount
    } else {
        u64::MAX
    };
    Ok(TransferInstruction {
        from: user_token_account,
        to: state.vault,
        authority: TransferAuthority::User(user),
        amount,
    })
}

/// Pays out the reward newly accrued by the caller's record at time
/// `now`, computed from the rate snapshotted at stake time so that a
/// later reconfiguration cannot change the accrual of an open stake.
/// Succeeds when and only when the accrued total exceeds what was already
/// claimed; the record then remembers the total, and the returned
/// transfer moves the difference out of the vault under the custody
/// credential. An empty record accrues nothing and is rejected with
/// `NoRewardsAvailable`. The host must commit the mutated record only if
/// the transfer succeeds.
pub fn claim_rewards(
    state: &State,
    record: &mut UserStakeAccount,
    user_token_account: AccountId,
    now: i64,
) -> (r: Result<TransferInstruction, CustomError>)
    requires
        now - old(record).start_time <= i64::MAX,
        reward_of(old(record).amount_staked, old(record).apy, now - old(record).start_time)
            <= u64::MAX,
    ensures
        (*final(record), r) == claim_spec(*state, *old(record), user_token_account, now),
{
    let total: u64 = if now >= record.start_time {
        calculate_rewards(record.amount_staked, record.apy, now - record.start_time)
    } else {
        0
    };
    if total > record.reward_claimed {
        let claimable = total - record.reward_claimed;
        record.reward_claimed = total;
        Ok(TransferInstruction {
            from: state.vault,
            to: user_token_account,
            authority: TransferAuthority::Custody(state.bump),
            amount: claimable,
        })
    } else {
        Err(CustomError::NoRewardsAvailable)
    }
}

/// Closes the caller's stake at time `now`. Succeeds when and only when
/// the lock period snapshotted into the record has elapsed; the record is
/// then reset to its empty, reusable form, and the returned transfer
/// moves the whole principal from the vault back to the user's token
/// account under the custody credential. The host must commit the mutated
/// state only if that transfer succeeds.
pub fn unstake(
    state: &mut State,
    record: &mut UserStakeAccount,
    user_token_account: AccountId,
    now: i64,
) -> (r: Result<TransferInstruction, CustomError>)
    ensures
        (*final(state), *final(record), r) == unstake_spec(
            *old(state),
            *old(record),
            user_token_account,
            now,
        ),
{
    let unlock: i128 = record.start_time as i128 + record.lock_duration as i128;
    if (now as i128) < unlock {
        return Err(CustomError::LockPeriodNotOver);
    }
    let amount = record.amount_staked;
    record.amount_staked = 0;
    record.reward_claimed = 0;
    state.total_staked = if amount <= state.total_staked {
        state.total_staked - amount
    } else {
        0
    };
    Ok(TransferInstruction {
        from: state.vault,
        to: user_token_account,
        authority: TransferAuthority::Custody(state.bump),
        amount,
    })
}

} // verus!
