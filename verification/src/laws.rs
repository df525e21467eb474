use vstd::prelude::*;
use crate::accounts::{AccountId, State, UserStakeAccount};
use crate::errors::CustomError;
use crate::ledger::{claim_spec, stake_spec, unstake_spec, update_spec};
use crate::rewards::reward_of;

verus! {

/// No double stake: while a record holds an active stake, a further
/// `stake` call is rejected and mutates neither the pool state nor the
/// record; inside the staking window the rejection is `AlreadyStaked`
/// (outside it, the window check rejects the call first).
pub proof fn lemma_no_double_stake(
    state: State,
    record: UserStakeAccount,
    user: AccountId,
    user_token_account: AccountId,
    amount: u64,
    now: i64,
)
    requires
        record.amount_staked != 0,
    ensures
        ({
            let (s2, r2, res) = stake_spec(state, record, user, user_token_account, amount, now);
            &&& s2 == state
            &&& r2 == record
            &&& res.is_err()
            &&& (state.start_time <= now <= state.end_time ==> res == Err::<
                crate::transfer::TransferInstruction,
                CustomError,
            >(CustomError::AlreadyStaked))
        }),
{
}

/// Claim idempotence: when a claim succeeds and pays the accrued total
/// out, an immediate second claim at the same instant finds nothing newly
/// accrued, fails with `NoRewardsAvailable`, and changes nothing. The
/// bound on the accrued total is the one under which `claim_rewards` may
/// be called at all.
pub proof fn lemma_claim_idempotent(
    state: State,
    record: UserStakeAccount,
    user_token_account: AccountId,
    now: i64,
)
    requires
        reward_of(record.amount_staked, record.apy, now - record.start_time) <= u64::MAX,
    ensures
        ({
            let (r1, res1) = claim_spec(state, record, user_token_account, now);
            let (r2, res2) = claim_spec(state, r1, user_token_account, now);
            res1.is_ok() ==> {
                &&& r2 == r1
                &&& res2 == Err::<crate::transfer::TransferInstruction, CustomError>(
                    CustomError::NoRewardsAvailable,
                )
            }
        }),
{
}

/// A claim is a self-loop: whatever the outcome, it can change nothing of
/// the record but `reward_claimed` — the stake itself, its timing and its
/// snapshots survive every claim — and a failing claim changes nothing at
/// all.
pub proof fn lemma_claim_is_a_self_loop(
    state: State,
    record: UserStakeAccount,
    user_token_account: AccountId,
    now: i64,
)
    ensures
        ({
            let (r1, res) = claim_spec(state, record, user_token_account, now);
            &&& r1.user == record.user
            &&& r1.amount_staked == record.amount_staked
            &&& r1.start_time == record.start_time
            &&& r1.lock_duration == record.lock_duration
            &&& r1.apy == record.apy
            &&& (res.is_err() ==> r1 == record)
        }),
{
}

/// Lock enforcement: `unstake` strictly before `start_time +
/// lock_duration` is rejected with `LockPeriodNotOver` and changes
/// nothing; from that instant on it succeeds, returns the whole
/// principal, and resets the record to its empty form.
pub proof fn lemma_lock_enforcement(
    state: State,
    record: UserStakeAccount,
    user_token_account: AccountId,
    now: i64,
)
    ensures
        ({
            let (s2, r2, res) = unstake_spec(state, record, user_token_account, now);
            &&& (now < record.start_time + record.lock_duration ==> {
                &&& s2 == state
                &&& r2 == record
                &&& res == Err::<crate::transfer::TransferInstruction, CustomError>(
                    CustomError::LockPeriodNotOver,
                )
            })
            &&& (now >= record.start_time + record.lock_duration ==> {
                &&& res.is_ok()
                &&& res.unwrap().amount == record.amount_staked
                &&& r2.amount_staked == 0
                &&& r2.reward_claimed == 0
                &&& r2.user == record.user
            })
        }),
{
}

/// Reuse after unstake: once a stake is closed, the record is back in the
/// empty state that `stake` demands, so the same user can stake again —
/// and the new stake succeeds whenever its time lies in the pool's
/// staking window.
pub proof fn lemma_restake_after_unstake(
    state: State,
    record: UserStakeAccount,
    user: AccountId,
    user_token_account: AccountId,
    amount: u64,
    now: i64,
    later: i64,
)
    requires
        now >= record.start_time + record.lock_duration,
    ensures
        ({
            let (s1, r1, res1) = unstake_spec(state, record, user_token_account, now);
            let (s2, r2, res2) = stake_spec(s1, r1, user, user_token_account, amount, later);
            &&& res1.is_ok()
            &&& r1.is_empty()
            &&& (s1.start_time <= later <= s1.end_time ==> {
                &&& res2.is_ok()
                &&& r2.amount_staked == amount
                &&& r2.user == user
                &&& r2.start_time == later
                &&& r2.reward_claimed == 0
            })
        }),
{
}

/// Owner-only reconfiguration: `update_stake` from any identity other
/// than the pool owner fails with `Unauthorized` and leaves the pool
/// state exactly as it was.
pub proof fn lemma_update_owner_only(
    state: State,
    caller: AccountId,
    start_time: i64,
    end_time: i64,
    lock_duration: i64,
    apy: u64,
)
    requires
        caller != state.owner,
    ensures
        ({
            let (s2, res) = update_spec(state, caller, start_time, end_time, lock_duration, apy);
            &&& s2 == state
            &&& res == Err::<(), CustomError>(CustomError::Unauthorized)
        }),
{
}

/// What an owner's reconfiguration can never touch: the owner identity,
/// the staked asset, the vault, the custody credential and the aggregate
/// survive every `update_stake` call, authorized or not.
pub proof fn lemma_update_preserves_identity(
    state: State,
    caller: AccountId,
    start_time: i64,
    end_time: i64,
    lock_duration: i64,
    apy: u64,
)
    ensures
        ({
            let (s2, res) = update_spec(state, caller, start_time, end_time, lock_duration, apy);
            &&& s2.owner == state.owner
            &&& s2.token_mint == state.token_mint
            &&& s2.vault == state.vault
            &&& s2.bump == state.bump
            &&& s2.total_staked == state.total_staked
        }),
{
}

/// Snapshot fairness: a reconfiguration between a stake and a later claim
/// has no effect on the claim — the record carries its own snapshot of
/// the rate, so the claim's outcome under the reconfigured pool equals
/// its outcome under the original pool.
pub proof fn lemma_update_cannot_touch_open_stake(
    state: State,
    record: UserStakeAccount,
    caller: AccountId,
    user_token_account: AccountId,
    start_time: i64,
    end_time: i64,
    lock_duration: i64,
    apy: u64,
    now: i64,
)
    ensures
        ({
            let (s2, res) = update_spec(state, caller, start_time, end_time, lock_duration, apy);
            &&& claim_spec(s2, record, user_token_account, now) == claim_spec(
                state,
                record,
                user_token_account,
                now,
            )
            &&& unstake_spec(s2, record, user_token_account, now).1 == unstake_spec(
                state,
                record,
                user_token_account,
                now,
            ).1
            &&& unstake_spec(s2, record, user_token_account, now).2 == unstake_spec(
                state,
                record,
                user_token_account,
                now,
            ).2
        }),
{
}

} // verus!
