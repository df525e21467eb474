use vstd::prelude::*;

verus! {

/// Validation failures of the lifecycle operations. All are caller-visible
/// and non-retryable: the caller must change the condition (wait for the
/// window, wait for the lock, use the owner identity) and reissue. Every
/// failing operation leaves the pool state and the stake record unchanged.
#[derive(Clone, Copy, PartialEq, Eq, Structural, Debug)]
pub enum CustomError {
    /// `stake` was called before the pool's staking window opened.
    StakingNotStarted,
    /// `stake` was called after the pool's staking window closed.
    StakingEnded,
    /// `stake` was called while the caller's record already holds an
    /// active stake.
    AlreadyStaked,
    /// `claim_rewards` was called when no newly accrued reward exists.
    NoRewardsAvailable,
    /// `unstake` was called before the record's lock period elapsed.
    LockPeriodNotOver,
    /// `update_stake` was called by an identity other than the pool owner.
    Unauthorized,
}

impl CustomError {
    /// A short, stable description of the failure, for host diagnostics.
    pub fn describe(&self) -> String {
        match self {
            CustomError::StakingNotStarted => "The staking period has not started yet.".to_string(),
            CustomError::StakingEnded => "The staking period has ended.".to_string(),
            CustomError::AlreadyStaked => "The user already has an active stake.".to_string(),
            CustomError::NoRewardsAvailable => "No rewards are available to claim.".to_string(),
            CustomError::LockPeriodNotOver => "The lock period has not yet ended.".to_string(),
            CustomError::Unauthorized => "Only the pool owner may reconfigure the pool.".to_string(),
        }
    }
}

} // verus!
