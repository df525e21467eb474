use vstd::prelude::*;

verus! {

/// Identifier of an account in the host environment: a user identity, a
/// token account, or the staked asset itself. The host keys its account
/// store by these values; the ledger only compares them and copies them
/// into transfer instructions.
#[derive(Clone, Copy, PartialEq, Eq, Structural, Debug)]
pub struct AccountId {
    /// The host-assigned key of the account.
    pub id: u64,
}

/// Credential that authorizes transfers out of the custody vault. It is
/// created once, together with the pool state, and the ledger presents it
/// to the token-transfer service for every outbound transfer. It is never
/// handed to external callers.
#[derive(Clone, Copy, PartialEq, Eq, Structural, Debug)]
pub struct CustodyAuthority {
    /// Derivation seed binding the credential to the pool state.
    pub seed: u8,
}

/// Global pool configuration: a singleton created once by
/// [`crate::ledger::initialize_state`] and reconfigured only by its owner.
#[derive(Clone, Copy, PartialEq, Eq, Structural, Debug)]
pub struct State {
    /// Identity allowed to reconfigure the pool. Immutable after creation.
    pub owner: AccountId,
    /// The fungible asset being staked.
    pub token_mint: AccountId,
    /// The custody account holding staked principal and reward funding.
    pub vault: AccountId,
    /// Earliest time at which a new stake may open.
    pub start_time: i64,
    /// Latest time at which a new stake may open.
    pub end_time: i64,
    /// Seconds a stake opened now must remain locked.
    pub lock_duration: i64,
    /// Annual reward rate in whole percentage points.
    pub apy: u64,
    /// Informational running sum of open stake principals, clamped to the
    /// bounds of `u64`. Nothing else relies on it.
    pub total_staked: u64,
    /// The custody credential bound to this pool.
    pub bump: CustodyAuthority,
}

impl State {
    /// The staking window is well-formed: it opens no later than it closes.
    pub open spec fn wf(self) -> bool {
        self.start_time <= self.end_time
    }
}

/// Per-user stake record, created lazily by the host on a user's first
/// stake and reused — never deleted — across stake cycles.
/// `amount_staked == 0` marks the record as empty; every other field is
/// then meaningless until the next stake overwrites it.
#[derive(Clone, Copy, PartialEq, Eq, Structural, Debug)]
pub struct UserStakeAccount {
    /// The user identity this record belongs to.
    pub user: AccountId,
    /// Principal currently locked; `0` means no active stake.
    pub amount_staked: u64,
    /// Time the current stake opened.
    pub start_time: i64,
    /// Snapshot of the pool's lock duration at stake time, so a later
    /// reconfiguration cannot retroactively extend an open stake.
    pub lock_duration: i64,
    /// Snapshot of the pool's annual rate at stake time, frozen for the
    /// same reason as the lock duration.
    pub apy: u64,
    /// Reward already paid out for the current stake cycle; reset to `0`
    /// when the stake closes.
    pub reward_claimed: u64,
}

impl UserStakeAccount {
    /// The record holds no active stake.
    pub open spec fn is_empty(self) -> bool {
        self.amount_staked == 0
    }

    /// A fresh, empty record for `user`, the state the host creates on a
    /// user's first stake and the state every unstake returns to.
    pub fn new(user: AccountId) -> (r: UserStakeAccount)
        ensures
            r.user == user,
            r.is_empty(),
            r.reward_claimed == 0,
    {
        UserStakeAccount {
            user,
            amount_staked: 0,
            start_time: 0,
            lock_duration: 0,
            apy: 0,
            reward_claimed: 0,
        }
    }
}

} // verus!
