//! A token-staking ledger: users lock a fungible asset for a configured
//! duration and accrue time-proportional rewards at a fixed annual rate,
//! paid from a pre-funded custody vault.
//!
//! This crate is the accounting core alone. It decides, for every lifecycle
//! operation, whether the operation is allowed, how the pool state and the
//! caller's stake record change, and which single token transfer has to be
//! carried out. Reading the clock, storing accounts and moving the tokens
//! are the host's work: each operation here takes the current time as an
//! argument and returns the transfer it wants as a plain instruction value.
//!
//! The vault is funded once, with a fixed amount, when the pool is
//! created, and the ledger keeps no pool-wide liability total. That is a
//! deliberate choice: a claim or an unstake can therefore still fail at
//! the transfer step when aggregate payouts have exhausted the custody
//! funds, for reasons unrelated to the caller's own record. The host must
//! then discard the staged record mutation, as each operation's contract
//! notes.

/// Pool state, per-user stake records, and the identifiers they hold.
pub mod accounts;
/// The error taxonomy of the lifecycle operations.
pub mod errors;
/// Properties that relate several lifecycle operations.
pub mod laws;
/// The five lifecycle operations of the staking ledger.
pub mod ledger;
/// The reward-accrual formula.
pub mod rewards;
/// Transfer instructions handed to the host's token-transfer service.
pub mod transfer;
