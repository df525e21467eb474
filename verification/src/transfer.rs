use vstd::prelude::*;
use crate::accounts::{AccountId, CustodyAuthority};

verus! {

/// Who authorizes a transfer towards the token-transfer service.
#[derive(Clone, Copy, PartialEq, Eq, Structural, Debug)]
pub enum TransferAuthority {
    /// An external caller's own signature over their own account.
    User(AccountId),
    /// The pool's custody credential, for transfers out of the vault.
    Custody(CustodyAuthority),
}

/// One token movement the host's transfer service must carry out. Each
/// lifecycle operation issues at most one of these, and the host must
/// treat the transfer and the record mutation of the same operation as
/// joint: if the transfer fails, the mutated state must not be committed.
#[derive(Clone, Copy, PartialEq, Eq, Structural, Debug)]
pub struct TransferInstruction {
    /// Account debited.
    pub from: AccountId,
    /// Account credited.
    pub to: AccountId,
    /// The authority under which the debit is made.
    pub authority: TransferAuthority,
    /// Number of tokens moved.
    pub amount: u64,
}

} // verus!
