//! The reasons for which an operation or a call to the token ledger fails.

use vstd::prelude::*;

verus! {

/// Why the token ledger refused a call.
#[derive(Clone, Copy, Debug, PartialEq, Eq, Structural)]
pub enum LedgerError {
    /// An account that the call names does not exist.
    AccountNotFound,
    /// The authority of the call is not the one that the account obeys.
    OwnerMismatch,
    /// The authority of the call did not sign it.
    MissingSignature,
    /// The source account holds less than the amount.
    InsufficientFunds,
    /// A balance or the supply would exceed the largest amount.
    Overflow,
    /// Any other refusal.
    Rejected,
}

/// Why an operation was rejected. A rejected operation changes nothing.
#[derive(Clone, Copy, Debug, PartialEq, Eq, Structural)]
pub enum ProgramErrors {
    /// Stake asked for more than the user's liquid balance.
    InsufficientBalance,
    /// Unstake asked for more than the user has staked.
    ExcessiveUnstake,
    /// The token ledger refused the mint or the transfer.
    LedgerOperationFailed(LedgerError),
    /// A staked amount would exceed the largest amount.
    ArithmeticOverflow,
    /// A staked amount would fall below zero.
    ArithmeticUnderflow,
    /// The mint has been set up before.
    SetupConflict,
}

} // verus!
