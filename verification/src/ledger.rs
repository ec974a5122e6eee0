//! The records of the token ledger and what the ledger does to them.
//!
//! The ledger is a service outside the program: the program names the calls
//! and its host makes them. These functions state what that service does to
//! the records that a call touches, and let a pool in memory carry the calls
//! out itself.

use vstd::prelude::*;

use crate::address::Address;
use crate::errors::LedgerError;

verus! {

/// The supply record of the token.
#[derive(Clone, Copy, Debug, PartialEq, Eq)]
pub struct Mint {
    /// Number of decimal places of one token, fixed at creation.
    pub decimals: u8,
    /// The only identity that may increase the supply.
    pub authority: Address,
    /// Tokens in existence, in base units.
    pub supply: u64,
}

/// An account that holds tokens for its owner.
#[derive(Clone, Copy, Debug, PartialEq, Eq)]
pub struct TokenAccount {
    /// The identity that may move tokens out of the account.
    pub owner: Address,
    /// Tokens held, in base units.
    pub amount: u64,
}

/// What the ledger answers to a call that mints `amount` into `to`.
pub open spec fn mint_to_outcome(mint: Mint, to: TokenAccount, authority: Address, amount: u64) -> Result<
    (),
    LedgerError,
> {
    if mint.authority != authority {
        Err(LedgerError::OwnerMismatch)
    } else if mint.supply + amount > u64::MAX || to.amount + amount > u64::MAX {
        Err(LedgerError::Overflow)
    } else {
        Ok(())
    }
}

/// What the ledger answers to a call that moves `amount` from `from` to `to`.
pub open spec fn transfer_outcome(
    from: TokenAccount,
    to: TokenAccount,
    authority: Address,
    amount: u64,
) -> Result<(), LedgerError> {
    if from.owner != authority {
        Err(LedgerError::OwnerMismatch)
    } else if from.amount < amount {
        Err(LedgerError::InsufficientFunds)
    } else if to.amount + amount > u64::MAX {
        Err(LedgerError::Overflow)
    } else {
        Ok(())
    }
}

/// A new, empty account of the owner.
pub fn create_account(owner: Address) -> (account: TokenAccount)
    ensures
        account == (TokenAccount { owner, amount: 0 }),
{
    TokenAccount { owner, amount: 0 }
}

/// The tokens that the account holds.
pub fn balance_of(account: &TokenAccount) -> (amount: u64)
    ensures
        amount == account.amount,
{
    account.amount
}

/// Creates `amount` new tokens in `to`. Only the mint's authority may do so, and
/// neither the supply nor the balance may exceed the largest amount. A refused
/// call changes nothing.
pub fn mint_to(mint: &mut Mint, to: &mut TokenAccount, authority: &Address, amount: u64) -> (r:
    Result<(), LedgerError>)
    ensures
        r == mint_to_outcome(*old(mint), *old(to), *authority, amount),
        r is Ok ==> *final(mint) == (Mint {
            supply: (old(mint).supply + amount) as u64,
            ..*old(mint)
        }) && *final(to) == (TokenAccount { amount: (old(to).amount + amount) as u64, ..*old(to) }),
        r is Err ==> *final(mint) == *old(mint) && *final(to) == *old(to),
{
    if mint.authority != *authority {
        return Err(LedgerError::OwnerMismatch);
    }
    let supply = match mint.supply.checked_add(amount) {
        Some(s) => s,
        None => {
            return Err(LedgerError::Overflow);
        },
    };
    let balance = match to.amount.checked_add(amount) {
        Some(b) => b,
        None => {
            return Err(LedgerError::Overflow);
        },
    };
    mint.supply = supply;
    to.amount = balance;
    Ok(())
}

/// Moves `amount` tokens from `from` to `to`. Only the owner of `from` may do so,
/// `from` must hold the amount, and the balance of `to` may not exceed the
/// largest amount. A refused call changes nothing.
pub fn transfer(from: &mut TokenAccount, to: &mut TokenAccount, authority: &Address, amount: u64) -> (r:
    Result<(), LedgerError>)
    ensures
        r == transfer_outcome(*old(from), *old(to), *authority, amount),
        r is Ok ==> *final(from) == (TokenAccount {
            amount: (old(from).amount - amount) as u64,
            ..*old(from)
        }) && *final(to) == (TokenAccount { amount: (old(to).amount + amount) as u64, ..*old(to) }),
        r is Err ==> *final(from) == *old(from) && *final(to) == *old(to),
{
    if from.owner != *authority {
        return Err(LedgerError::OwnerMismatch);
    }
    let rest = match from.amount.checked_sub(amount) {
        Some(x) => x,
        None => {
            return Err(LedgerError::InsufficientFunds);
        },
    };
    let balance = match to.amount.checked_add(amount) {
        Some(b) => b,
        None => {
            return Err(LedgerError::Overflow);
        },
    };
    from.amount = rest;
    to.amount = balance;
    Ok(())
}

} // verus!
