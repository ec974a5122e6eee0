//! Calls to the token ledger, described by the accounts that take part and by
//! the derived authority that signs.

use vstd::prelude::*;

use crate::authority::Authority;

verus! {

/// The accounts that an operation can hand to the token ledger, named by the
/// part they play in the operation.
#[derive(Clone, Copy, Debug, PartialEq, Eq, Structural)]
pub enum AccountName {
    /// The supply record of the token.
    TokenMint,
    /// The derived identity that may mint.
    MintAuthority,
    /// The derived identity that owns the escrow account.
    StakingAuthority,
    /// The escrow account that pools all staked tokens.
    StakingTokenAccount,
    /// The user who asked for the operation.
    User,
    /// The user's own token account.
    UserTokenAccount,
}

/// The accounts of a call that creates new tokens.
#[derive(Clone, Copy, Debug, PartialEq, Eq, Structural)]
pub struct MintTo {
    pub mint: AccountName,
    pub to: AccountName,
    pub authority: AccountName,
}

/// The accounts of a call that moves tokens.
#[derive(Clone, Copy, Debug, PartialEq, Eq, Structural)]
pub struct Transfer {
    pub from: AccountName,
    pub to: AccountName,
    pub authority: AccountName,
}

/// A call to the token ledger that is ready to be made: its accounts, and the
/// derived authority that signs it, if one does.
#[derive(Debug)]
pub struct CpiContext<T> {
    pub accounts: T,
    pub signer: Option<Authority>,
}

impl<T> CpiContext<T> {
    /// A call on the accounts that no derived authority signs.
    pub fn new(accounts: T) -> (cpi: Self)
        ensures
            cpi.accounts == accounts,
            cpi.signer is None,
    {
        CpiContext { accounts, signer: None }
    }

    /// The same call, signed by the derived authority.
    pub fn with_signer(self, signer: Authority) -> (cpi: Self)
        ensures
            cpi.accounts == self.accounts,
            cpi.signer == Some(signer),
    {
        CpiContext { accounts: self.accounts, signer: Some(signer) }
    }
}

} // verus!
