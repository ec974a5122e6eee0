//! The accounts that each operation works on, as plain values, and the calls to
//! the token ledger that can be made on them.

use vstd::prelude::*;

use crate::address::Address;
use crate::authority::Authority;
use crate::cpi::AccountName;
use crate::cpi::CpiContext;
use crate::cpi::MintTo;
use crate::cpi::Transfer;
use crate::errors::LedgerError;
use crate::ledger::mint_to;
use crate::ledger::mint_to_outcome;
use crate::ledger::transfer;
use crate::ledger::transfer_outcome;
use crate::ledger::Mint;
use crate::ledger::TokenAccount;

verus! {

/// A user's entry in the stake ledger: how many tokens the user has staked now.
#[derive(Clone, Copy, Debug, PartialEq, Eq, Structural)]
pub struct Stake {
    pub amount: u64,
}

/// The accounts of the one-time setup. `token_mint` and `staking_token_account`
/// hold what exists at their places before the setup, `None` where nothing does.
#[derive(Clone, Copy, Debug)]
pub struct InitializeMint {
    pub token_mint: Option<Mint>,
    pub mint_authority: Authority,
    pub staking_authority: Authority,
    pub staking_token_account: Option<TokenAccount>,
    pub payer: Address,
}

/// The accounts of an airdrop.
#[derive(Clone, Copy, Debug)]
pub struct Airdrop {
    pub token_mint: Mint,
    pub mint_authority: Authority,
    pub user: Address,
    pub user_token_account: TokenAccount,
}

/// The accounts of a stake or an unstake.
#[derive(Clone, Copy, Debug)]
pub struct Staking {
    pub token_mint: Mint,
    pub staking_authority: Authority,
    pub staking_token_account: TokenAccount,
    pub user: Address,
    pub user_token_account: TokenAccount,
    pub user_stake: Stake,
}

/// The identity that validly signs a call as the named account, if any: the
/// user signs a request by making it; a derived authority signs only through
/// the [`Authority`] attached to the call, which must be the expected one.
pub open spec fn signer_of(
    name: AccountName,
    user: Address,
    derived_name: AccountName,
    derived: Authority,
    signer: Option<Authority>,
) -> Option<Address> {
    if name == AccountName::User {
        Some(user)
    } else if name == derived_name && signer == Some(derived) {
        Some(derived@.address)
    } else {
        None
    }
}

/// Computes [`signer_of`].
fn signing_identity(
    name: AccountName,
    user: &Address,
    derived_name: AccountName,
    derived: &Authority,
    signer: &Option<Authority>,
) -> (r: Option<Address>)
    ensures
        r == signer_of(name, *user, derived_name, *derived, *signer),
{
    if name == AccountName::User {
        Some(*user)
    } else if name == derived_name {
        match signer {
            Some(a) => {
                if a.same(derived) {
                    Some(derived.address())
                } else {
                    None
                }
            },
            None => None,
        }
    } else {
        None
    }
}

impl Airdrop {
    /// The call that mints into the user's token account under the mint
    /// authority. It is not signed yet.
    pub fn mint_to_ctx(&self) -> (cpi: CpiContext<MintTo>)
        ensures
            cpi.accounts == (MintTo {
                mint: AccountName::TokenMint,
                to: AccountName::UserTokenAccount,
                authority: AccountName::MintAuthority,
            }),
            cpi.signer is None,
    {
        let cpi_accounts = MintTo {
            mint: AccountName::TokenMint,
            to: AccountName::UserTokenAccount,
            authority: AccountName::MintAuthority,
        };
        CpiContext::new(cpi_accounts)
    }

    /// What the ledger answers when the call is made on these accounts.
    pub open spec fn call_outcome(self, cpi: CpiContext<MintTo>, amount: u64) -> Result<
        (),
        LedgerError,
    > {
        if cpi.accounts.mint != AccountName::TokenMint || cpi.accounts.to
            != AccountName::UserTokenAccount {
            Err(LedgerError::AccountNotFound)
        } else {
            match signer_of(
                cpi.accounts.authority,
                self.user,
                AccountName::MintAuthority,
                self.mint_authority,
                cpi.signer,
            ) {
                None => Err(LedgerError::MissingSignature),
                Some(authority) => mint_to_outcome(
                    self.token_mint,
                    self.user_token_account,
                    authority,
                    amount,
                ),
            }
        }
    }

    /// These accounts after `amount` new tokens have reached the user.
    pub open spec fn minted(self, amount: u64) -> Airdrop {
        Airdrop {
            token_mint: Mint { supply: (self.token_mint.supply + amount) as u64, ..self.token_mint },
            user_token_account: TokenAccount {
                amount: (self.user_token_account.amount + amount) as u64,
                ..self.user_token_account
            },
            ..self
        }
    }

    /// Carries the call out on the records that these accounts hold, as the
    /// token ledger would. A refused call changes nothing.
    pub fn perform(&mut self, cpi: &CpiContext<MintTo>, amount: u64) -> (r: Result<(), LedgerError>)
        ensures
            r == old(self).call_outcome(*cpi, amount),
            r is Ok ==> *final(self) == old(self).minted(amount),
            r is Err ==> *final(self) == *old(self),
    {
        if cpi.accounts.mint != AccountName::TokenMint || cpi.accounts.to
            != AccountName::UserTokenAccount {
            return Err(LedgerError::AccountNotFound);
        }
        let authority = match signing_identity(
            cpi.accounts.authority,
            &self.user,
            AccountName::MintAuthority,
            &self.mint_authority,
            &cpi.signer,
        ) {
            Some(a) => a,
            None => {
                return Err(LedgerError::MissingSignature);
            },
        };
        mint_to(&mut self.token_mint, &mut self.user_token_account, &authority, amount)
    }
}

impl Staking {
    /// The call that moves tokens from the user's account into the escrow
    /// account. The user owns the tokens, so the user is its authority.
    pub fn transfer_to_vault_ctx(&self) -> (cpi: CpiContext<Transfer>)
        ensures
            cpi.accounts == (Transfer {
                from: AccountName::UserTokenAccount,
                to: AccountName::StakingTokenAccount,
                authority: AccountName::User,
            }),
            cpi.signer is None,
    {
        let cpi_accounts = Transfer {
            from: AccountName::UserTokenAccount,
            to: AccountName::StakingTokenAccount,
            authority: AccountName::User,
        };
        CpiContext::new(cpi_accounts)
    }

    /// The call that moves tokens from the escrow account back to the user's
    /// account under the staking authority. It is not signed yet.
    pub fn transfer_to_user_ctx(&self) -> (cpi: CpiContext<Transfer>)
        ensures
            cpi.accounts == (Transfer {
                from: AccountName::StakingTokenAccount,
                to: AccountName::UserTokenAccount,
                authority: AccountName::StakingAuthority,
            }),
            cpi.signer is None,
    {
        let cpi_accounts = Transfer {
            from: AccountName::StakingTokenAccount,
            to: AccountName::UserTokenAccount,
            authority: AccountName::StakingAuthority,
        };
        CpiContext::new(cpi_accounts)
    }

    /// The call moves tokens from the user's account into the escrow account.
    pub open spec fn to_vault(cpi: CpiContext<Transfer>) -> bool {
        cpi.accounts.from == AccountName::UserTokenAccount && cpi.accounts.to
            == AccountName::StakingTokenAccount
    }

    /// The call moves tokens from the escrow account to the user's account.
    pub open spec fn to_user(cpi: CpiContext<Transfer>) -> bool {
        cpi.accounts.from == AccountName::StakingTokenAccount && cpi.accounts.to
            == AccountName::UserTokenAccount
    }

    /// What the ledger answers when the call is made on these accounts.
    pub open spec fn call_outcome(self, cpi: CpiContext<Transfer>, amount: u64) -> Result<
        (),
        LedgerError,
    > {
        if !Self::to_vault(cpi) && !Self::to_user(cpi) {
            Err(LedgerError::AccountNotFound)
        } else {
            match signer_of(
                cpi.accounts.authority,
                self.user,
                AccountName::StakingAuthority,
                self.staking_authority,
                cpi.signer,
            ) {
                None => Err(LedgerError::MissingSignature),
                Some(authority) => if Self::to_vault(cpi) {
                    transfer_outcome(
                        self.user_token_account,
                        self.staking_token_account,
                        authority,
                        amount,
                    )
                } else {
                    transfer_outcome(
                        self.staking_token_account,
                        self.user_token_account,
                        authority,
                        amount,
                    )
                },
            }
        }
    }

    /// These accounts after `amount` tokens have moved from the user into escrow.
    pub open spec fn moved_to_vault(self, amount: u64) -> Staking {
        Staking {
            user_token_account: TokenAccount {
                amount: (self.user_token_account.amount - amount) as u64,
                ..self.user_token_account
            },
            staking_token_account: TokenAccount {
                amount: (self.staking_token_account.amount + amount) as u64,
                ..self.staking_token_account
            },
            ..self
        }
    }

    /// These accounts after `amount` tokens have moved from escrow to the user.
    pub open spec fn moved_to_user(self, amount: u64) -> Staking {
        Staking {
            user_token_account: TokenAccount {
                amount: (self.user_token_account.amount + amount) as u64,
                ..self.user_token_account
            },
            staking_token_account: TokenAccount {
                amount: (self.staking_token_account.amount - amount) as u64,
                ..self.staking_token_account
            },
            ..self
        }
    }

    /// These accounts after `amount` has been added to the user's ledger entry.
    pub open spec fn entry_grown(self, amount: u64) -> Staking {
        Staking { user_stake: Stake { amount: (self.user_stake.amount + amount) as u64 }, ..self }
    }

    /// These accounts after `amount` has been taken from the user's ledger
    /// entry.
    pub open spec fn entry_shrunk(self, amount: u64) -> Staking {
        Staking { user_stake: Stake { amount: (self.user_stake.amount - amount) as u64 }, ..self }
    }

    /// Carries the call out on the records that these accounts hold, as the
    /// token ledger would. A refused call changes nothing.
    pub fn perform(&mut self, cpi: &CpiContext<Transfer>, amount: u64) -> (r: Result<
        (),
        LedgerError,
    >)
        ensures
            r == old(self).call_outcome(*cpi, amount),
            r is Ok ==> *final(self) == (if Self::to_vault(*cpi) {
                old(self).moved_to_vault(amount)
            } else {
                old(self).moved_to_user(amount)
            }),
            r is Err ==> *final(self) == *old(self),
    {
        let into_vault = cpi.accounts.from == AccountName::UserTokenAccount && cpi.accounts.to
            == AccountName::StakingTokenAccount;
        let into_user = cpi.accounts.from == AccountName::StakingTokenAccount && cpi.accounts.to
            == AccountName::UserTokenAccount;
        if !into_vault && !into_user {
            return Err(LedgerError::AccountNotFound);
        }
        let authority = match signing_identity(
            cpi.accounts.authority,
            &self.user,
            AccountName::StakingAuthority,
            &self.staking_authority,
            &cpi.signer,
        ) {
            Some(a) => a,
            None => {
                return Err(LedgerError::MissingSignature);
            },
        };
        if into_vault {
            transfer(&mut self.user_token_account, &mut self.staking_token_account, &authority, amount)
        } else {
            transfer(&mut self.staking_token_account, &mut self.user_token_account, &authority, amount)
        }
    }
}

} // verus!
