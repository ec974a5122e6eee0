//! The operations. Each one that needs the token ledger is decided in two
//! steps: the first step checks the request and gives the call to make, the
//! second takes the ledger's answer to that call and settles the request. The
//! host applies both steps of a request together or not at all.

use vstd::prelude::*;

use crate::accounts::Airdrop;
use crate::accounts::InitializeMint;
use crate::accounts::Staking;
use crate::cpi::AccountName;
use crate::cpi::CpiContext;
use crate::cpi::MintTo;
use crate::cpi::Transfer;
use crate::errors::LedgerError;
use crate::errors::ProgramErrors;
use crate::ledger::create_account;
use crate::ledger::Mint;
use crate::ledger::TokenAccount;

verus! {

/// The one-time setup: creates the mint under the mint authority, with no
/// supply, and the empty escrow account under the staking authority. Where
/// either exists already the setup is rejected with `SetupConflict` and what
/// exists stays as it is.
pub fn initialize_mint(ctx: &mut InitializeMint, decimals: u8) -> (r: Result<(), ProgramErrors>)
    ensures
        r is Ok <==> old(ctx).token_mint is None && old(ctx).staking_token_account is None,
        r is Ok ==> *final(ctx) == (InitializeMint {
            token_mint: Some(
                Mint { decimals, authority: old(ctx).mint_authority@.address, supply: 0 },
            ),
            staking_token_account: Some(
                TokenAccount { owner: old(ctx).staking_authority@.address, amount: 0 },
            ),
            ..*old(ctx)
        }),
        r is Err ==> r == Err::<(), ProgramErrors>(ProgramErrors::SetupConflict) && *final(ctx)
            == *old(ctx),
{
    if ctx.token_mint.is_some() || ctx.staking_token_account.is_some() {
        return Err(ProgramErrors::SetupConflict);
    }
    ctx.token_mint = Some(Mint { decimals, authority: ctx.mint_authority.address(), supply: 0 });
    ctx.staking_token_account = Some(create_account(ctx.staking_authority.address()));
    Ok(())
}

/// The call that an airdrop makes: a mint into the user's token account under
/// the mint authority, which signs it.
pub open spec fn airdrop_call(ctx: Airdrop) -> CpiContext<MintTo> {
    CpiContext {
        accounts: MintTo {
            mint: AccountName::TokenMint,
            to: AccountName::UserTokenAccount,
            authority: AccountName::MintAuthority,
        },
        signer: Some(ctx.mint_authority),
    }
}

/// The call that a stake makes: a transfer from the user's token account into
/// the escrow account under the user, who owns the tokens. No derived authority
/// signs it.
pub open spec fn stake_call(ctx: Staking) -> CpiContext<Transfer> {
    CpiContext {
        accounts: Transfer {
            from: AccountName::UserTokenAccount,
            to: AccountName::StakingTokenAccount,
            authority: AccountName::User,
        },
        signer: None,
    }
}

/// The call that an unstake makes: a transfer from the escrow account to the
/// user's token account under the staking authority, which owns the escrow
/// account and signs the call.
pub open spec fn unstake_call(ctx: Staking) -> CpiContext<Transfer> {
    CpiContext {
        accounts: Transfer {
            from: AccountName::StakingTokenAccount,
            to: AccountName::UserTokenAccount,
            authority: AccountName::StakingAuthority,
        },
        signer: Some(ctx.staking_authority),
    }
}

/// Starts an airdrop: gives the call that mints into the user's token account,
/// signed by the mint authority. Any amount is accepted; the ledger decides.
pub fn airdrop(ctx: &Airdrop, amount: u64) -> (cpi: CpiContext<MintTo>)
    ensures
        cpi == airdrop_call(*ctx),
{
    ctx.mint_to_ctx().with_signer(ctx.mint_authority)
}

/// Ends an airdrop with the ledger's answer to the mint: the airdrop succeeds
/// exactly when the mint did, and reports the ledger's refusal otherwise.
pub fn settle_airdrop(outcome: Result<(), LedgerError>) -> (r: Result<(), ProgramErrors>)
    ensures
        r == (match outcome {
            Ok(()) => Ok::<(), ProgramErrors>(()),
            Err(e) => Err(ProgramErrors::LedgerOperationFailed(e)),
        }),
{
    match outcome {
        Ok(()) => Ok(()),
        Err(e) => Err(ProgramErrors::LedgerOperationFailed(e)),
    }
}

/// Starts a stake: rejects it with `InsufficientBalance` where the user's token
/// account holds less than `amount`, and gives the transfer from the user into
/// escrow otherwise. The user is the transfer's authority and no derived
/// authority signs it.
pub fn stake(ctx: &Staking, amount: u64) -> (r: Result<CpiContext<Transfer>, ProgramErrors>)
    ensures
        match r {
            Ok(cpi) => ctx.user_token_account.amount >= amount && cpi == stake_call(*ctx),
            Err(e) => e == ProgramErrors::InsufficientBalance && ctx.user_token_account.amount
                < amount,
        },
{
    if ctx.user_token_account.amount < amount {
        return Err(ProgramErrors::InsufficientBalance);
    }
    Ok(ctx.transfer_to_vault_ctx())
}

/// Ends a stake with the ledger's answer to the transfer. A refused transfer
/// fails the stake; after a transfer that was made, the user's entry grows by
/// `amount`, or the stake fails with `ArithmeticOverflow` where the entry cannot
/// hold the sum. A failed stake leaves the entry as it was.
pub fn settle_stake(ctx: &mut Staking, amount: u64, outcome: Result<(), LedgerError>) -> (r: Result<
    (),
    ProgramErrors,
>)
    ensures
        match r {
            Ok(()) => {
                &&& outcome is Ok
                &&& old(ctx).user_stake.amount + amount <= u64::MAX
                &&& *final(ctx) == old(ctx).entry_grown(amount)
            },
            Err(e) => {
                &&& *final(ctx) == *old(ctx)
                &&& match outcome {
                    Err(refusal) => e == ProgramErrors::LedgerOperationFailed(refusal),
                    Ok(()) => e == ProgramErrors::ArithmeticOverflow && old(ctx).user_stake.amount
                        + amount > u64::MAX,
                }
            },
        },
{
    if let Err(refusal) = outcome {
        return Err(ProgramErrors::LedgerOperationFailed(refusal));
    }
    match ctx.user_stake.amount.checked_add(amount) {
        Some(sum) => {
            ctx.user_stake.amount = sum;
            Ok(())
        },
        None => Err(ProgramErrors::ArithmeticOverflow),
    }
}

/// Starts an unstake: rejects it with `ExcessiveUnstake` where the user has
/// staked less than `amount`, and gives the transfer from escrow to the user
/// otherwise, signed by the staking authority, which owns the escrow.
pub fn unstake(ctx: &Staking, amount: u64) -> (r: Result<CpiContext<Transfer>, ProgramErrors>)
    ensures
        match r {
            Ok(cpi) => ctx.user_stake.amount >= amount && cpi == unstake_call(*ctx),
            Err(e) => e == ProgramErrors::ExcessiveUnstake && ctx.user_stake.amount < amount,
        },
{
    if ctx.user_stake.amount < amount {
        return Err(ProgramErrors::ExcessiveUnstake);
    }
    Ok(ctx.transfer_to_user_ctx().with_signer(ctx.staking_authority))
}

/// Ends an unstake with the ledger's answer to the transfer. A refused
/// transfer fails the unstake; after a transfer that was made, the user's entry
/// shrinks by `amount`, or the unstake fails with `ArithmeticUnderflow` where the
/// entry holds less. A failed unstake leaves the entry as it was.
pub fn settle_unstake(ctx: &mut Staking, amount: u64, outcome: Result<(), LedgerError>) -> (r:
    Result<(), ProgramErrors>)
    ensures
        match r {
            Ok(()) => {
                &&& outcome is Ok
                &&& old(ctx).user_stake.amount >= amount
                &&& *final(ctx) == old(ctx).entry_shrunk(amount)
            },
            Err(e) => {
                &&& *final(ctx) == *old(ctx)
                &&& match outcome {
                    Err(refusal) => e == ProgramErrors::LedgerOperationFailed(refusal),
                    Ok(()) => e == ProgramErrors::ArithmeticUnderflow && old(ctx).user_stake.amount
                        < amount,
                }
            },
        },
{
    if let Err(refusal) = outcome {
        return Err(ProgramErrors::LedgerOperationFailed(refusal));
    }
    match ctx.user_stake.amount.checked_sub(amount) {
        Some(rest) => {
            ctx.user_stake.amount = rest;
            Ok(())
        },
        None => Err(ProgramErrors::ArithmeticUnderflow),
    }
}

} // verus!
