//! What holds of the system in every state and for every request.

use vstd::prelude::*;

use crate::accounts::Airdrop;
use crate::accounts::Staking;
use crate::address::Address;
use crate::cpi::AccountName;
use crate::cpi::CpiContext;
use crate::cpi::MintTo;
use crate::cpi::Transfer;
use crate::errors::LedgerError;
use crate::errors::ProgramErrors;
use crate::instructions::airdrop_call;
use crate::instructions::stake_call;
use crate::instructions::unstake_call;
use crate::ledger::mint_to_outcome;
use crate::ledger::transfer_outcome;
use crate::pool::lemma_airdropped_wf;
use crate::pool::lemma_put;
use crate::pool::lemma_put_other;
use crate::pool::lemma_set_up_wf;
use crate::pool::lemma_staked_wf;
use crate::pool::lemma_unstaked_wf;
use crate::pool::lemma_user_bound;
use crate::pool::PoolState;

verus! {

/// A request to the system.
pub enum Operation {
    InitializeMint { decimals: u8 },
    Airdrop { user: Address, amount: u64 },
    Stake { user: Address, amount: u64 },
    Unstake { user: Address, amount: u64 },
}

/// What a request answers in a state: the next state, or the rejection.
pub open spec fn result_of(s: PoolState, op: Operation) -> Result<PoolState, ProgramErrors> {
    match op {
        Operation::InitializeMint { decimals } => s.initialize_mint_result(decimals),
        Operation::Airdrop { user, amount } => s.airdrop_result(user, amount),
        Operation::Stake { user, amount } => s.stake_result(user, amount),
        Operation::Unstake { user, amount } => s.unstake_result(user, amount),
    }
}

/// The state after a request: a rejected request changes nothing.
pub open spec fn apply(s: PoolState, op: Operation) -> PoolState {
    match result_of(s, op) {
        Ok(after) => after,
        Err(_) => s,
    }
}

/// The state after a series of requests, made one after the other.
pub open spec fn run(s: PoolState, ops: Seq<Operation>) -> PoolState
    decreases ops.len(),
{
    if ops.len() == 0 {
        s
    } else {
        apply(run(s, ops.drop_last()), ops.last())
    }
}

/// Every request leads from a valid state to a valid state.
pub proof fn law_requests_keep_validity(s: PoolState, op: Operation)
    requires
        s.wf(),
    ensures
        apply(s, op).wf(),
{
    match op {
        Operation::InitializeMint { decimals } => {
            if s.initialize_mint_result(decimals) is Ok {
                lemma_set_up_wf(s, decimals);
            }
        },
        Operation::Airdrop { user, amount } => {
            if s.airdrop_result(user, amount) is Ok {
                lemma_airdropped_wf(s, user, amount);
            }
        },
        Operation::Stake { user, amount } => {
            if s.stake_result(user, amount) is Ok {
                lemma_staked_wf(s, user, amount);
            }
        },
        Operation::Unstake { user, amount } => {
            if s.unstake_result(user, amount) is Ok {
                lemma_unstaked_wf(s, user, amount);
            }
        },
    }
}

/// Pool conservation: in every state that any series of requests reaches from a
/// fresh pool, the escrow account holds exactly the sum of all users' ledger
/// entries, and every token in existence is either liquid or in escrow.
pub proof fn law_pool_conservation(start: PoolState, ops: Seq<Operation>)
    requires
        start.fresh(),
    ensures
        run(start, ops).wf(),
        run(start, ops).escrow() == run(start, ops).total_staked(),
        run(start, ops).supply() == run(start, ops).escrow() + run(start, ops).total_liquid(),
    decreases ops.len(),
{
    if ops.len() > 0 {
        law_pool_conservation(start, ops.drop_last());
        law_requests_keep_validity(run(start, ops.drop_last()), ops.last());
    }
}

/// What an accepted airdrop does, in whole numbers: the user's liquid balance
/// and the supply grow by the amount; nothing is staked or unstaked by it.
pub proof fn law_airdrop_effect(s: PoolState, user: Address, amount: u64, other: Address)
    requires
        s.wf(),
        s.airdrop_result(user, amount) is Ok,
    ensures
        ({
            let t = s.airdropped(user, amount);
            &&& t.balance_of(user) == s.balance_of(user) + amount
            &&& t.staked_of(user) == s.staked_of(user)
            &&& t.has_entry(user) == s.has_entry(user)
            &&& t.supply() == s.supply() + amount
            &&& t.escrow() == s.escrow()
            &&& other != user ==> t.balance_of(other) == s.balance_of(other)
            &&& other != user ==> t.staked_of(other) == s.staked_of(other)
            &&& other != user ==> t.has_entry(other) == s.has_entry(other)
        }),
{
    let t = s.airdropped(user, amount);
    lemma_user_bound(s, user);
    lemma_put(s, user, s.credited(user, amount), t);
    if other != user {
        lemma_put_other(s, user, s.credited(user, amount), t, other);
    }
}

/// What an accepted stake does, in whole numbers: the amount leaves the user's
/// liquid balance and joins the user's ledger entry and the escrow account; the
/// user has an entry from then on; the supply and all other users stay as they
/// were.
pub proof fn law_stake_effect(s: PoolState, user: Address, amount: u64, other: Address)
    requires
        s.wf(),
        s.stake_result(user, amount) is Ok,
    ensures
        ({
            let t = s.staked(user, amount);
            &&& t.balance_of(user) == s.balance_of(user) - amount
            &&& t.staked_of(user) == s.staked_of(user) + amount
            &&& t.has_entry(user)
            &&& t.escrow() == s.escrow() + amount
            &&& t.supply() == s.supply()
            &&& other != user ==> t.balance_of(other) == s.balance_of(other)
            &&& other != user ==> t.staked_of(other) == s.staked_of(other)
            &&& other != user ==> t.has_entry(other) == s.has_entry(other)
        }),
{
    let t = s.staked(user, amount);
    lemma_user_bound(s, user);
    lemma_put(s, user, s.locked(user, amount), t);
    if other != user {
        lemma_put_other(s, user, s.locked(user, amount), t, other);
    }
}

/// What an accepted unstake does, in whole numbers: the amount leaves the
/// user's ledger entry and the escrow account and joins the user's liquid
/// balance; no entry is made or removed; the supply and all other users stay as
/// they were.
pub proof fn law_unstake_effect(s: PoolState, user: Address, amount: u64, other: Address)
    requires
        s.wf(),
        s.unstake_result(user, amount) is Ok,
    ensures
        ({
            let t = s.unstaked(user, amount);
            &&& t.balance_of(user) == s.balance_of(user) + amount
            &&& t.staked_of(user) == s.staked_of(user) - amount
            &&& t.has_entry(user) == s.has_entry(user)
            &&& t.escrow() == s.escrow() - amount
            &&& t.supply() == s.supply()
            &&& other != user ==> t.balance_of(other) == s.balance_of(other)
            &&& other != user ==> t.staked_of(other) == s.staked_of(other)
            &&& other != user ==> t.has_entry(other) == s.has_entry(other)
        }),
{
    let t = s.unstaked(user, amount);
    lemma_user_bound(s, user);
    if s.knows(user) {
        lemma_put(s, user, s.released(user, amount), t);
        if other != user {
            lemma_put_other(s, user, s.released(user, amount), t, other);
        }
    }
}

/// Non-negativity: in every state that any series of requests reaches from a
/// fresh pool, no ledger entry, no liquid balance, and neither the escrow
/// balance nor the supply is below zero.
pub proof fn law_amounts_never_negative(start: PoolState, ops: Seq<Operation>, user: Address)
    requires
        start.fresh(),
    ensures
        run(start, ops).staked_of(user) >= 0,
        run(start, ops).balance_of(user) >= 0,
        run(start, ops).escrow() >= 0,
        run(start, ops).supply() >= 0,
        forall|i: int|
            0 <= i < run(start, ops).holders.len() ==> (#[trigger] run(start, ops).holders[i]).liquid
                >= 0 && run(start, ops).holders[i].staked() >= 0,
{
}

/// The setup is made once: after a setup that was accepted, every further
/// setup is rejected with `SetupConflict`, and the state, with the first mint
/// and escrow account, stays as it was.
pub proof fn law_setup_only_once(s: PoolState, first: u8, second: u8)
    requires
        s.wf(),
        s.initialize_mint_result(first) is Ok,
    ensures
        s.set_up(first).initialize_mint_result(second) == Err::<PoolState, ProgramErrors>(
            ProgramErrors::SetupConflict,
        ),
        apply(s.set_up(first), Operation::InitializeMint { decimals: second }) == s.set_up(first),
{
}

/// Round trip: where a user stakes an amount within the user's liquid balance
/// and then unstakes the same amount, both are accepted, and the user's liquid
/// balance and staked amount, and the escrow balance, are what they were before
/// the stake.
pub proof fn law_stake_unstake_round_trip(s: PoolState, user: Address, amount: u64)
    requires
        s.wf(),
        s.initialized(),
        amount <= s.balance_of(user),
    ensures
        s.stake_result(user, amount) is Ok,
        s.staked(user, amount).unstake_result(user, amount) is Ok,
        ({
            let back = s.staked(user, amount).unstaked(user, amount);
            &&& back.balance_of(user) == s.balance_of(user)
            &&& back.staked_of(user) == s.staked_of(user)
            &&& back.escrow() == s.escrow()
            &&& back.supply() == s.supply()
        }),
{
    let t = s.staked(user, amount);
    law_stake_effect(s, user, amount, user);
    lemma_staked_wf(s, user, amount);
    law_unstake_effect(t, user, amount, user);
}

/// Zero amounts: once the setup is made, a stake of nothing and an unstake of
/// nothing are accepted from any user. The unstake changes nothing at all; the
/// stake changes no balance and no staked amount of any user, nor the escrow
/// balance or the supply (it only leaves the user with a ledger entry).
pub proof fn law_zero_amount_is_no_op(s: PoolState, user: Address, who: Address)
    requires
        s.wf(),
        s.initialized(),
    ensures
        s.stake_result(user, 0) is Ok,
        s.unstake_result(user, 0) == Ok::<PoolState, ProgramErrors>(s),
        ({
            let t = s.staked(user, 0);
            &&& t.balance_of(who) == s.balance_of(who)
            &&& t.staked_of(who) == s.staked_of(who)
            &&& t.escrow() == s.escrow()
            &&& t.supply() == s.supply()
            &&& t.has_entry(user)
        }),
{
    law_stake_effect(s, user, 0, who);
    let u = s.unstaked(user, 0);
    if s.knows(user) {
        let i = s.index_of(user);
        assert(0 <= i < s.holders.len() && s.holders[i].user == user);
        assert(s.released(user, 0) == s.holders[i]);
        assert(u.holders =~= s.holders);
    }
}

/// Exact balance: once the setup is made, a stake of exactly the user's liquid
/// balance is accepted and leaves the user no liquid balance; a stake of one
/// token more is rejected with `InsufficientBalance`.
pub proof fn law_exact_balance(s: PoolState, user: Address, balance: u64)
    requires
        s.wf(),
        s.initialized(),
        balance == s.balance_of(user),
    ensures
        s.stake_result(user, balance) is Ok,
        s.staked(user, balance).balance_of(user) == 0,
        balance < u64::MAX ==> s.stake_result(user, (balance + 1) as u64) == Err::<
            PoolState,
            ProgramErrors,
        >(ProgramErrors::InsufficientBalance),
{
    law_stake_effect(s, user, balance, user);
}

/// Order of two users: where two distinct users each stake an amount within
/// their own liquid balance, both stakes are accepted whichever comes first,
/// and in either order the escrow balance ends as what it was plus both
/// amounts, and either user's liquid balance and staked amount end the same.
pub proof fn law_two_users_any_order(s: PoolState, u: Address, a: u64, v: Address, b: u64)
    requires
        s.wf(),
        s.initialized(),
        u != v,
        a <= s.balance_of(u),
        b <= s.balance_of(v),
    ensures
        s.stake_result(u, a) is Ok,
        s.staked(u, a).stake_result(v, b) is Ok,
        s.stake_result(v, b) is Ok,
        s.staked(v, b).stake_result(u, a) is Ok,
        ({
            let uv = s.staked(u, a).staked(v, b);
            let vu = s.staked(v, b).staked(u, a);
            &&& uv.escrow() == s.escrow() + a + b
            &&& vu.escrow() == s.escrow() + a + b
            &&& uv.balance_of(u) == vu.balance_of(u) == s.balance_of(u) - a
            &&& uv.balance_of(v) == vu.balance_of(v) == s.balance_of(v) - b
            &&& uv.staked_of(u) == vu.staked_of(u) == s.staked_of(u) + a
            &&& uv.staked_of(v) == vu.staked_of(v) == s.staked_of(v) + b
        }),
{
    law_stake_effect(s, u, a, v);
    lemma_staked_wf(s, u, a);
    law_stake_effect(s.staked(u, a), v, b, u);
    law_stake_effect(s, v, b, u);
    lemma_staked_wf(s, v, b);
    law_stake_effect(s.staked(v, b), u, a, v);
}

/// What a request can change: the mint keeps its decimals and its authority
/// and the escrow account its owner; only an airdrop changes the supply; only
/// a stake or an unstake changes the escrow balance; and a user who has a
/// token account or a ledger entry keeps it.
pub proof fn law_what_requests_change(s: PoolState, op: Operation, user: Address)
    requires
        s.wf(),
    ensures
        ({
            let t = apply(s, op);
            &&& s.mint matches Some(m) ==> t.mint matches Some(n) && n.decimals == m.decimals
                && n.authority == m.authority
            &&& s.vault matches Some(v) ==> t.vault matches Some(w) && w.owner == v.owner
            &&& t.supply() != s.supply() ==> op is Airdrop
            &&& t.escrow() != s.escrow() ==> op is Stake || op is Unstake
            &&& s.knows(user) ==> t.knows(user)
            &&& s.has_entry(user) ==> t.has_entry(user)
        }),
{
    let t = apply(s, op);
    match op {
        Operation::InitializeMint { decimals } => {},
        Operation::Airdrop { user: who, amount } => {
            if s.airdrop_result(who, amount) is Ok {
                lemma_user_bound(s, who);
                lemma_put(s, who, s.credited(who, amount), t);
                law_airdrop_effect(s, who, amount, user);
                if user != who {
                    lemma_put_other(s, who, s.credited(who, amount), t, user);
                }
            }
        },
        Operation::Stake { user: who, amount } => {
            if s.stake_result(who, amount) is Ok {
                lemma_user_bound(s, who);
                lemma_put(s, who, s.locked(who, amount), t);
                law_stake_effect(s, who, amount, user);
                if user != who {
                    lemma_put_other(s, who, s.locked(who, amount), t, user);
                }
            }
        },
        Operation::Unstake { user: who, amount } => {
            if s.unstake_result(who, amount) is Ok {
                lemma_user_bound(s, who);
                law_unstake_effect(s, who, amount, user);
                if s.knows(who) {
                    lemma_put(s, who, s.released(who, amount), t);
                    if user != who {
                        lemma_put_other(s, who, s.released(who, amount), t, user);
                    }
                }
            }
        },
    }
}

/// What a series of requests has staked for a user on balance: the sum of the
/// amounts of the user's accepted stakes less that of the user's accepted
/// unstakes.
pub open spec fn net_staked(start: PoolState, ops: Seq<Operation>, user: Address) -> int
    decreases ops.len(),
{
    if ops.len() == 0 {
        0
    } else {
        let before = run(start, ops.drop_last());
        net_staked(start, ops.drop_last(), user) + match ops.last() {
            Operation::Stake { user: who, amount } => if who == user && before.stake_result(
                who,
                amount,
            ) is Ok {
                amount as int
            } else {
                0
            },
            Operation::Unstake { user: who, amount } => if who == user && before.unstake_result(
                who,
                amount,
            ) is Ok {
                -(amount as int)
            } else {
                0
            },
            _ => 0,
        }
    }
}

/// A ledger entry holds what its user has staked less what the user has
/// unstaked: after any series of requests to a fresh pool, the staked amount
/// of every user is the net amount of the user's accepted stakes and unstakes.
pub proof fn law_entry_is_net_of_stakes(start: PoolState, ops: Seq<Operation>, user: Address)
    requires
        start.fresh(),
    ensures
        run(start, ops).staked_of(user) == net_staked(start, ops, user),
    decreases ops.len(),
{
    if ops.len() > 0 {
        let before = run(start, ops.drop_last());
        law_entry_is_net_of_stakes(start, ops.drop_last(), user);
        law_pool_conservation(start, ops.drop_last());
        match ops.last() {
            Operation::InitializeMint { decimals } => {},
            Operation::Airdrop { user: who, amount } => {
                if before.airdrop_result(who, amount) is Ok {
                    law_airdrop_effect(before, who, amount, user);
                }
            },
            Operation::Stake { user: who, amount } => {
                if before.stake_result(who, amount) is Ok {
                    law_stake_effect(before, who, amount, user);
                }
            },
            Operation::Unstake { user: who, amount } => {
                if before.unstake_result(who, amount) is Ok {
                    law_unstake_effect(before, who, amount, user);
                }
            },
        }
    }
}

/// The mint authority's signature is accepted: the call of an airdrop is
/// answered as a mint under the mint authority's identity is, so where the
/// mint obeys that identity the call fails only for want of room.
pub proof fn law_airdrop_is_authorized(ctx: Airdrop, amount: u64)
    ensures
        ctx.call_outcome(airdrop_call(ctx), amount) == mint_to_outcome(
            ctx.token_mint,
            ctx.user_token_account,
            ctx.mint_authority@.address,
            amount,
        ),
        ctx.token_mint.authority == ctx.mint_authority@.address ==> (ctx.call_outcome(
            airdrop_call(ctx),
            amount,
        ) is Ok <==> ctx.token_mint.supply + amount <= u64::MAX && ctx.user_token_account.amount
            + amount <= u64::MAX),
{
}

/// Only the mint authority mints: where the user is not the identity that the
/// mint obeys, a mint that the ledger accepts is made under the mint authority
/// and carries its signature.
pub proof fn law_only_mint_authority_mints(ctx: Airdrop, cpi: CpiContext<MintTo>, amount: u64)
    requires
        ctx.user != ctx.token_mint.authority,
        ctx.call_outcome(cpi, amount) is Ok,
    ensures
        cpi.accounts.authority == AccountName::MintAuthority,
        cpi.signer == Some(ctx.mint_authority),
        ctx.mint_authority@.address == ctx.token_mint.authority,
{
}

/// The user's own authority is accepted for a stake: where the token account
/// is the user's, the call of a stake is refused only where the account holds
/// too little or the escrow account has no room.
pub proof fn law_stake_is_authorized(ctx: Staking, amount: u64)
    requires
        ctx.user_token_account.owner == ctx.user,
    ensures
        ctx.call_outcome(stake_call(ctx), amount) == transfer_outcome(
            ctx.user_token_account,
            ctx.staking_token_account,
            ctx.user,
            amount,
        ),
        ctx.call_outcome(stake_call(ctx), amount) is Ok <==> ctx.user_token_account.amount >= amount
            && ctx.staking_token_account.amount + amount <= u64::MAX,
        ctx.call_outcome(stake_call(ctx), amount) != Err::<(), LedgerError>(
            LedgerError::MissingSignature,
        ),
        ctx.call_outcome(stake_call(ctx), amount) != Err::<(), LedgerError>(
            LedgerError::OwnerMismatch,
        ),
{
}

/// The staking authority's signature is accepted for an unstake: where the
/// escrow account obeys the staking authority, the call of an unstake is refused
/// only where the escrow account holds too little or the user's account has no
/// room.
pub proof fn law_unstake_is_authorized(ctx: Staking, amount: u64)
    requires
        ctx.staking_token_account.owner == ctx.staking_authority@.address,
    ensures
        ctx.call_outcome(unstake_call(ctx), amount) == transfer_outcome(
            ctx.staking_token_account,
            ctx.user_token_account,
            ctx.staking_authority@.address,
            amount,
        ),
        ctx.call_outcome(unstake_call(ctx), amount) is Ok <==> ctx.staking_token_account.amount
            >= amount && ctx.user_token_account.amount + amount <= u64::MAX,
{
}

/// Only the staking authority moves tokens out of escrow: where the user is
/// not the identity that the escrow account obeys, a transfer out of the escrow
/// account that the ledger accepts is made under the staking authority and
/// carries its signature.
pub proof fn law_only_staking_authority_empties_escrow(
    ctx: Staking,
    cpi: CpiContext<Transfer>,
    amount: u64,
)
    requires
        ctx.user != ctx.staking_token_account.owner,
        cpi.accounts.from == AccountName::StakingTokenAccount,
        ctx.call_outcome(cpi, amount) is Ok,
    ensures
        cpi.accounts.authority == AccountName::StakingAuthority,
        cpi.signer == Some(ctx.staking_authority),
        ctx.staking_authority@.address == ctx.staking_token_account.owner,
{
}

/// Escrow and entry move together: a stake whose transfer the ledger accepts
/// and which is then settled adds exactly the amount to the escrow balance and
/// to the user's entry, and takes it from the user's liquid balance; an unstake
/// takes exactly the amount from the escrow balance and from the entry, and
/// adds it to the liquid balance.
pub proof fn law_escrow_and_entry_move_together(ctx: Staking, amount: u64)
    requires
        ctx.user_token_account.owner == ctx.user,
        ctx.staking_token_account.owner == ctx.staking_authority@.address,
    ensures
        ctx.call_outcome(stake_call(ctx), amount) is Ok && ctx.user_stake.amount + amount
            <= u64::MAX ==> ({
            let after = ctx.moved_to_vault(amount).entry_grown(amount);
            &&& after.staking_token_account.amount == ctx.staking_token_account.amount + amount
            &&& after.user_stake.amount == ctx.user_stake.amount + amount
            &&& after.user_token_account.amount == ctx.user_token_account.amount - amount
        }),
        ctx.call_outcome(unstake_call(ctx), amount) is Ok && ctx.user_stake.amount >= amount ==> ({
            let after = ctx.moved_to_user(amount).entry_shrunk(amount);
            &&& after.staking_token_account.amount == ctx.staking_token_account.amount - amount
            &&& after.user_stake.amount == ctx.user_stake.amount - amount
            &&& after.user_token_account.amount == ctx.user_token_account.amount + amount
        }),
{
}

} // verus!
