//! The whole system in memory: the mint, the escrow account and one record for
//! each user, changed only by the operations, with the token ledger played by
//! the records themselves.

use vstd::prelude::*;

use crate::accounts::Airdrop;
use crate::accounts::InitializeMint;
use crate::accounts::Stake;
use crate::accounts::Staking;
use crate::address::Address;
use crate::authority::found;
use crate::authority::label_seeds;
use crate::authority::not_found;
use crate::authority::Authority;
use crate::authority::Role;
use crate::errors::LedgerError;
use crate::errors::ProgramErrors;
use crate::instructions::airdrop;
use crate::instructions::initialize_mint;
use crate::instructions::settle_airdrop;
use crate::instructions::settle_stake;
use crate::instructions::settle_unstake;
use crate::instructions::stake;
use crate::instructions::unstake;
use crate::ledger::create_account;
use crate::ledger::Mint;
use crate::ledger::TokenAccount;

verus! {

/// What the pool keeps for one user: the balance of the user's token account,
/// which exists from the user's first airdrop or stake on, and the user's entry
/// in the stake ledger, which exists from the user's first stake on.
#[derive(Clone, Copy, Debug, PartialEq, Eq)]
pub struct Holder {
    pub user: Address,
    /// Tokens in the user's own account, free to be staked.
    pub liquid: u64,
    /// The ledger entry; `None` until the user stakes for the first time.
    pub stake: Option<Stake>,
}

impl Holder {
    /// The tokens that the user has staked: those of the entry, none without one.
    pub open spec fn staked(self) -> nat {
        match self.stake {
            Some(entry) => entry.amount as nat,
            None => 0,
        }
    }
}

/// The sum of the staked amounts of all the holders.
pub open spec fn staked_sum(holders: Seq<Holder>) -> nat
    decreases holders.len(),
{
    if holders.len() == 0 {
        0
    } else {
        staked_sum(holders.drop_last()) + holders.last().staked()
    }
}

/// The sum of the liquid balances of all the holders.
pub open spec fn liquid_sum(holders: Seq<Holder>) -> nat
    decreases holders.len(),
{
    if holders.len() == 0 {
        0
    } else {
        liquid_sum(holders.drop_last()) + holders.last().liquid as nat
    }
}

/// One more holder adds its amounts to the sums.
pub proof fn lemma_sums_push(holders: Seq<Holder>, h: Holder)
    ensures
        staked_sum(holders.push(h)) == staked_sum(holders) + h.staked(),
        liquid_sum(holders.push(h)) == liquid_sum(holders) + h.liquid,
{
    assert(holders.push(h).drop_last() =~= holders);
}

/// Replacing one holder changes the sums by the difference of its amounts.
pub proof fn lemma_sums_update(holders: Seq<Holder>, i: int, h: Holder)
    requires
        0 <= i < holders.len(),
    ensures
        staked_sum(holders.update(i, h)) == staked_sum(holders) - holders[i].staked() + h.staked(),
        liquid_sum(holders.update(i, h)) == liquid_sum(holders) - holders[i].liquid + h.liquid,
    decreases holders.len(),
{
    if i == holders.len() - 1 {
        assert(holders.update(i, h).drop_last() =~= holders.drop_last());
    } else {
        assert(holders.update(i, h).drop_last() =~= holders.drop_last().update(i, h));
        lemma_sums_update(holders.drop_last(), i, h);
    }
}

/// No holder has more than the sum.
pub proof fn lemma_sums_bound(holders: Seq<Holder>, i: int)
    requires
        0 <= i < holders.len(),
    ensures
        holders[i].staked() <= staked_sum(holders),
        holders[i].liquid <= liquid_sum(holders),
    decreases holders.len(),
{
    if i < holders.len() - 1 {
        lemma_sums_bound(holders.drop_last(), i);
    }
}

/// The state of the whole system: the mint and the escrow account, once the
/// setup has made them, and one record for each user that has taken part.
pub struct PoolState {
    pub mint_authority: Authority,
    pub staking_authority: Authority,
    pub mint: Option<Mint>,
    pub vault: Option<TokenAccount>,
    pub holders: Seq<Holder>,
}

impl PoolState {
    /// The state before the setup and before any user has taken part.
    pub open spec fn fresh(self) -> bool {
        &&& self.mint_authority@.role == Role::Mint
        &&& self.staking_authority@.role == Role::Staking
        &&& self.mint is None
        &&& self.vault is None
        &&& self.holders.len() == 0
    }

    /// The setup has been made.
    pub open spec fn initialized(self) -> bool {
        self.mint is Some && self.vault is Some
    }

    /// Tokens in existence.
    pub open spec fn supply(self) -> nat {
        match self.mint {
            Some(m) => m.supply as nat,
            None => 0,
        }
    }

    /// Tokens in the escrow account.
    pub open spec fn escrow(self) -> nat {
        match self.vault {
            Some(v) => v.amount as nat,
            None => 0,
        }
    }

    /// The user has a record.
    pub open spec fn knows(self, user: Address) -> bool {
        exists|i: int| 0 <= i < self.holders.len() && (#[trigger] self.holders[i]).user == user
    }

    /// Where the record of a known user stands.
    pub open spec fn index_of(self, user: Address) -> int {
        choose|i: int| 0 <= i < self.holders.len() && (#[trigger] self.holders[i]).user == user
    }

    /// The user's liquid balance; none for a user without a token account.
    pub open spec fn balance_of(self, user: Address) -> nat {
        if self.knows(user) {
            self.holders[self.index_of(user)].liquid as nat
        } else {
            0
        }
    }

    /// The user's staked amount; none for a user without a ledger entry.
    pub open spec fn staked_of(self, user: Address) -> nat {
        if self.knows(user) {
            self.holders[self.index_of(user)].staked()
        } else {
            0
        }
    }

    /// The user has a ledger entry, that is, has staked at some time.
    pub open spec fn has_entry(self, user: Address) -> bool {
        self.knows(user) && self.holders[self.index_of(user)].stake is Some
    }

    /// The sum of all ledger entries.
    pub open spec fn total_staked(self) -> nat {
        staked_sum(self.holders)
    }

    /// The sum of all liquid balances.
    pub open spec fn total_liquid(self) -> nat {
        liquid_sum(self.holders)
    }

    /// No user has two records.
    pub open spec fn distinct(self) -> bool {
        forall|i: int, j: int|
            0 <= i < j < self.holders.len() ==> (#[trigger] self.holders[i]).user
                != (#[trigger] self.holders[j]).user
    }

    /// What holds of every state that the operations reach: the mint and the
    /// escrow account exist together, under the two derived authorities; the
    /// escrow account holds exactly the sum of the ledger entries; and every
    /// token in existence is either liquid or in escrow.
    pub open spec fn wf(self) -> bool {
        &&& self.mint_authority@.role == Role::Mint
        &&& self.staking_authority@.role == Role::Staking
        &&& self.mint is Some <==> self.vault is Some
        &&& self.mint matches Some(m) ==> m.authority == self.mint_authority@.address
        &&& self.vault matches Some(v) ==> v.owner == self.staking_authority@.address
        &&& self.distinct()
        &&& self.escrow() == self.total_staked()
        &&& self.supply() == self.escrow() + self.total_liquid()
    }

    /// The holders with the record of `user` replaced by `h`, or with `h` added
    /// where the user had none.
    pub open spec fn put(self, user: Address, h: Holder) -> Seq<Holder> {
        if self.knows(user) {
            self.holders.update(self.index_of(user), h)
        } else {
            self.holders.push(h)
        }
    }

    /// The record of `user` after `amount` new tokens have reached the user.
    pub open spec fn credited(self, user: Address, amount: u64) -> Holder {
        Holder {
            user,
            liquid: (self.balance_of(user) + amount) as u64,
            stake: if self.has_entry(user) {
                Some(Stake { amount: self.staked_of(user) as u64 })
            } else {
                None
            },
        }
    }

    /// The record of `user` after the user has staked `amount`.
    pub open spec fn locked(self, user: Address, amount: u64) -> Holder {
        Holder {
            user,
            liquid: (self.balance_of(user) - amount) as u64,
            stake: Some(Stake { amount: (self.staked_of(user) + amount) as u64 }),
        }
    }

    /// The record of `user` after the user has unstaked `amount`.
    pub open spec fn released(self, user: Address, amount: u64) -> Holder {
        Holder {
            user,
            liquid: (self.balance_of(user) + amount) as u64,
            stake: if self.has_entry(user) {
                Some(Stake { amount: (self.staked_of(user) - amount) as u64 })
            } else {
                None
            },
        }
    }

    /// The state after the setup with `decimals`.
    pub open spec fn set_up(self, decimals: u8) -> PoolState {
        PoolState {
            mint: Some(Mint { decimals, authority: self.mint_authority@.address, supply: 0 }),
            vault: Some(TokenAccount { owner: self.staking_authority@.address, amount: 0 }),
            ..self
        }
    }

    /// The state after `amount` new tokens have reached `user`.
    pub open spec fn airdropped(self, user: Address, amount: u64) -> PoolState {
        PoolState {
            mint: match self.mint {
                Some(m) => Some(Mint { supply: (m.supply + amount) as u64, ..m }),
                None => None,
            },
            holders: self.put(user, self.credited(user, amount)),
            ..self
        }
    }

    /// The state after `user` has staked `amount`.
    pub open spec fn staked(self, user: Address, amount: u64) -> PoolState {
        PoolState {
            vault: match self.vault {
                Some(v) => Some(TokenAccount { amount: (v.amount + amount) as u64, ..v }),
                None => None,
            },
            holders: self.put(user, self.locked(user, amount)),
            ..self
        }
    }

    /// The state after `user` has unstaked `amount`. A user without a record
    /// gets none by it, and a user without a ledger entry gets none by it.
    pub open spec fn unstaked(self, user: Address, amount: u64) -> PoolState {
        PoolState {
            vault: match self.vault {
                Some(v) => Some(TokenAccount { amount: (v.amount - amount) as u64, ..v }),
                None => None,
            },
            holders: if self.knows(user) {
                self.put(user, self.released(user, amount))
            } else {
                self.holders
            },
            ..self
        }
    }

    /// What the setup does: it is rejected once the mint exists.
    pub open spec fn initialize_mint_result(self, decimals: u8) -> Result<PoolState, ProgramErrors> {
        if self.mint is Some || self.vault is Some {
            Err(ProgramErrors::SetupConflict)
        } else {
            Ok(self.set_up(decimals))
        }
    }

    /// What an airdrop does: the ledger refuses it before the setup, and where
    /// the supply would exceed the largest amount.
    pub open spec fn airdrop_result(self, user: Address, amount: u64) -> Result<
        PoolState,
        ProgramErrors,
    > {
        if !self.initialized() {
            Err(ProgramErrors::LedgerOperationFailed(LedgerError::AccountNotFound))
        } else if self.supply() + amount > u64::MAX {
            Err(ProgramErrors::LedgerOperationFailed(LedgerError::Overflow))
        } else {
            Ok(self.airdropped(user, amount))
        }
    }

    /// What a stake does: the ledger refuses it before the setup, and it is
    /// rejected where the user's liquid balance is less than the amount.
    pub open spec fn stake_result(self, user: Address, amount: u64) -> Result<
        PoolState,
        ProgramErrors,
    > {
        if !self.initialized() {
            Err(ProgramErrors::LedgerOperationFailed(LedgerError::AccountNotFound))
        } else if self.balance_of(user) < amount {
            Err(ProgramErrors::InsufficientBalance)
        } else {
            Ok(self.staked(user, amount))
        }
    }

    /// What an unstake does: the ledger refuses it before the setup, and it is
    /// rejected where the user has staked less than the amount.
    pub open spec fn unstake_result(self, user: Address, amount: u64) -> Result<
        PoolState,
        ProgramErrors,
    > {
        if !self.initialized() {
            Err(ProgramErrors::LedgerOperationFailed(LedgerError::AccountNotFound))
        } else if self.staked_of(user) < amount {
            Err(ProgramErrors::ExcessiveUnstake)
        } else {
            Ok(self.unstaked(user, amount))
        }
    }
}

/// In a state without double records, the record at a place is the record of
/// its user.
pub proof fn lemma_index_of(s: PoolState, i: int)
    requires
        s.distinct(),
        0 <= i < s.holders.len(),
    ensures
        s.knows(s.holders[i].user),
        s.index_of(s.holders[i].user) == i,
{
    let user = s.holders[i].user;
    let j = s.index_of(user);
    assert(0 <= j < s.holders.len() && s.holders[j].user == user);
    if j < i {
        assert(s.holders[j].user != s.holders[i].user);
    } else if i < j {
        assert(s.holders[i].user != s.holders[j].user);
    }
}

/// Replacing or adding the record of a user keeps the records distinct, puts the
/// new record at the user's place and changes the sums by the difference.
pub proof fn lemma_put(s: PoolState, user: Address, h: Holder, t: PoolState)
    requires
        s.distinct(),
        h.user == user,
        t.holders == s.put(user, h),
    ensures
        t.distinct(),
        t.knows(user),
        t.holders[t.index_of(user)] == h,
        staked_sum(t.holders) == staked_sum(s.holders) - s.staked_of(user) + h.staked(),
        liquid_sum(t.holders) == liquid_sum(s.holders) - s.balance_of(user) + h.liquid,
{
    let n = s.holders.len() as int;
    let i = if s.knows(user) {
        s.index_of(user)
    } else {
        n
    };
    if s.knows(user) {
        assert(0 <= i < s.holders.len() && s.holders[i].user == user);
        lemma_sums_update(s.holders, i, h);
    } else {
        lemma_sums_push(s.holders, h);
    }
    assert forall|a: int, b: int| 0 <= a < b < t.holders.len() implies (#[trigger] t.holders[a]).user
        != (#[trigger] t.holders[b]).user by {
        if b < n {
            assert(s.holders[a].user != s.holders[b].user);
        } else {
            assert(s.holders[a].user != user);
        }
    }
    assert(t.holders[i].user == user);
    lemma_index_of(t, i);
}

/// Replacing or adding the record of a user leaves the record of any other user
/// as it was, and gives none to another user that had none.
pub proof fn lemma_put_other(s: PoolState, user: Address, h: Holder, t: PoolState, other: Address)
    requires
        s.distinct(),
        h.user == user,
        t.holders == s.put(user, h),
        other != user,
    ensures
        t.knows(other) == s.knows(other),
        s.knows(other) ==> t.holders[t.index_of(other)] == s.holders[s.index_of(other)],
        t.balance_of(other) == s.balance_of(other),
        t.staked_of(other) == s.staked_of(other),
        t.has_entry(other) == s.has_entry(other),
{
    lemma_put(s, user, h, t);
    if s.knows(other) {
        let k = s.index_of(other);
        assert(0 <= k < s.holders.len() && s.holders[k].user == other);
        assert(t.holders[k].user == other);
        lemma_index_of(t, k);
    }
    if t.knows(other) {
        let k = t.index_of(other);
        assert(0 <= k < t.holders.len() && t.holders[k].user == other);
        assert(k < s.holders.len());
        assert(s.holders[k].user == other);
    }
}

/// No user has more than the sums hold.
pub proof fn lemma_user_bound(s: PoolState, user: Address)
    ensures
        s.balance_of(user) <= s.total_liquid(),
        s.staked_of(user) <= s.total_staked(),
{
    if s.knows(user) {
        let i = s.index_of(user);
        assert(0 <= i < s.holders.len() && s.holders[i].user == user);
        lemma_sums_bound(s.holders, i);
    }
}

/// The setup keeps a valid state valid.
pub proof fn lemma_set_up_wf(s: PoolState, decimals: u8)
    requires
        s.wf(),
        s.initialize_mint_result(decimals) is Ok,
    ensures
        s.set_up(decimals).wf(),
{
}

/// An airdrop keeps a valid state valid.
pub proof fn lemma_airdropped_wf(s: PoolState, user: Address, amount: u64)
    requires
        s.wf(),
        s.airdrop_result(user, amount) is Ok,
    ensures
        s.airdropped(user, amount).wf(),
{
    lemma_user_bound(s, user);
    lemma_put(s, user, s.credited(user, amount), s.airdropped(user, amount));
}

/// A stake keeps a valid state valid.
pub proof fn lemma_staked_wf(s: PoolState, user: Address, amount: u64)
    requires
        s.wf(),
        s.stake_result(user, amount) is Ok,
    ensures
        s.staked(user, amount).wf(),
{
    lemma_user_bound(s, user);
    lemma_put(s, user, s.locked(user, amount), s.staked(user, amount));
}

/// An unstake keeps a valid state valid.
pub proof fn lemma_unstaked_wf(s: PoolState, user: Address, amount: u64)
    requires
        s.wf(),
        s.unstake_result(user, amount) is Ok,
    ensures
        s.unstaked(user, amount).wf(),
{
    lemma_user_bound(s, user);
    if s.knows(user) {
        lemma_put(s, user, s.released(user, amount), s.unstaked(user, amount));
    }
}

/// The whole system in memory: the state that the operations keep, together
/// with a token ledger that carries out the calls they make.
#[derive(Debug)]
pub struct Pool {
    mint_authority: Authority,
    staking_authority: Authority,
    mint: Option<Mint>,
    vault: Option<TokenAccount>,
    holders: Vec<Holder>,
}

impl View for Pool {
    type V = PoolState;

    closed spec fn view(&self) -> PoolState {
        PoolState {
            mint_authority: self.mint_authority,
            staking_authority: self.staking_authority,
            mint: self.mint,
            vault: self.vault,
            holders: self.holders@,
        }
    }
}

impl Pool {
    /// A pool before the setup, with no user, for the program of this identity.
    /// It derives the two authorities; `None` where one of them has no bump.
    pub fn new(program_id: &Address) -> (r: Option<Pool>)
        ensures
            match r {
                Some(pool) => {
                    &&& pool@.wf()
                    &&& pool@.fresh()
                    &&& pool@.mint_authority@.program_id == *program_id
                    &&& pool@.staking_authority@.program_id == *program_id
                    &&& found(
                        label_seeds(Role::Mint),
                        program_id@,
                        pool@.mint_authority@.bump,
                        pool@.mint_authority@.address@,
                    )
                    &&& found(
                        label_seeds(Role::Staking),
                        program_id@,
                        pool@.staking_authority@.bump,
                        pool@.staking_authority@.address@,
                    )
                },
                None => not_found(label_seeds(Role::Mint), program_id@) || not_found(
                    label_seeds(Role::Staking),
                    program_id@,
                ),
            },
    {
        let mint_authority = match Authority::find(Role::Mint, program_id) {
            Some(a) => a,
            None => {
                return None;
            },
        };
        let staking_authority = match Authority::find(Role::Staking, program_id) {
            Some(a) => a,
            None => {
                return None;
            },
        };
        Some(Pool { mint_authority, staking_authority, mint: None, vault: None, holders: Vec::new() })
    }

    /// Where the record of the user stands, if the user has one.
    fn find(&self, user: &Address) -> (r: Option<usize>)
        requires
            self@.distinct(),
        ensures
            match r {
                Some(i) => i < self@.holders.len() && self@.knows(*user) && self@.index_of(*user)
                    == i,
                None => !self@.knows(*user),
            },
    {
        let mut i: usize = 0;
        while i < self.holders.len()
            invariant
                i <= self.holders@.len(),
                self@.distinct(),
                forall|j: int| 0 <= j < i ==> (#[trigger] self.holders@[j]).user != *user,
            decreases self.holders@.len() - i,
        {
            if self.holders[i].user == *user {
                proof {
                    lemma_index_of(self@, i as int);
                }
                return Some(i);
            }
            i = i + 1;
        }
        None
    }

    /// The mint, once the setup has made it.
    pub fn mint(&self) -> (m: Option<Mint>)
        ensures
            m == self@.mint,
    {
        self.mint
    }

    /// The identity that may mint.
    pub fn mint_authority(&self) -> (a: Authority)
        ensures
            a == self@.mint_authority,
    {
        self.mint_authority
    }

    /// The identity that owns the escrow account.
    pub fn staking_authority(&self) -> (a: Authority)
        ensures
            a == self@.staking_authority,
    {
        self.staking_authority
    }

    /// Whether the setup has been made.
    pub fn is_initialized(&self) -> (b: bool)
        ensures
            b == self@.initialized(),
    {
        self.mint.is_some() && self.vault.is_some()
    }

    /// Tokens in existence.
    pub fn supply(&self) -> (n: u64)
        ensures
            n == self@.supply(),
    {
        match self.mint {
            Some(m) => m.supply,
            None => 0,
        }
    }

    /// Tokens in the escrow account. It is the sum of all ledger entries.
    pub fn escrow_balance(&self) -> (n: u64)
        requires
            self@.wf(),
        ensures
            n == self@.escrow(),
            n == self@.total_staked(),
    {
        match self.vault {
            Some(v) => v.amount,
            None => 0,
        }
    }

    /// The user's liquid balance.
    pub fn balance_of(&self, user: &Address) -> (n: u64)
        requires
            self@.wf(),
        ensures
            n == self@.balance_of(*user),
    {
        match self.find(user) {
            Some(i) => self.holders[i].liquid,
            None => 0,
        }
    }

    /// The amount that the user has staked.
    pub fn staked_of(&self, user: &Address) -> (n: u64)
        requires
            self@.wf(),
        ensures
            n == self@.staked_of(*user),
    {
        match self.find(user) {
            Some(i) => match self.holders[i].stake {
                Some(entry) => entry.amount,
                None => 0,
            },
            None => 0,
        }
    }

    /// Whether the user has a ledger entry, that is, has staked at some time.
    pub fn has_staked(&self, user: &Address) -> (b: bool)
        requires
            self@.wf(),
        ensures
            b == self@.has_entry(*user),
    {
        match self.find(user) {
            Some(i) => self.holders[i].stake.is_some(),
            None => false,
        }
    }

    /// The accounts of a stake or an unstake of the user: the user's token
    /// account and ledger entry as they are, or empty ones where the user has
    /// none yet. `None` before the setup.
    fn staking(&self, user: &Address, place: Option<usize>) -> (r: Option<Staking>)
        requires
            self@.wf(),
            match place {
                Some(i) => i < self@.holders.len() && self@.knows(*user) && self@.index_of(*user)
                    == i,
                None => !self@.knows(*user),
            },
        ensures
            r is Some <==> self@.initialized(),
            r matches Some(ctx) ==> ctx == (Staking {
                token_mint: self@.mint->0,
                staking_authority: self@.staking_authority,
                staking_token_account: self@.vault->0,
                user: *user,
                user_token_account: TokenAccount {
                    owner: *user,
                    amount: self@.balance_of(*user) as u64,
                },
                user_stake: Stake { amount: self@.staked_of(*user) as u64 },
            }),
    {
        let token_mint = match self.mint {
            Some(m) => m,
            None => {
                return None;
            },
        };
        let staking_token_account = match self.vault {
            Some(v) => v,
            None => {
                return None;
            },
        };
        let (user_token_account, user_stake) = match place {
            Some(i) => {
                let holder = self.holders[i];
                let entry = match holder.stake {
                    Some(e) => e,
                    None => Stake { amount: 0 },
                };
                (TokenAccount { owner: *user, amount: holder.liquid }, entry)
            },
            None => (create_account(*user), Stake { amount: 0 }),
        };
        Some(
            Staking {
                token_mint,
                staking_authority: self.staking_authority,
                staking_token_account,
                user: *user,
                user_token_account,
                user_stake,
            },
        )
    }

    /// Puts the record of a user at its place, or adds it where the user had
    /// none.
    fn put(&mut self, place: Option<usize>, holder: Holder)
        requires
            old(self)@.distinct(),
            match place {
                Some(i) => i < old(self)@.holders.len() && old(self)@.knows(holder.user) && old(
                    self,
                )@.index_of(holder.user) == i,
                None => !old(self)@.knows(holder.user),
            },
        ensures
            final(self)@ == (PoolState {
                holders: old(self)@.put(holder.user, holder),
                ..old(self)@
            }),
    {
        match place {
            Some(i) => {
                self.holders.set(i, holder);
            },
            None => {
                self.holders.push(holder);
            },
        }
    }

    /// The one-time setup: creates the mint with `decimals` under the mint
    /// authority and the empty escrow account under the staking authority. A
    /// second setup is rejected with `SetupConflict` and changes nothing.
    pub fn initialize_mint(&mut self, decimals: u8, payer: Address) -> (r: Result<(), ProgramErrors>)
        requires
            old(self)@.wf(),
        ensures
            final(self)@.wf(),
            match old(self)@.initialize_mint_result(decimals) {
                Ok(after) => r is Ok && final(self)@ == after,
                Err(e) => r == Err::<(), ProgramErrors>(e) && final(self)@ == old(self)@,
            },
    {
        let mut ctx = InitializeMint {
            token_mint: self.mint,
            mint_authority: self.mint_authority,
            staking_authority: self.staking_authority,
            staking_token_account: self.vault,
            payer,
        };
        match initialize_mint(&mut ctx, decimals) {
            Ok(()) => {},
            Err(e) => {
                return Err(e);
            },
        }
        proof {
            lemma_set_up_wf(self@, decimals);
        }
        self.mint = ctx.token_mint;
        self.vault = ctx.staking_token_account;
        Ok(())
    }

    /// Mints `amount` new tokens into the user's token account, which is
    /// created where the user has none. The ledger refuses the mint before the
    /// setup and where the supply would exceed the largest amount; the airdrop
    /// then fails with the ledger's refusal and changes nothing.
    pub fn airdrop(&mut self, user: Address, amount: u64) -> (r: Result<(), ProgramErrors>)
        requires
            old(self)@.wf(),
        ensures
            final(self)@.wf(),
            match old(self)@.airdrop_result(user, amount) {
                Ok(after) => r is Ok && final(self)@ == after,
                Err(e) => r == Err::<(), ProgramErrors>(e) && final(self)@ == old(self)@,
            },
    {
        let token_mint = match self.mint {
            Some(m) => m,
            None => {
                return Err(ProgramErrors::LedgerOperationFailed(LedgerError::AccountNotFound));
            },
        };
        let place = self.find(&user);
        let (user_token_account, entry) = match place {
            Some(i) => (
                TokenAccount { owner: user, amount: self.holders[i].liquid },
                self.holders[i].stake,
            ),
            None => (create_account(user), None),
        };
        let mut ctx = Airdrop {
            token_mint,
            mint_authority: self.mint_authority,
            user,
            user_token_account,
        };
        let cpi = airdrop(&ctx, amount);
        proof {
            lemma_user_bound(self@, user);
        }
        let outcome = ctx.perform(&cpi, amount);
        match settle_airdrop(outcome) {
            Ok(()) => {},
            Err(e) => {
                return Err(e);
            },
        }
        proof {
            lemma_airdropped_wf(self@, user, amount);
        }
        self.mint = Some(ctx.token_mint);
        self.put(place, Holder { user, liquid: ctx.user_token_account.amount, stake: entry });
        Ok(())
    }

    /// Moves `amount` tokens of the user into escrow and adds them to the
    /// user's ledger entry; the token account and the entry are created where
    /// the user has none. Rejected with `InsufficientBalance` where the user's
    /// liquid balance is less than `amount`; before the setup the ledger refuses
    /// the transfer. A rejected stake changes nothing.
    pub fn stake(&mut self, user: Address, amount: u64) -> (r: Result<(), ProgramErrors>)
        requires
            old(self)@.wf(),
        ensures
            final(self)@.wf(),
            match old(self)@.stake_result(user, amount) {
                Ok(after) => r is Ok && final(self)@ == after,
                Err(e) => r == Err::<(), ProgramErrors>(e) && final(self)@ == old(self)@,
            },
    {
        let place = self.find(&user);
        let mut ctx = match self.staking(&user, place) {
            Some(c) => c,
            None => {
                return Err(ProgramErrors::LedgerOperationFailed(LedgerError::AccountNotFound));
            },
        };
        let cpi = match stake(&ctx, amount) {
            Ok(c) => c,
            Err(e) => {
                return Err(e);
            },
        };
        proof {
            lemma_user_bound(self@, user);
        }
        let outcome = ctx.perform(&cpi, amount);
        match settle_stake(&mut ctx, amount, outcome) {
            Ok(()) => {},
            Err(e) => {
                return Err(e);
            },
        }
        proof {
            lemma_staked_wf(self@, user, amount);
        }
        self.vault = Some(ctx.staking_token_account);
        self.put(
            place,
            Holder { user, liquid: ctx.user_token_account.amount, stake: Some(ctx.user_stake) },
        );
        Ok(())
    }

    /// Moves `amount` tokens from escrow back to the user and takes them from
    /// the user's ledger entry. Rejected with `ExcessiveUnstake` where the user
    /// has staked less than `amount`; before the setup the ledger refuses the
    /// transfer. A rejected unstake changes nothing.
    pub fn unstake(&mut self, user: Address, amount: u64) -> (r: Result<(), ProgramErrors>)
        requires
            old(self)@.wf(),
        ensures
            final(self)@.wf(),
            match old(self)@.unstake_result(user, amount) {
                Ok(after) => r is Ok && final(self)@ == after,
                Err(e) => r == Err::<(), ProgramErrors>(e) && final(self)@ == old(self)@,
            },
    {
        let place = self.find(&user);
        let mut ctx = match self.staking(&user, place) {
            Some(c) => c,
            None => {
                return Err(ProgramErrors::LedgerOperationFailed(LedgerError::AccountNotFound));
            },
        };
        let cpi = match unstake(&ctx, amount) {
            Ok(c) => c,
            Err(e) => {
                return Err(e);
            },
        };
        proof {
            lemma_user_bound(self@, user);
        }
        let outcome = ctx.perform(&cpi, amount);
        match settle_unstake(&mut ctx, amount, outcome) {
            Ok(()) => {},
            Err(e) => {
                return Err(e);
            },
        }
        proof {
            lemma_unstaked_wf(self@, user, amount);
        }
        self.vault = Some(ctx.staking_token_account);
        match place {
            Some(i) => {
                let entry = match self.holders[i].stake {
                    Some(_) => Some(ctx.user_stake),
                    None => None,
                };
                self.put(place, Holder { user, liquid: ctx.user_token_account.amount, stake: entry });
            },
            None => {},
        }
        Ok(())
    }
}

} // verus!
