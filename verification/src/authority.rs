//! The derived authorities: identities without a private key, computed from a
//! fixed label and a bump under the identity of the program, and the proof that
//! a call is made as one of them.

use anchor_lang::prelude::Pubkey;
use anchor_lang::solana_program::pubkey::PubkeyError;
use vstd::prelude::*;
use vstd::string::*;

use crate::address::lemma_address_by_view;
use crate::address::Address;

verus! {

/// Largest number of seeds that one derivation accepts.
pub const MAX_SEEDS: usize = 16;

/// Largest number of bytes in one seed.
pub const MAX_SEED_LEN: usize = 32;

/// The seeds are few enough and each is short enough to derive an address from.
pub open spec fn seeds_fit(seeds: Seq<Seq<u8>>) -> bool {
    &&& seeds.len() <= MAX_SEEDS
    &&& forall|i: int| 0 <= i < seeds.len() ==> (#[trigger] seeds[i]).len() <= MAX_SEED_LEN
}

/// The seeds followed by the one-byte seed that holds the bump.
pub open spec fn with_bump(seeds: Seq<Seq<u8>>, bump: u8) -> Seq<Seq<u8>> {
    seeds.push(seq![bump])
}

/// The seeds that a list of byte vectors stands for.
pub open spec fn seed_views(seeds: Seq<Vec<u8>>) -> Seq<Seq<u8>> {
    seeds.map_values(|s: Vec<u8>| s@)
}

/// The address that the seeds derive under the program identity: the digest of
/// the seeds, the program identity and a fixed marker, where that digest is no
/// point of the signature curve (so that no private key can exist for it), and
/// `None` where it is one.
pub uninterp spec fn program_address(seeds: Seq<Seq<u8>>, program_id: Seq<u8>) -> Option<Seq<u8>>;

/// The seeds derive this address under the program identity.
pub open spec fn derives(seeds: Seq<Seq<u8>>, program_id: Seq<u8>, address: Seq<u8>) -> bool {
    &&& seeds_fit(seeds)
    &&& program_address(seeds, program_id) == Some(address)
}

/// `bump` is the disambiguator that a search finds for the seeds: the largest
/// one from 255 down to 1 with which the seeds derive an address, and `address`
/// is the address they derive with it.
pub open spec fn found(seeds: Seq<Seq<u8>>, program_id: Seq<u8>, bump: u8, address: Seq<u8>) -> bool {
    &&& bump >= 1
    &&& derives(with_bump(seeds, bump), program_id, address)
    &&& forall|b: u8| bump < b ==> program_address(#[trigger] with_bump(seeds, b), program_id) is None
}

/// A search finds no disambiguator for the seeds: they do not fit, or none from
/// 255 down to 1 derives an address.
pub open spec fn not_found(seeds: Seq<Seq<u8>>, program_id: Seq<u8>) -> bool {
    ||| !seeds_fit(with_bump(seeds, 0))
    ||| forall|b: u8| 1 <= b ==> program_address(#[trigger] with_bump(seeds, b), program_id) is None
}

/// Why a derivation gave no address.
#[derive(Clone, Copy, Debug, PartialEq, Eq, Structural)]
enum DeriveError {
    /// Too many seeds, or one seed is too long.
    MaxSeedLengthExceeded,
    /// The digest is a point of the curve.
    InvalidSeeds,
    /// The owner is not allowed.
    IllegalOwner,
}

/// Calls `Pubkey::create_program_address` of `solana_program`, which
/// `anchor_lang` hands on. Claimed of it: it refuses seeds that do not fit with
/// `MaxSeedLengthExceeded`; for seeds that fit it returns the address that
/// `program_address` names, or `InvalidSeeds` where there is none; it never
/// returns `IllegalOwner`.
#[verifier::external_body]
fn create_program_address(seeds: &Vec<Vec<u8>>, program_id: &Address) -> (r: Result<
    Address,
    DeriveError,
>)
    ensures
        match r {
            Ok(a) => derives(seed_views(seeds@), program_id@, a@),
            Err(DeriveError::MaxSeedLengthExceeded) => !seeds_fit(seed_views(seeds@)),
            Err(DeriveError::InvalidSeeds) => seeds_fit(seed_views(seeds@)) && program_address(
                seed_views(seeds@),
                program_id@,
            ) is None,
            Err(DeriveError::IllegalOwner) => false,
        },
{
    let parts: Vec<&[u8]> = seeds.iter().map(|s| s.as_slice()).collect();
    let id = Pubkey::new_from_array(program_id.bytes);
    match Pubkey::create_program_address(&parts, &id) {
        Ok(key) => Ok(Address { bytes: key.to_bytes() }),
        Err(PubkeyError::MaxSeedLengthExceeded) => Err(DeriveError::MaxSeedLengthExceeded),
        Err(PubkeyError::InvalidSeeds) => Err(DeriveError::InvalidSeeds),
        Err(PubkeyError::IllegalOwner) => Err(DeriveError::IllegalOwner),
    }
}

/// Calls `Pubkey::try_find_program_address` of `solana_program`, which
/// `anchor_lang` hands on. Claimed of it: it tries the bumps from 255 down to 1,
/// each appended to the seeds as a seed of one byte, and returns the first that
/// derives an address, with that address; it returns `None` where the seeds with
/// a bump do not fit or where no bump derives an address.
#[verifier::external_body]
fn try_find_program_address(seeds: &Vec<Vec<u8>>, program_id: &Address) -> (r: Option<
    (Address, u8),
>)
    ensures
        match r {
            Some((a, bump)) => found(seed_views(seeds@), program_id@, bump, a@),
            None => not_found(seed_views(seeds@), program_id@),
        },
{
    let parts: Vec<&[u8]> = seeds.iter().map(|s| s.as_slice()).collect();
    let id = Pubkey::new_from_array(program_id.bytes);
    match Pubkey::try_find_program_address(&parts, &id) {
        Some((key, bump)) => Some((Address { bytes: key.to_bytes() }, bump)),
        None => None,
    }
}

/// The two parties that act for the program without a private key.
#[derive(Clone, Copy, Debug, PartialEq, Eq, Structural)]
pub enum Role {
    /// The only party that may increase the token's supply.
    Mint,
    /// The only party that may move tokens out of the escrow account.
    Staking,
}

impl Role {
    /// The fixed label from which the role's identity is derived.
    pub open spec fn label(self) -> Seq<u8> {
        match self {
            Role::Mint => "mint-authority".spec_bytes(),
            Role::Staking => "staking-authority".spec_bytes(),
        }
    }

    /// The label as bytes.
    pub fn label_bytes(self) -> (v: Vec<u8>)
        ensures
            v@ == self.label(),
            v@.len() <= MAX_SEED_LEN,
    {
        proof {
            lemma_label_len(self);
        }
        match self {
            Role::Mint => "mint-authority".as_bytes_vec(),
            Role::Staking => "staking-authority".as_bytes_vec(),
        }
    }
}

/// Both labels are short enough to be a seed.
pub proof fn lemma_label_len(role: Role)
    ensures
        role.label().len() <= MAX_SEED_LEN,
{
    reveal_strlit("mint-authority");
    reveal_strlit("staking-authority");
    is_ascii_spec_bytes("mint-authority");
    is_ascii_spec_bytes("staking-authority");
    assert(is_ascii("mint-authority"));
    assert(is_ascii("staking-authority"));
}

/// The seeds of a role before the bump is appended: its label alone.
pub open spec fn label_seeds(role: Role) -> Seq<Seq<u8>> {
    seq![role.label()]
}

/// The seeds that sign for a role: its label, then its bump.
pub open spec fn authority_seeds(role: Role, bump: u8) -> Seq<Seq<u8>> {
    seq![role.label(), seq![bump]]
}

/// The seeds of any role with any bump fit.
pub proof fn lemma_authority_seeds_fit(role: Role, bump: u8)
    ensures
        seeds_fit(authority_seeds(role, bump)),
        authority_seeds(role, bump) == with_bump(label_seeds(role), bump),
{
    lemma_label_len(role);
    assert(authority_seeds(role, bump) =~= with_bump(label_seeds(role), bump));
}

/// What an [`Authority`] holds.
pub struct AuthorityView {
    pub role: Role,
    pub bump: u8,
    pub address: Address,
    pub program_id: Address,
}

/// The proof that a call is authorized as one of the two roles: an identity
/// together with the bump that derives it from the role's label under the
/// program's identity. Only [`Authority::find`] and [`Authority::derive`] make
/// one, and both derive the identity first.
#[derive(Clone, Copy, Debug)]
pub struct Authority {
    role: Role,
    bump: u8,
    address: Address,
    program_id: Address,
}

impl View for Authority {
    type V = AuthorityView;

    closed spec fn view(&self) -> AuthorityView {
        AuthorityView {
            role: self.role,
            bump: self.bump,
            address: self.address,
            program_id: self.program_id,
        }
    }
}

impl Authority {
    #[verifier::type_invariant]
    closed spec fn derived(self) -> bool {
        derives(authority_seeds(self.role, self.bump), self.program_id@, self.address@)
    }

    /// Discovers the bump of a role under a program identity, and with it the
    /// role's identity. `None` where no bump derives an identity.
    pub fn find(role: Role, program_id: &Address) -> (r: Option<Authority>)
        ensures
            match r {
                Some(a) => {
                    &&& a@.role == role
                    &&& a@.program_id == *program_id
                    &&& found(label_seeds(role), program_id@, a@.bump, a@.address@)
                },
                None => not_found(label_seeds(role), program_id@),
            },
    {
        let mut seeds: Vec<Vec<u8>> = Vec::new();
        seeds.push(role.label_bytes());
        proof {
            assert(seed_views(seeds@) =~= label_seeds(role));
        }
        match try_find_program_address(&seeds, program_id) {
            Some((address, bump)) => {
                proof {
                    lemma_authority_seeds_fit(role, bump);
                }
                Some(Authority { role, bump, address, program_id: *program_id })
            },
            None => None,
        }
    }

    /// Derives the identity of a role again from a known bump, and accepts it
    /// only where it is the expected identity.
    pub fn derive(role: Role, bump: u8, program_id: &Address, expected: &Address) -> (r: Option<
        Authority,
    >)
        ensures
            r is Some <==> program_address(authority_seeds(role, bump), program_id@) == Some(
                expected@,
            ),
            r matches Some(a) ==> a@ == (AuthorityView {
                role,
                bump,
                address: *expected,
                program_id: *program_id,
            }),
    {
        let mut seeds: Vec<Vec<u8>> = Vec::new();
        seeds.push(role.label_bytes());
        let mut last: Vec<u8> = Vec::new();
        last.push(bump);
        seeds.push(last);
        proof {
            lemma_authority_seeds_fit(role, bump);
            assert(seeds@[1]@ =~= seq![bump]);
            assert(seed_views(seeds@) =~= authority_seeds(role, bump));
        }
        match create_program_address(&seeds, program_id) {
            Ok(address) => {
                if address == *expected {
                    Some(Authority { role, bump, address, program_id: *program_id })
                } else {
                    proof {
                        if address@ == expected@ {
                            lemma_address_by_view(address, *expected);
                        }
                    }
                    None
                }
            },
            Err(_) => None,
        }
    }

    /// The role that this authority acts as.
    pub fn role(&self) -> (r: Role)
        ensures
            r == self@.role,
    {
        self.role
    }

    /// The bump that derives the identity.
    pub fn bump(&self) -> (b: u8)
        ensures
            b == self@.bump,
    {
        self.bump
    }

    /// The program identity under which the identity is derived.
    pub fn program_id(&self) -> (p: Address)
        ensures
            p == self@.program_id,
    {
        self.program_id
    }

    /// The derived identity. It is the one that the role's label and the bump
    /// derive under the program identity.
    pub fn address(&self) -> (a: Address)
        ensures
            a == self@.address,
            derives(authority_seeds(self@.role, self@.bump), self@.program_id@, a@),
    {
        proof {
            use_type_invariant(self);
        }
        self.address
    }

    /// Whether two authorities are the same in every part.
    pub fn same(&self, other: &Authority) -> (b: bool)
        ensures
            b == (*self == *other),
    {
        self.role == other.role && self.bump == other.bump && self.address == other.address
            && self.program_id == other.program_id
    }

    /// The seeds that sign as this authority: the role's label, then the bump.
    pub fn signer_seeds(&self) -> (seeds: Vec<Vec<u8>>)
        ensures
            seed_views(seeds@) == authority_seeds(self@.role, self@.bump),
    {
        let mut seeds: Vec<Vec<u8>> = Vec::new();
        seeds.push(self.role.label_bytes());
        let mut last: Vec<u8> = Vec::new();
        last.push(self.bump);
        seeds.push(last);
        proof {
            assert(seeds@[1]@ =~= seq![self.bump]);
            assert(seed_views(seeds@) =~= authority_seeds(self.role, self.bump));
        }
        seeds
    }
}

/// The label from which the address of the mint is derived.
pub open spec fn mint_label() -> Seq<u8> {
    "token-mint".spec_bytes()
}

/// The label from which, after the user's identity, the address of a user's
/// ledger entry is derived.
pub open spec fn stake_label() -> Seq<u8> {
    "state_account".spec_bytes()
}

/// Finds the address at which the mint of the program is kept, and its bump.
pub fn find_mint_address(program_id: &Address) -> (r: Option<(Address, u8)>)
    ensures
        match r {
            Some((a, bump)) => found(seq![mint_label()], program_id@, bump, a@),
            None => not_found(seq![mint_label()], program_id@),
        },
{
    let mut seeds: Vec<Vec<u8>> = Vec::new();
    seeds.push("token-mint".as_bytes_vec());
    proof {
        assert(seed_views(seeds@) =~= seq![mint_label()]);
    }
    try_find_program_address(&seeds, program_id)
}

/// Finds the address at which the ledger entry of a user is kept, and its bump.
pub fn find_stake_address(user: &Address, program_id: &Address) -> (r: Option<(Address, u8)>)
    ensures
        match r {
            Some((a, bump)) => found(seq![user@, stake_label()], program_id@, bump, a@),
            None => not_found(seq![user@, stake_label()], program_id@),
        },
{
    let mut seeds: Vec<Vec<u8>> = Vec::new();
    seeds.push(user.to_vec());
    seeds.push("state_account".as_bytes_vec());
    proof {
        assert(seed_views(seeds@) =~= seq![user@, stake_label()]);
    }
    try_find_program_address(&seeds, program_id)
}

} // verus!
