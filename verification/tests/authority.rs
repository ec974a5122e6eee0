use airdrop_program::address::Address;
use airdrop_program::authority::find_mint_address;
use airdrop_program::authority::find_stake_address;
use airdrop_program::authority::Authority;
use airdrop_program::authority::Role;

fn program_id() -> Address {
    let mut bytes = [0u8; 32];
    bytes[0] = 7;
    bytes[31] = 9;
    Address::new(bytes)
}

fn user() -> Address {
    let mut bytes = [0u8; 32];
    let mut i = 0;
    while i < 32 {
        bytes[i] = i as u8;
        i += 1;
    }
    Address::new(bytes)
}

const MINT_AUTHORITY: [u8; 32] = [
    111, 233, 162, 194, 176, 94, 147, 26, 74, 26, 186, 60, 135, 226, 186, 73, 239, 73, 242, 113, 167,
    32, 30, 98, 29, 239, 141, 142, 30, 49, 52, 83,
];

const STAKING_AUTHORITY: [u8; 32] = [
    195, 155, 79, 221, 57, 234, 22, 40, 67, 251, 171, 2, 39, 238, 189, 220, 184, 148, 186, 132, 64,
    206, 212, 243, 134, 147, 6, 230, 18, 44, 18, 60,
];

const TOKEN_MINT: [u8; 32] = [
    212, 170, 246, 215, 199, 239, 244, 51, 252, 163, 12, 47, 76, 35, 177, 201, 228, 19, 18, 138, 163,
    195, 83, 189, 203, 11, 189, 216, 119, 34, 147, 171,
];

const STAKE_ENTRY: [u8; 32] = [
    117, 53, 142, 239, 40, 124, 36, 108, 110, 158, 108, 83, 140, 59, 239, 14, 205, 250, 93, 110, 217,
    223, 217, 241, 223, 92, 96, 7, 24, 61, 40, 6,
];

#[test]
fn addresses_are_equal_when_all_bytes_are() {
    let a = Address::new([5u8; 32]);
    let b = Address::new([5u8; 32]);
    let mut other = [5u8; 32];
    other[31] = 6;
    assert_eq!(a, b);
    assert_ne!(a, Address::new(other));
    assert_eq!(a.to_vec(), vec![5u8; 32]);
    assert_eq!(user().to_vec()[17], 17);
}

#[test]
fn role_labels_are_the_fixed_strings() {
    assert_eq!(Role::Mint.label_bytes(), "mint-authority".as_bytes().to_vec());
    assert_eq!(Role::Staking.label_bytes(), "staking-authority".as_bytes().to_vec());
}

#[test]
fn mint_authority_is_found_with_its_bump() {
    let found = Authority::find(Role::Mint, &program_id()).unwrap();
    assert_eq!(found.role(), Role::Mint);
    assert_eq!(found.bump(), 255);
    assert_eq!(found.address(), Address::new(MINT_AUTHORITY));
    assert_eq!(found.program_id(), program_id());
}

#[test]
fn staking_authority_is_found_with_its_bump() {
    let found = Authority::find(Role::Staking, &program_id()).unwrap();
    assert_eq!(found.role(), Role::Staking);
    assert_eq!(found.bump(), 255);
    assert_eq!(found.address(), Address::new(STAKING_AUTHORITY));
}

#[test]
fn the_two_authorities_differ() {
    let mint = Authority::find(Role::Mint, &program_id()).unwrap();
    let staking = Authority::find(Role::Staking, &program_id()).unwrap();
    assert_ne!(mint.address(), staking.address());
    assert!(!mint.same(&staking));
    assert!(mint.same(&mint));
}

#[test]
fn found_authority_is_derived_again_from_its_bump() {
    let id = program_id();
    let found = Authority::find(Role::Mint, &id).unwrap();
    let again = Authority::derive(Role::Mint, found.bump(), &id, &found.address()).unwrap();
    assert_eq!(again.address(), found.address());
    assert_eq!(again.bump(), found.bump());
    assert_eq!(again.role(), Role::Mint);
    assert!(again.same(&found));
}

#[test]
fn derivation_is_stable() {
    let id = program_id();
    let first = Authority::find(Role::Staking, &id).unwrap();
    let second = Authority::find(Role::Staking, &id).unwrap();
    assert!(first.same(&second));
}

#[test]
fn derive_rejects_an_unexpected_identity() {
    let id = program_id();
    assert!(Authority::derive(Role::Mint, 255, &id, &Address::new(STAKING_AUTHORITY)).is_none());
    assert!(Authority::derive(Role::Mint, 255, &id, &id).is_none());
}

#[test]
fn derive_rejects_a_stale_bump() {
    let id = program_id();
    // 249 derives an address, but another one than 255 does.
    assert!(Authority::derive(Role::Mint, 249, &id, &Address::new(MINT_AUTHORITY)).is_none());
    // 254 derives none at all.
    assert!(Authority::derive(Role::Mint, 254, &id, &Address::new(MINT_AUTHORITY)).is_none());
}

#[test]
fn derive_rejects_the_label_of_the_other_role() {
    let id = program_id();
    assert!(Authority::derive(Role::Staking, 255, &id, &Address::new(MINT_AUTHORITY)).is_none());
    assert!(Authority::derive(Role::Staking, 255, &id, &Address::new(STAKING_AUTHORITY)).is_some());
}

#[test]
fn derivation_depends_on_the_program() {
    let other = Address::new([3u8; 32]);
    let here = Authority::find(Role::Mint, &program_id()).unwrap();
    let there = Authority::find(Role::Mint, &other).unwrap();
    assert_ne!(here.address(), there.address());
    assert_eq!(there.program_id(), other);
}

#[test]
fn signer_seeds_are_label_then_bump() {
    let found = Authority::find(Role::Staking, &program_id()).unwrap();
    let seeds = found.signer_seeds();
    assert_eq!(seeds.len(), 2);
    assert_eq!(seeds[0], "staking-authority".as_bytes().to_vec());
    assert_eq!(seeds[1], vec![found.bump()]);
}

#[test]
fn mint_address_skips_bumps_that_derive_nothing() {
    let (address, bump) = find_mint_address(&program_id()).unwrap();
    assert_eq!(bump, 251);
    assert_eq!(address, Address::new(TOKEN_MINT));
}

#[test]
fn stake_address_depends_on_the_user() {
    let (address, bump) = find_stake_address(&user(), &program_id()).unwrap();
    assert_eq!(bump, 255);
    assert_eq!(address, Address::new(STAKE_ENTRY));
    let (other, _) = find_stake_address(&Address::new([1u8; 32]), &program_id()).unwrap();
    assert_ne!(other, address);
}
