use airdrop_program::address::Address;
use airdrop_program::errors::LedgerError;
use airdrop_program::ledger::balance_of;
use airdrop_program::ledger::create_account;
use airdrop_program::ledger::mint_to;
use airdrop_program::ledger::transfer;
use airdrop_program::ledger::Mint;
use airdrop_program::ledger::TokenAccount;

fn key(n: u8) -> Address {
    Address::new([n; 32])
}

#[test]
fn created_account_is_empty() {
    let account = create_account(key(1));
    assert_eq!(account, TokenAccount { owner: key(1), amount: 0 });
    assert_eq!(balance_of(&account), 0);
}

#[test]
fn mint_to_grows_balance_and_supply() {
    let mut mint = Mint { decimals: 6, authority: key(9), supply: 10 };
    let mut to = TokenAccount { owner: key(1), amount: 4 };
    assert_eq!(mint_to(&mut mint, &mut to, &key(9), 1000), Ok(()));
    assert_eq!(mint, Mint { decimals: 6, authority: key(9), supply: 1010 });
    assert_eq!(to, TokenAccount { owner: key(1), amount: 1004 });
}

#[test]
fn mint_to_obeys_only_the_mint_authority() {
    let mut mint = Mint { decimals: 6, authority: key(9), supply: 10 };
    let mut to = TokenAccount { owner: key(1), amount: 4 };
    assert_eq!(mint_to(&mut mint, &mut to, &key(1), 5), Err(LedgerError::OwnerMismatch));
    assert_eq!(mint.supply, 10);
    assert_eq!(to.amount, 4);
}

#[test]
fn mint_to_refuses_a_supply_beyond_the_largest_amount() {
    let mut mint = Mint { decimals: 0, authority: key(9), supply: u64::MAX - 1 };
    let mut to = TokenAccount { owner: key(1), amount: 0 };
    assert_eq!(mint_to(&mut mint, &mut to, &key(9), 2), Err(LedgerError::Overflow));
    assert_eq!(mint.supply, u64::MAX - 1);
    assert_eq!(to.amount, 0);
    assert_eq!(mint_to(&mut mint, &mut to, &key(9), 1), Ok(()));
    assert_eq!(mint.supply, u64::MAX);
    assert_eq!(to.amount, 1);
}

#[test]
fn mint_to_refuses_a_balance_beyond_the_largest_amount() {
    let mut mint = Mint { decimals: 0, authority: key(9), supply: 0 };
    let mut to = TokenAccount { owner: key(1), amount: u64::MAX };
    assert_eq!(mint_to(&mut mint, &mut to, &key(9), 1), Err(LedgerError::Overflow));
    assert_eq!(mint.supply, 0);
    assert_eq!(to.amount, u64::MAX);
}

#[test]
fn transfer_moves_the_amount() {
    let mut from = TokenAccount { owner: key(1), amount: 1000 };
    let mut to = TokenAccount { owner: key(2), amount: 7 };
    assert_eq!(transfer(&mut from, &mut to, &key(1), 400), Ok(()));
    assert_eq!(from, TokenAccount { owner: key(1), amount: 600 });
    assert_eq!(to, TokenAccount { owner: key(2), amount: 407 });
}

#[test]
fn transfer_obeys_only_the_owner() {
    let mut from = TokenAccount { owner: key(1), amount: 1000 };
    let mut to = TokenAccount { owner: key(2), amount: 7 };
    assert_eq!(transfer(&mut from, &mut to, &key(2), 400), Err(LedgerError::OwnerMismatch));
    assert_eq!(from.amount, 1000);
    assert_eq!(to.amount, 7);
}

#[test]
fn transfer_refuses_more_than_the_balance() {
    let mut from = TokenAccount { owner: key(1), amount: 1000 };
    let mut to = TokenAccount { owner: key(2), amount: 7 };
    assert_eq!(transfer(&mut from, &mut to, &key(1), 1001), Err(LedgerError::InsufficientFunds));
    assert_eq!(from.amount, 1000);
    assert_eq!(to.amount, 7);
    assert_eq!(transfer(&mut from, &mut to, &key(1), 1000), Ok(()));
    assert_eq!(from.amount, 0);
    assert_eq!(to.amount, 1007);
}

#[test]
fn transfer_refuses_a_balance_beyond_the_largest_amount() {
    let mut from = TokenAccount { owner: key(1), amount: 10 };
    let mut to = TokenAccount { owner: key(2), amount: u64::MAX - 5 };
    assert_eq!(transfer(&mut from, &mut to, &key(1), 6), Err(LedgerError::Overflow));
    assert_eq!(from.amount, 10);
    assert_eq!(to.amount, u64::MAX - 5);
}

#[test]
fn transfer_of_nothing_changes_nothing() {
    let mut from = TokenAccount { owner: key(1), amount: 0 };
    let mut to = TokenAccount { owner: key(2), amount: 7 };
    assert_eq!(transfer(&mut from, &mut to, &key(1), 0), Ok(()));
    assert_eq!(from.amount, 0);
    assert_eq!(to.amount, 7);
}
