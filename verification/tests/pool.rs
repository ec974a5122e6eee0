use airdrop_program::address::Address;
use airdrop_program::errors::LedgerError;
use airdrop_program::errors::ProgramErrors;
use airdrop_program::ledger::Mint;
use airdrop_program::pool::Pool;

fn key(n: u8) -> Address {
    Address::new([n; 32])
}

fn fresh() -> Pool {
    Pool::new(&key(42)).unwrap()
}

fn ready() -> Pool {
    let mut pool = fresh();
    assert_eq!(pool.initialize_mint(6, key(200)), Ok(()));
    pool
}

/// The pool after the setup and an airdrop of 1000 to user 1.
fn funded() -> Pool {
    let mut pool = ready();
    assert_eq!(pool.airdrop(key(1), 1000), Ok(()));
    pool
}

#[test]
fn new_pool_is_empty() {
    let pool = fresh();
    assert!(!pool.is_initialized());
    assert_eq!(pool.mint(), None);
    assert_eq!(pool.supply(), 0);
    assert_eq!(pool.escrow_balance(), 0);
    assert_eq!(pool.balance_of(&key(1)), 0);
    assert_eq!(pool.staked_of(&key(1)), 0);
    assert!(!pool.has_staked(&key(1)));
    assert_ne!(pool.mint_authority().address(), pool.staking_authority().address());
}

#[test]
fn setup_creates_the_mint() {
    let pool = ready();
    assert!(pool.is_initialized());
    assert_eq!(
        pool.mint(),
        Some(Mint { decimals: 6, authority: pool.mint_authority().address(), supply: 0 })
    );
    assert_eq!(pool.escrow_balance(), 0);
}

#[test]
fn second_setup_is_rejected() {
    let mut pool = funded();
    assert_eq!(pool.stake(key(1), 400), Ok(()));
    let before = pool.mint();
    assert_eq!(pool.initialize_mint(9, key(200)), Err(ProgramErrors::SetupConflict));
    assert_eq!(pool.initialize_mint(6, key(201)), Err(ProgramErrors::SetupConflict));
    assert_eq!(pool.mint(), before);
    assert_eq!(pool.supply(), 1000);
    assert_eq!(pool.escrow_balance(), 400);
    assert_eq!(pool.balance_of(&key(1)), 600);
}

#[test]
fn airdrop_after_setup_credits_user_and_supply() {
    let mut pool = fresh();
    assert_eq!(pool.initialize_mint(6, key(200)), Ok(()));
    assert_eq!(pool.airdrop(key(1), 1000), Ok(()));
    assert_eq!(pool.balance_of(&key(1)), 1000);
    assert_eq!(pool.supply(), 1000);
    assert_eq!(pool.mint().unwrap().decimals, 6);
}

#[test]
fn stake_moves_tokens_into_escrow() {
    let mut pool = funded();
    assert_eq!(pool.stake(key(1), 400), Ok(()));
    assert_eq!(pool.balance_of(&key(1)), 600);
    assert_eq!(pool.staked_of(&key(1)), 400);
    assert_eq!(pool.escrow_balance(), 400);
}

#[test]
fn excessive_unstake_is_rejected_and_changes_nothing() {
    let mut pool = funded();
    assert_eq!(pool.stake(key(1), 400), Ok(()));
    assert_eq!(pool.unstake(key(1), 500), Err(ProgramErrors::ExcessiveUnstake));
    assert_eq!(pool.balance_of(&key(1)), 600);
    assert_eq!(pool.staked_of(&key(1)), 400);
    assert_eq!(pool.escrow_balance(), 400);
    assert_eq!(pool.supply(), 1000);
}

#[test]
fn unstake_of_everything_empties_escrow() {
    let mut pool = funded();
    assert_eq!(pool.stake(key(1), 400), Ok(()));
    assert_eq!(pool.unstake(key(1), 400), Ok(()));
    assert_eq!(pool.balance_of(&key(1)), 1000);
    assert_eq!(pool.staked_of(&key(1)), 0);
    assert_eq!(pool.escrow_balance(), 0);
    assert!(pool.has_staked(&key(1)));
}

#[test]
fn airdrop_of_nothing_is_accepted() {
    let mut pool = ready();
    assert_eq!(pool.airdrop(key(1), 0), Ok(()));
    assert_eq!(pool.balance_of(&key(1)), 0);
    assert_eq!(pool.supply(), 0);
}

#[test]
fn airdrops_add_up() {
    let mut pool = funded();
    assert_eq!(pool.airdrop(key(1), 24), Ok(()));
    assert_eq!(pool.airdrop(key(2), 76), Ok(()));
    assert_eq!(pool.balance_of(&key(1)), 1024);
    assert_eq!(pool.balance_of(&key(2)), 76);
    assert_eq!(pool.supply(), 1100);
    assert_eq!(pool.escrow_balance(), 0);
}

#[test]
fn operations_before_the_setup_are_refused_by_the_ledger() {
    let mut pool = fresh();
    let refused = Err(ProgramErrors::LedgerOperationFailed(LedgerError::AccountNotFound));
    assert_eq!(pool.airdrop(key(1), 1000), refused);
    assert_eq!(pool.stake(key(1), 0), refused);
    assert_eq!(pool.stake(key(1), 5), refused);
    assert_eq!(pool.unstake(key(1), 0), refused);
    assert_eq!(pool.balance_of(&key(1)), 0);
    assert_eq!(pool.supply(), 0);
    assert!(!pool.is_initialized());
}

#[test]
fn airdrop_beyond_the_largest_supply_is_refused() {
    let mut pool = ready();
    assert_eq!(pool.airdrop(key(1), u64::MAX - 10), Ok(()));
    assert_eq!(
        pool.airdrop(key(2), 11),
        Err(ProgramErrors::LedgerOperationFailed(LedgerError::Overflow))
    );
    assert_eq!(pool.balance_of(&key(2)), 0);
    assert_eq!(pool.supply(), u64::MAX - 10);
    assert_eq!(pool.airdrop(key(2), 10), Ok(()));
    assert_eq!(pool.supply(), u64::MAX);
    assert_eq!(pool.stake(key(1), u64::MAX - 10), Ok(()));
    assert_eq!(pool.stake(key(2), 10), Ok(()));
    assert_eq!(pool.escrow_balance(), u64::MAX);
}

#[test]
fn stake_then_unstake_round_trip() {
    let mut pool = funded();
    assert_eq!(pool.stake(key(1), 250), Ok(()));
    let mut amount = 0;
    while amount <= 750 {
        let liquid = pool.balance_of(&key(1));
        let staked = pool.staked_of(&key(1));
        let escrow = pool.escrow_balance();
        assert_eq!(pool.stake(key(1), amount), Ok(()));
        assert_eq!(pool.unstake(key(1), amount), Ok(()));
        assert_eq!(pool.balance_of(&key(1)), liquid);
        assert_eq!(pool.staked_of(&key(1)), staked);
        assert_eq!(pool.escrow_balance(), escrow);
        amount += 125;
    }
    assert_eq!(pool.balance_of(&key(1)), 750);
    assert_eq!(pool.staked_of(&key(1)), 250);
}

#[test]
fn zero_amounts_are_no_ops() {
    let mut pool = funded();
    assert_eq!(pool.stake(key(1), 400), Ok(()));
    assert_eq!(pool.stake(key(1), 0), Ok(()));
    assert_eq!(pool.unstake(key(1), 0), Ok(()));
    assert_eq!(pool.balance_of(&key(1)), 600);
    assert_eq!(pool.staked_of(&key(1)), 400);
    assert_eq!(pool.escrow_balance(), 400);
    assert_eq!(pool.supply(), 1000);
}

#[test]
fn zero_amounts_of_a_new_user() {
    let mut pool = funded();
    assert_eq!(pool.unstake(key(5), 0), Ok(()));
    assert!(!pool.has_staked(&key(5)));
    assert_eq!(pool.stake(key(5), 0), Ok(()));
    assert!(pool.has_staked(&key(5)));
    assert_eq!(pool.balance_of(&key(5)), 0);
    assert_eq!(pool.staked_of(&key(5)), 0);
    assert_eq!(pool.escrow_balance(), 0);
    assert_eq!(pool.balance_of(&key(1)), 1000);
}

#[test]
fn unstake_makes_no_entry() {
    let mut pool = funded();
    assert!(!pool.has_staked(&key(1)));
    assert_eq!(pool.unstake(key(1), 0), Ok(()));
    assert!(!pool.has_staked(&key(1)));
    assert_eq!(pool.unstake(key(1), 1), Err(ProgramErrors::ExcessiveUnstake));
    assert_eq!(pool.balance_of(&key(1)), 1000);
}

#[test]
fn exact_balance_boundary() {
    let mut pool = funded();
    assert_eq!(pool.stake(key(1), 1001), Err(ProgramErrors::InsufficientBalance));
    assert_eq!(pool.balance_of(&key(1)), 1000);
    assert_eq!(pool.staked_of(&key(1)), 0);
    assert!(!pool.has_staked(&key(1)));
    assert_eq!(pool.stake(key(1), 1000), Ok(()));
    assert_eq!(pool.balance_of(&key(1)), 0);
    assert_eq!(pool.staked_of(&key(1)), 1000);
    assert_eq!(pool.escrow_balance(), 1000);
    assert_eq!(pool.stake(key(1), 1), Err(ProgramErrors::InsufficientBalance));
}

#[test]
fn stake_of_a_user_without_tokens_is_rejected() {
    let mut pool = funded();
    assert_eq!(pool.stake(key(9), 1), Err(ProgramErrors::InsufficientBalance));
    assert!(!pool.has_staked(&key(9)));
    assert_eq!(pool.escrow_balance(), 0);
}

#[test]
fn two_users_stake_in_either_order() {
    let mut first = funded();
    assert_eq!(first.airdrop(key(2), 500), Ok(()));
    assert_eq!(first.stake(key(1), 300), Ok(()));
    assert_eq!(first.stake(key(2), 200), Ok(()));

    let mut second = funded();
    assert_eq!(second.airdrop(key(2), 500), Ok(()));
    assert_eq!(second.stake(key(2), 200), Ok(()));
    assert_eq!(second.stake(key(1), 300), Ok(()));

    assert_eq!(first.escrow_balance(), 500);
    assert_eq!(second.escrow_balance(), 500);
    assert_eq!(first.staked_of(&key(1)), second.staked_of(&key(1)));
    assert_eq!(first.staked_of(&key(2)), second.staked_of(&key(2)));
    assert_eq!(first.balance_of(&key(1)), 700);
    assert_eq!(second.balance_of(&key(1)), 700);
    assert_eq!(first.balance_of(&key(2)), 300);
    assert_eq!(second.balance_of(&key(2)), 300);
}

#[test]
fn one_user_cannot_unstake_what_another_staked() {
    let mut pool = funded();
    assert_eq!(pool.airdrop(key(2), 500), Ok(()));
    assert_eq!(pool.stake(key(1), 300), Ok(()));
    assert_eq!(pool.stake(key(2), 200), Ok(()));
    assert_eq!(pool.unstake(key(2), 201), Err(ProgramErrors::ExcessiveUnstake));
    assert_eq!(pool.unstake(key(3), 1), Err(ProgramErrors::ExcessiveUnstake));
    assert_eq!(pool.escrow_balance(), 500);
    assert_eq!(pool.unstake(key(2), 200), Ok(()));
    assert_eq!(pool.escrow_balance(), 300);
    assert_eq!(pool.staked_of(&key(1)), 300);
}

#[test]
fn escrow_is_the_sum_of_the_entries() {
    let mut pool = ready();
    let users = [key(1), key(2), key(3), key(4)];
    let mut step: u64 = 0;
    while step < 40 {
        let user = users[(step % 4) as usize];
        let amount = (step * 37) % 101;
        match step % 5 {
            0 | 1 => {
                assert_eq!(pool.airdrop(user, amount), Ok(()));
            }
            2 | 3 => {
                let _ = pool.stake(user, amount);
            }
            _ => {
                let _ = pool.unstake(user, amount / 2);
            }
        }
        let mut staked: u64 = 0;
        let mut liquid: u64 = 0;
        for u in users.iter() {
            staked += pool.staked_of(u);
            liquid += pool.balance_of(u);
        }
        assert_eq!(pool.escrow_balance(), staked);
        assert_eq!(pool.supply(), staked + liquid);
        step += 1;
    }
    assert!(pool.escrow_balance() > 0);
}

#[test]
fn rejected_operations_never_wrap() {
    let mut pool = funded();
    assert_eq!(pool.unstake(key(1), u64::MAX), Err(ProgramErrors::ExcessiveUnstake));
    assert_eq!(pool.stake(key(1), u64::MAX), Err(ProgramErrors::InsufficientBalance));
    assert_eq!(pool.stake(key(1), 1000), Ok(()));
    assert_eq!(pool.unstake(key(1), 1001), Err(ProgramErrors::ExcessiveUnstake));
    assert_eq!(pool.staked_of(&key(1)), 1000);
    assert_eq!(pool.balance_of(&key(1)), 0);
    assert_eq!(pool.escrow_balance(), 1000);
}
