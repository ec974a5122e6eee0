//! A token airdrop and staking ledger.
//!
//! Tokens are minted to users on request, and users lock them in a pooled
//! escrow account and take them out again. Two identities without a private
//! key, derived from fixed labels, act for the program: one mints, one owns the
//! escrow account. Every operation is decided here; the calls to the token
//! ledger that an operation needs are named by it and made by the caller.

pub mod accounts;
pub mod address;
pub mod authority;
pub mod cpi;
pub mod errors;
pub mod instructions;
pub mod laws;
pub mod ledger;
pub mod pool;

pub use accounts::Airdrop;
pub use accounts::InitializeMint;
pub use accounts::Stake;
pub use accounts::Staking;
pub use errors::ProgramErrors;
pub use instructions::airdrop;
pub use instructions::initialize_mint;
pub use instructions::stake;
pub use instructions::unstake;
