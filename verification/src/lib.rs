//! A two-party wagering escrow.
//!
//! Two participants stake the same amount of one asset, the configuration's
//! owner later declares the winner, and the pot is paid out: a fee to the
//! company, a fee to the pool, the rest to the winner.

pub mod address;
pub mod duel;
pub mod error;
pub mod events;
pub mod laws;
pub mod lifecycle;
pub mod rewards;
pub mod state;
pub mod vault;

pub use address::Address;
pub use error::CustomError;
pub use events::{
    CompanyAddressUpdated, CompanyAllocationUpdated, DuelCreated, DuelDecided, DuelJoined,
    DuelStarted, PoolAddressUpdated, PoolAllocationUpdated, TokenMintUpdated,
};
pub use rewards::{split_rewards, RewardSplit};
pub use state::{
    initialize, update_company_address, update_company_allocation, update_pool_address,
    update_pool_allocation, update_token_mint, State,
};
pub use duel::{create_duel, join_duel, Duel, DuelStatus};
pub use vault::EscrowVault;
pub use lifecycle::{distribute_rewards, start_duel};
