//! The records that successful operations hand back for the audit trail.

use crate::address::Address;
use vstd::prelude::*;

verus! {

/// A duel was created; `owner` is its host.
#[derive(Clone, Copy, Debug, PartialEq, Eq)]
pub struct DuelCreated {
    pub duel_id: u64,
    pub owner: Address,
}

/// A duel was joined; `owner` is its joiner.
#[derive(Clone, Copy, Debug, PartialEq, Eq)]
pub struct DuelJoined {
    pub duel_id: u64,
    pub owner: Address,
}

/// A duel was started; `owner` is its host.
#[derive(Clone, Copy, Debug, PartialEq, Eq)]
pub struct DuelStarted {
    pub duel_id: u64,
    pub owner: Address,
}

/// A duel was decided in favour of `winner_id`.
#[derive(Clone, Copy, Debug, PartialEq, Eq)]
pub struct DuelDecided {
    pub duel_id: u64,
    pub winner_id: Address,
}

/// The company's fee percentage was replaced.
#[derive(Clone, Copy, Debug, PartialEq, Eq)]
pub struct CompanyAllocationUpdated {
    pub old_company_percentage: u8,
    pub new_company_percentage: u8,
}

/// The pool's fee percentage was replaced.
#[derive(Clone, Copy, Debug, PartialEq, Eq)]
pub struct PoolAllocationUpdated {
    pub old_pool_percentage: u8,
    pub new_pool_percentage: u8,
}

/// The company's address was replaced.
#[derive(Clone, Copy, Debug, PartialEq, Eq)]
pub struct CompanyAddressUpdated {
    pub old_company_address: Address,
    pub new_company_address: Address,
}

/// The pool's address was replaced.
#[derive(Clone, Copy, Debug, PartialEq, Eq)]
pub struct PoolAddressUpdated {
    pub old_pool_address: Address,
    pub new_pool_address: Address,
}

/// The wagered asset was replaced.
#[derive(Clone, Copy, Debug, PartialEq, Eq)]
pub struct TokenMintUpdated {
    pub old_token_mint: Address,
    pub new_token_mint: Address,
}

} // verus!
