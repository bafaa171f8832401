//! The configuration shared by all duels, and the operations that its owner
//! alone may perform on it.

use crate::address::Address;
use crate::error::CustomError;
use crate::events::{
    CompanyAddressUpdated, CompanyAllocationUpdated, PoolAddressUpdated, PoolAllocationUpdated,
    TokenMintUpdated,
};
use vstd::prelude::*;

verus! {

/// The largest fee percentage.
pub const MAX_PERCENTAGE: u8 = 100;

/// The one configuration record.
#[derive(Clone, Copy, Debug, PartialEq, Eq)]
pub struct State {
    /// Who may change the configuration and declare winners.
    pub owner: Address,
    /// How many duels were created; the last one's identifier.
    pub duel_count: u64,
    /// The company's fee, in per cent of the pot.
    pub company_percentage: u8,
    /// The pool's fee, in per cent of the pot.
    pub pool_percentage: u8,
    /// Who receives the company's fee.
    pub company: Address,
    /// Who receives the pool's fee.
    pub pool: Address,
    /// The asset in which all duels are wagered.
    pub token_mint: Address,
    /// The capability under which funds leave the vault.
    pub vault_bump: u8,
}

/// A percentage that an update accepts: more than 0 and at most 100.
pub open spec fn is_allocation(percentage: u8) -> bool {
    0 < percentage <= 100
}

impl State {
    /// What creation establishes and every operation keeps: the company's fee
    /// is at most 100 per cent.
    ///
    /// Nothing bounds the pool's fee at creation, and nothing bounds the two
    /// fees together; see `fees_fit`.
    pub open spec fn wf(&self) -> bool {
        self.company_percentage <= 100
    }

    /// The two fees together are at most 100 per cent, so that every pot
    /// covers them. No operation enforces this: a configuration may leave it,
    /// and rewards are then refused where the fees exceed the pot.
    pub open spec fn fees_fit(&self) -> bool {
        self.company_percentage + self.pool_percentage <= 100
    }

    /// Tells whether `caller` is the owner of this configuration.
    pub fn is_owner(&self, caller: &Address) -> (allowed: bool)
        ensures
            allowed == (*caller == self.owner),
    {
        *caller == self.owner
    }
}

/// Creates the configuration, with no duel counted yet.
///
/// Fails with `InvalidFeePercentage` where the company's percentage is over
/// 100. The pool's percentage is taken as it is.
pub fn initialize(
    owner: Address,
    company_percentage: u8,
    pool_percentage: u8,
    company: Address,
    pool: Address,
    token_mint: Address,
    vault_bump: u8,
) -> (result: Result<State, CustomError>)
    ensures
        company_percentage > 100 ==> result == Err::<State, CustomError>(
            CustomError::InvalidFeePercentage,
        ),
        company_percentage <= 100 ==> result == Ok::<State, CustomError>(
            (State {
                owner,
                duel_count: 0,
                company_percentage,
                pool_percentage,
                company,
                pool,
                token_mint,
                vault_bump,
            }),
        ),
        result matches Ok(state) ==> state.wf(),
{
    if company_percentage > MAX_PERCENTAGE {
        return Err(CustomError::InvalidFeePercentage);
    }
    Ok(
        State {
            owner,
            duel_count: 0,
            company_percentage,
            pool_percentage,
            company,
            pool,
            token_mint,
            vault_bump,
        },
    )
}

/// Replaces the company's fee percentage and reports the old and the new one.
///
/// Fails with `Unauthorized` unless `caller` is the owner, else with
/// `InvalidFeePercentage` unless the new percentage is more than 0 and at
/// most 100.
pub fn update_company_allocation(
    state: &mut State,
    caller: Address,
    new_company_percentage: u8,
) -> (result: Result<CompanyAllocationUpdated, CustomError>)
    ensures
        caller != old(state).owner ==> result == Err::<CompanyAllocationUpdated, CustomError>(
            CustomError::Unauthorized,
        ),
        caller == old(state).owner && !is_allocation(new_company_percentage) ==> result == Err::<
            CompanyAllocationUpdated,
            CustomError,
        >(CustomError::InvalidFeePercentage),
        caller == old(state).owner && is_allocation(new_company_percentage) ==> result == Ok::<
            CompanyAllocationUpdated,
            CustomError,
        >(
            (CompanyAllocationUpdated {
                old_company_percentage: old(state).company_percentage,
                new_company_percentage,
            }),
        ),
        result is Ok ==> *final(state) == (State {
            company_percentage: new_company_percentage,
            ..*old(state)
        }),
        result is Err ==> *final(state) == *old(state),
        old(state).wf() ==> final(state).wf(),
{
    if !state.is_owner(&caller) {
        return Err(CustomError::Unauthorized);
    }
    if !(new_company_percentage > 0 && new_company_percentage <= MAX_PERCENTAGE) {
        return Err(CustomError::InvalidFeePercentage);
    }
    let old_company_percentage = state.company_percentage;
    state.company_percentage = new_company_percentage;
    Ok(CompanyAllocationUpdated { old_company_percentage, new_company_percentage })
}

/// Replaces the pool's fee percentage and reports the old and the new one.
///
/// Fails with `Unauthorized` unless `caller` is the owner, else with
/// `InvalidFeePercentage` unless the new percentage is more than 0 and at
/// most 100.
pub fn update_pool_allocation(state: &mut State, caller: Address, new_pool_percentage: u8) -> (result:
    Result<PoolAllocationUpdated, CustomError>)
    ensures
        caller != old(state).owner ==> result == Err::<PoolAllocationUpdated, CustomError>(
            CustomError::Unauthorized,
        ),
        caller == old(state).owner && !is_allocation(new_pool_percentage) ==> result == Err::<
            PoolAllocationUpdated,
            CustomError,
        >(CustomError::InvalidFeePercentage),
        caller == old(state).owner && is_allocation(new_pool_percentage) ==> result == Ok::<
            PoolAllocationUpdated,
            CustomError,
        >(
            (PoolAllocationUpdated {
                old_pool_percentage: old(state).pool_percentage,
                new_pool_percentage,
            }),
        ),
        result is Ok ==> *final(state) == (State {
            pool_percentage: new_pool_percentage,
            ..*old(state)
        }),
        result is Err ==> *final(state) == *old(state),
        old(state).wf() ==> final(state).wf(),
{
    if !state.is_owner(&caller) {
        return Err(CustomError::Unauthorized);
    }
    if !(new_pool_percentage > 0 && new_pool_percentage <= MAX_PERCENTAGE) {
        return Err(CustomError::InvalidFeePercentage);
    }
    let old_pool_percentage = state.pool_percentage;
    state.pool_percentage = new_pool_percentage;
    Ok(PoolAllocationUpdated { old_pool_percentage, new_pool_percentage })
}

/// Replaces the address that receives the company's fee and reports the old
/// and the new one.
///
/// Fails with `Unauthorized` unless `caller` is the owner, else with
/// `InvalidAddress` where the new address is the default one.
pub fn update_company_address(state: &mut State, caller: Address, new_company_address: Address) -> (result:
    Result<CompanyAddressUpdated, CustomError>)
    ensures
        caller != old(state).owner ==> result == Err::<CompanyAddressUpdated, CustomError>(
            CustomError::Unauthorized,
        ),
        caller == old(state).owner && new_company_address.unset() ==> result == Err::<
            CompanyAddressUpdated,
            CustomError,
        >(CustomError::InvalidAddress),
        caller == old(state).owner && !new_company_address.unset() ==> result == Ok::<
            CompanyAddressUpdated,
            CustomError,
        >(
            (CompanyAddressUpdated {
                old_company_address: old(state).company,
                new_company_address,
            }),
        ),
        result is Ok ==> *final(state) == (State { company: new_company_address, ..*old(state) }),
        result is Err ==> *final(state) == *old(state),
        old(state).wf() ==> final(state).wf(),
{
    if !state.is_owner(&caller) {
        return Err(CustomError::Unauthorized);
    }
    if new_company_address.is_default() {
        return Err(CustomError::InvalidAddress);
    }
    let old_company_address = state.company;
    state.company = new_company_address;
    Ok(CompanyAddressUpdated { old_company_address, new_company_address })
}

/// Replaces the address that receives the pool's fee and reports the old and
/// the new one.
///
/// Fails with `Unauthorized` unless `caller` is the owner, else with
/// `InvalidAddress` where the new address is the default one.
pub fn update_pool_address(state: &mut State, caller: Address, new_pool_address: Address) -> (result:
    Result<PoolAddressUpdated, CustomError>)
    ensures
        caller != old(state).owner ==> result == Err::<PoolAddressUpdated, CustomError>(
            CustomError::Unauthorized,
        ),
        caller == old(state).owner && new_pool_address.unset() ==> result == Err::<
            PoolAddressUpdated,
            CustomError,
        >(CustomError::InvalidAddress),
        caller == old(state).owner && !new_pool_address.unset() ==> result == Ok::<
            PoolAddressUpdated,
            CustomError,
        >((PoolAddressUpdated { old_pool_address: old(state).pool, new_pool_address })),
        result is Ok ==> *final(state) == (State { pool: new_pool_address, ..*old(state) }),
        result is Err ==> *final(state) == *old(state),
        old(state).wf() ==> final(state).wf(),
{
    if !state.is_owner(&caller) {
        return Err(CustomError::Unauthorized);
    }
    if new_pool_address.is_default() {
        return Err(CustomError::InvalidAddress);
    }
    let old_pool_address = state.pool;
    state.pool = new_pool_address;
    Ok(PoolAddressUpdated { old_pool_address, new_pool_address })
}

/// Replaces the asset in which duels are wagered and reports the old and the
/// new one. Duels that exist are not touched.
///
/// Fails with `Unauthorized` unless `caller` is the owner, else with
/// `InvalidAddress` where the new asset is the default address.
pub fn update_token_mint(state: &mut State, caller: Address, new_token_mint: Address) -> (result:
    Result<TokenMintUpdated, CustomError>)
    ensures
        caller != old(state).owner ==> result == Err::<TokenMintUpdated, CustomError>(
            CustomError::Unauthorized,
        ),
        caller == old(state).owner && new_token_mint.unset() ==> result == Err::<
            TokenMintUpdated,
            CustomError,
        >(CustomError::InvalidAddress),
        caller == old(state).owner && !new_token_mint.unset() ==> result == Ok::<
            TokenMintUpdated,
            CustomError,
        >((TokenMintUpdated { old_token_mint: old(state).token_mint, new_token_mint })),
        result is Ok ==> *final(state) == (State { token_mint: new_token_mint, ..*old(state) }),
        result is Err ==> *final(state) == *old(state),
        old(state).wf() ==> final(state).wf(),
{
    if !state.is_owner(&caller) {
        return Err(CustomError::Unauthorized);
    }
    if new_token_mint.is_default() {
        return Err(CustomError::InvalidAddress);
    }
    let old_token_mint = state.token_mint;
    state.token_mint = new_token_mint;
    Ok(TokenMintUpdated { old_token_mint, new_token_mint })
}

} // verus!
