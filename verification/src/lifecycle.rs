//! Starting a duel, which takes both stakes into the vault, and deciding it,
//! which pays the pot out.

use crate::address::Address;
use crate::duel::{Duel, DuelStatus};
use crate::error::CustomError;
use crate::events::{DuelDecided, DuelStarted};
use crate::rewards::{can_split, fee_share, pot, reward_share, split_rewards, RewardSplit};
use crate::state::State;
use crate::vault::{EscrowVault, VaultView};
use vstd::prelude::*;

verus! {

/// Why a duel cannot be started, if it cannot: it is not joined, the vault is
/// not the one that the configuration's capability opens, the host's stake
/// cannot move into the vault, the joiner's stake cannot; the first of these
/// that holds.
pub open spec fn start_refusal(state: State, duel: Duel, vault: VaultView) -> Option<CustomError> {
    let wager = duel.wager_amount as nat;
    if duel.status != DuelStatus::Joined {
        Some(CustomError::DuelNotReady)
    } else if state.vault_bump != vault.authority {
        Some(CustomError::Unauthorized)
    } else if vault.pull_in_refusal(duel.host, wager) is Some {
        vault.pull_in_refusal(duel.host, wager)
    } else {
        vault.pull_in(duel.host, wager).pull_in_refusal(duel.joiner, wager)
    }
}

/// A duel once it has started.
pub open spec fn started(duel: Duel) -> Duel {
    Duel { status: DuelStatus::Active, ..duel }
}

/// The vault once both stakes of a duel have moved into it.
pub open spec fn staked(duel: Duel, vault: VaultView) -> VaultView {
    let wager = duel.wager_amount as nat;
    vault.pull_in(duel.host, wager).pull_in(duel.joiner, wager)
}

/// Starts a joined duel: the wager moves from the host into the vault, then
/// from the joiner, and the duel becomes active.
///
/// Both stakes move or neither does. Fails, and leaves the duel and the
/// vault as they are, with `DuelNotReady` unless the duel is joined, else
/// with `Unauthorized` unless the vault was opened with the configuration's
/// capability, else with the error of the first stake that cannot move:
/// `InsufficientFunds` where the participant holds less than the wager,
/// `ArithmeticOverflow` where the vault would hold more than 64 bits can
/// count.
pub fn start_duel(state: &State, duel: &mut Duel, vault: &mut EscrowVault) -> (result: Result<
    DuelStarted,
    CustomError,
>)
    ensures
        match start_refusal(*state, *old(duel), old(vault)@) {
            Some(error) => {
                &&& result == Err::<DuelStarted, CustomError>(error)
                &&& *final(duel) == *old(duel)
                &&& final(vault)@ == old(vault)@
            },
            None => {
                &&& result == Ok::<DuelStarted, CustomError>(
                    (DuelStarted { duel_id: old(duel).id, owner: old(duel).host }),
                )
                &&& *final(duel) == started(*old(duel))
                &&& final(vault)@ == staked(*old(duel), old(vault)@)
            },
        },
        result is Err ==> *final(duel) == *old(duel) && final(vault)@ == old(vault)@,
        old(duel).wf() ==> final(duel).wf(),
        final(vault)@.custody - old(vault)@.custody == final(duel).escrowed() - old(
            duel,
        ).escrowed(),
{
    match duel.status {
        DuelStatus::Joined => {},
        _ => {
            return Err(CustomError::DuelNotReady);
        },
    }
    if state.vault_bump != vault.authority() {
        return Err(CustomError::Unauthorized);
    }
    let mut funded = vault.duplicate();
    match funded.pull_in(duel.host, duel.wager_amount) {
        Ok(()) => {},
        Err(error) => {
            return Err(error);
        },
    }
    match funded.pull_in(duel.joiner, duel.wager_amount) {
        Ok(()) => {},
        Err(error) => {
            return Err(error);
        },
    }
    *vault = funded;
    duel.status = DuelStatus::Active;
    Ok(DuelStarted { duel_id: duel.id, owner: duel.host })
}

/// Why a duel cannot be decided for `winner` at the call of `caller`, before
/// any payment is tried: it is not active, the winner is neither its host nor
/// its joiner, the caller is not the owner, the pot cannot be divided; the
/// first of these that holds.
pub open spec fn decide_refusal(state: State, duel: Duel, caller: Address, winner: Address) -> Option<
    CustomError,
> {
    if duel.status != DuelStatus::Active {
        Some(CustomError::DuelNotActive)
    } else if winner != duel.host && winner != duel.joiner {
        Some(CustomError::InvalidWinner)
    } else if caller != state.owner {
        Some(CustomError::Unauthorized)
    } else if !can_split(
        duel.wager_amount as nat,
        state.company_percentage as nat,
        state.pool_percentage as nat,
    ) {
        Some(CustomError::ArithmeticOverflow)
    } else {
        None
    }
}

/// The winner's part of the pot of a duel.
pub open spec fn reward_of(state: State, duel: Duel) -> nat {
    reward_share(
        pot(duel.wager_amount as nat),
        state.company_percentage as nat,
        state.pool_percentage as nat,
    ) as nat
}

/// The company's fee on the pot of a duel.
pub open spec fn company_fee_of(state: State, duel: Duel) -> nat {
    fee_share(pot(duel.wager_amount as nat), state.company_percentage as nat)
}

/// The pool's fee on the pot of a duel.
pub open spec fn pool_fee_of(state: State, duel: Duel) -> nat {
    fee_share(pot(duel.wager_amount as nat), state.pool_percentage as nat)
}

/// The vault once the winner has been paid.
pub open spec fn winner_paid(state: State, duel: Duel, vault: VaultView, winner: Address) -> VaultView {
    vault.push_out(state.vault_bump, winner, reward_of(state, duel))
}

/// The vault once the winner and the company have been paid.
pub open spec fn company_paid(state: State, duel: Duel, vault: VaultView, winner: Address) -> VaultView {
    winner_paid(state, duel, vault, winner).push_out(
        state.vault_bump,
        state.company,
        company_fee_of(state, duel),
    )
}

/// The vault once the winner, the company and the pool have been paid.
pub open spec fn paid_out(state: State, duel: Duel, vault: VaultView, winner: Address) -> VaultView {
    company_paid(state, duel, vault, winner).push_out(
        state.vault_bump,
        state.pool,
        pool_fee_of(state, duel),
    )
}

/// Why the pot of a duel cannot be paid out, if it cannot: the error of the
/// first of the three payments, to the winner, to the company, to the pool,
/// that is refused.
pub open spec fn payout_refusal(state: State, duel: Duel, vault: VaultView, winner: Address) -> Option<
    CustomError,
> {
    let to_winner = vault.push_out_refusal(state.vault_bump, winner, reward_of(state, duel));
    let to_company = winner_paid(state, duel, vault, winner).push_out_refusal(
        state.vault_bump,
        state.company,
        company_fee_of(state, duel),
    );
    let to_pool = company_paid(state, duel, vault, winner).push_out_refusal(
        state.vault_bump,
        state.pool,
        pool_fee_of(state, duel),
    );
    if to_winner is Some {
        to_winner
    } else if to_company is Some {
        to_company
    } else {
        to_pool
    }
}

/// Why a duel cannot be decided, if it cannot: what `decide_refusal` says,
/// else what `payout_refusal` says.
pub open spec fn distribute_refusal(
    state: State,
    duel: Duel,
    vault: VaultView,
    caller: Address,
    winner: Address,
) -> Option<CustomError> {
    if decide_refusal(state, duel, caller, winner) is Some {
        decide_refusal(state, duel, caller, winner)
    } else {
        payout_refusal(state, duel, vault, winner)
    }
}

/// A duel once it has been decided for `winner`.
pub open spec fn decided(duel: Duel, winner: Address) -> Duel {
    Duel { status: DuelStatus::Completed, winner, ..duel }
}

/// Decides an active duel for `winner` and pays the pot out of the vault:
/// the reward to the winner, then the company's fee to the company's
/// address, then the pool's fee to the pool's address. The duel becomes
/// completed and records its winner.
///
/// All three payments are made or none is. Fails, and leaves the duel and
/// the vault as they are, with `DuelNotActive` unless the duel is active,
/// else with `InvalidWinner` unless the winner is the host or the joiner,
/// else with `Unauthorized` unless `caller` is the configuration's owner,
/// else with `ArithmeticOverflow` where twice the wager does not fit in 64
/// bits or the fees exceed the pot, else with the error of the first payment
/// that the vault refuses.
pub fn distribute_rewards(
    state: &State,
    duel: &mut Duel,
    vault: &mut EscrowVault,
    caller: Address,
    winner: Address,
) -> (result: Result<(DuelDecided, RewardSplit), CustomError>)
    ensures
        match distribute_refusal(*state, *old(duel), old(vault)@, caller, winner) {
            Some(error) => {
                &&& result == Err::<(DuelDecided, RewardSplit), CustomError>(error)
                &&& *final(duel) == *old(duel)
                &&& final(vault)@ == old(vault)@
            },
            None => {
                &&& result matches Ok((event, split))
                &&& event == (DuelDecided { duel_id: old(duel).id, winner_id: winner })
                &&& split.divides(
                    old(duel).wager_amount as nat,
                    state.company_percentage as nat,
                    state.pool_percentage as nat,
                )
                &&& *final(duel) == decided(*old(duel), winner)
                &&& final(vault)@ == paid_out(*state, *old(duel), old(vault)@, winner)
            },
        },
        result is Err ==> *final(duel) == *old(duel) && final(vault)@ == old(vault)@,
        old(duel).status != DuelStatus::Active ==> result == Err::<
            (DuelDecided, RewardSplit),
            CustomError,
        >(CustomError::DuelNotActive),
        winner != old(duel).host && winner != old(duel).joiner ==> result is Err,
        old(duel).status == DuelStatus::Active && winner != old(duel).host && winner != old(
            duel,
        ).joiner ==> result == Err::<(DuelDecided, RewardSplit), CustomError>(
            CustomError::InvalidWinner,
        ),
        old(duel).wf() ==> final(duel).wf(),
        final(vault)@.custody - old(vault)@.custody == final(duel).escrowed() - old(
            duel,
        ).escrowed(),
{
    match duel.status {
        DuelStatus::Active => {},
        _ => {
            return Err(CustomError::DuelNotActive);
        },
    }
    if !(winner == duel.host || winner == duel.joiner) {
        return Err(CustomError::InvalidWinner);
    }
    if !state.is_owner(&caller) {
        return Err(CustomError::Unauthorized);
    }
    let split = match split_rewards(
        duel.wager_amount,
        state.company_percentage,
        state.pool_percentage,
    ) {
        Ok(split) => split,
        Err(error) => {
            return Err(error);
        },
    };
    let mut paying = vault.duplicate();
    match paying.push_out(state.vault_bump, winner, split.reward_amount) {
        Ok(()) => {},
        Err(error) => {
            return Err(error);
        },
    }
    match paying.push_out(state.vault_bump, state.company, split.company_amount) {
        Ok(()) => {},
        Err(error) => {
            return Err(error);
        },
    }
    match paying.push_out(state.vault_bump, state.pool, split.pool_amount) {
        Ok(()) => {},
        Err(error) => {
            return Err(error);
        },
    }
    *vault = paying;
    duel.status = DuelStatus::Completed;
    duel.winner = winner;
    Ok((DuelDecided { duel_id: duel.id, winner_id: winner }, split))
}

} // verus!
