//! What holds of every run of the operations.

use crate::address::Address;
use crate::duel::{join_refusal, joined, counted, Duel, DuelStatus};
use crate::lifecycle::{
    company_fee_of, company_paid, decided, distribute_refusal, paid_out, payout_refusal,
    pool_fee_of, reward_of, staked, start_refusal, started, winner_paid,
};
use crate::rewards::pot;
use crate::state::State;
use crate::vault::VaultView;
use vstd::prelude::*;

verus! {

/// Identifiers count up without gaps. Where each configuration in a run
/// comes from the one before it by the creation of one duel, the duels'
/// identifiers are the numbers that follow the first configuration's count,
/// in order: from a new configuration, 1, 2, 3 and so on. So no two duels
/// of a run share an identifier.
pub proof fn lemma_identifiers_count_up(states: Seq<State>, duels: Seq<Duel>)
    requires
        states.len() == duels.len() + 1,
        forall|k: int|
            0 <= k < duels.len() ==> counted(states[k], #[trigger] states[k + 1], duels[k]),
    ensures
        forall|k: int|
            0 <= k < duels.len() ==> (#[trigger] duels[k]).id == states[0].duel_count + k + 1,
        forall|i: int, j: int|
            0 <= i < j < duels.len() ==> (#[trigger] duels[i]).id < (#[trigger] duels[j]).id,
    decreases duels.len(),
{
    if duels.len() > 0 {
        let n = duels.len() - 1;
        lemma_identifiers_count_up(states.drop_last(), duels.drop_last());
        assert forall|k: int| 0 <= k < duels.len() implies (#[trigger] duels[k]).id
            == states[0].duel_count + k + 1 by {
            if k < n {
                assert(duels.drop_last()[k] == duels[k]);
                assert(states.drop_last()[0] == states[0]);
            } else {
                assert(counted(states[n], states[n + 1], duels[n]));
                if n > 0 {
                    assert(duels.drop_last()[n - 1] == duels[n - 1]);
                    assert(states.drop_last()[0] == states[0]);
                    assert(counted(states[n - 1], states[n - 1 + 1], duels[n - 1]));
                }
            }
        }
    }
}

/// One operation on a duel takes it from `before` to `after`: the operation
/// is refused and changes nothing, or the duel is joined, started or
/// decided.
pub open spec fn steps(before: Duel, after: Duel) -> bool {
    ||| after == before
    ||| exists|joiner: Address, balance: u64| #[trigger]
        join_refusal(before, joiner, balance) is None && after == joined(before, joiner)
    ||| exists|state: State, vault: VaultView| #[trigger]
        start_refusal(state, before, vault) is None && after == started(before)
    ||| exists|state: State, vault: VaultView, caller: Address, winner: Address| #[trigger]
        distribute_refusal(state, before, vault, caller, winner) is None && after == decided(
            before,
            winner,
        )
}

/// An operation leaves the status of a duel as it is or moves it to the
/// next one, and changes nothing of a completed duel.
pub proof fn lemma_step_moves_forward(before: Duel, after: Duel)
    requires
        steps(before, after),
    ensures
        after.status.rank() == before.status.rank() || after.status.rank() == before.status.rank()
            + 1,
        before.status == DuelStatus::Completed ==> after == before,
        after.id == before.id,
        after.host == before.host,
        after.wager_amount == before.wager_amount,
{
}

/// Some record of `history`, no later than the one at `upto`, has the status
/// of this rank.
pub open spec fn reached(history: Seq<Duel>, upto: int, rank: nat) -> bool {
    exists|i: int|
        0 <= i <= upto && i < history.len() && (#[trigger] history[i]).status.rank() == rank
}

/// The status of a duel never goes back and never skips: over any run of
/// operations it rises by at most one per operation, and every status
/// between the first and the last was held on the way.
pub proof fn lemma_status_never_regresses(history: Seq<Duel>)
    requires
        history.len() > 0,
        forall|k: int|
            0 <= k < history.len() - 1 ==> steps(history[k], #[trigger] history[k + 1]),
    ensures
        forall|i: int, j: int|
            0 <= i <= j < history.len() ==> (#[trigger] history[i]).status.rank() <= (
            #[trigger] history[j]).status.rank() <= history[i].status.rank() + (j - i),
        forall|j: int, rank: nat|
            0 <= j < history.len() && history[0].status.rank() <= rank
                <= history[j].status.rank() ==> #[trigger] reached(history, j, rank),
    decreases history.len(),
{
    if history.len() > 1 {
        let n = history.len() - 1;
        let earlier = history.drop_last();
        assert forall|k: int| 0 <= k < earlier.len() - 1 implies steps(
            earlier[k],
            #[trigger] earlier[k + 1],
        ) by {
            assert(steps(history[k], history[k + 1]));
        }
        lemma_status_never_regresses(earlier);
        assert(steps(history[n - 1], history[n - 1 + 1]));
        lemma_step_moves_forward(history[n - 1], history[n]);
        assert forall|i: int, j: int| 0 <= i <= j < history.len() implies (
        #[trigger] history[i]).status.rank() <= (#[trigger] history[j]).status.rank()
            <= history[i].status.rank() + (j - i) by {
            if j < n {
                assert(earlier[i] == history[i]);
                assert(earlier[j] == history[j]);
            } else if i < n {
                assert(earlier[i] == history[i]);
                assert(earlier[n - 1] == history[n - 1]);
            }
        }
        assert forall|j: int, rank: nat|
            0 <= j < history.len() && history[0].status.rank() <= rank
                <= history[j].status.rank() implies #[trigger] reached(history, j, rank) by {
            assert(earlier[0] == history[0]);
            if j < n {
                assert(earlier[j] == history[j]);
                assert(reached(earlier, j, rank));
                let i = choose|i: int|
                    0 <= i <= j && i < earlier.len() && (#[trigger] earlier[i]).status.rank()
                        == rank;
                assert(history[i] == earlier[i]);
            } else if rank == history[n].status.rank() {
                assert(history[n].status.rank() == rank);
            } else {
                assert(earlier[n - 1] == history[n - 1]);
                assert(reached(earlier, n - 1, rank));
                let i = choose|i: int|
                    0 <= i <= n - 1 && i < earlier.len() && (#[trigger] earlier[i]).status.rank()
                        == rank;
                assert(history[i] == earlier[i]);
            }
        }
    } else {
        assert forall|j: int, rank: nat|
            0 <= j < history.len() && history[0].status.rank() <= rank
                <= history[j].status.rank() implies #[trigger] reached(history, j, rank) by {
            assert(history[0].status.rank() == rank);
        }
    }
}

/// What the start of a duel takes from `who`: the wager if it is the host,
/// the wager if it is the joiner, twice the wager where it is both.
pub open spec fn stake(duel: Duel, who: Address) -> nat {
    (if who == duel.host {
        duel.wager_amount as nat
    } else {
        0
    }) + (if who == duel.joiner {
        duel.wager_amount as nat
    } else {
        0
    })
}

/// A start that is not refused puts both stakes, twice the wager, into the
/// vault and takes from each participant's balance exactly its stake; every
/// other balance stays.
pub proof fn lemma_start_stakes(state: State, duel: Duel, vault: VaultView)
    requires
        start_refusal(state, duel, vault) is None,
    ensures
        staked(duel, vault).custody == vault.custody + pot(duel.wager_amount as nat),
        forall|who: Address| #[trigger]
            staked(duel, vault).balances[who] + stake(duel, who) == vault.balances[who],
{
    let wager = duel.wager_amount as nat;
    assert(vault.pull_in_refusal(duel.host, wager) is None);
    assert(vault.pull_in(duel.host, wager).pull_in_refusal(duel.joiner, wager) is None);
}

/// What a payout hands to `who`: the reward if it is the winner, the
/// company's fee if it is the company, the pool's fee if it is the pool, and
/// the sum of these where it is more than one of them.
pub open spec fn credit(state: State, duel: Duel, winner: Address, who: Address) -> nat {
    (if who == winner {
        reward_of(state, duel)
    } else {
        0
    }) + (if who == state.company {
        company_fee_of(state, duel)
    } else {
        0
    }) + (if who == state.pool {
        pool_fee_of(state, duel)
    } else {
        0
    })
}

/// A payout that is not refused takes the pot, twice the wager, out of the
/// vault and adds to each party's balance exactly what is due to it; every
/// other balance stays.
pub proof fn lemma_payout_credits(
    state: State,
    duel: Duel,
    vault: VaultView,
    caller: Address,
    winner: Address,
)
    requires
        distribute_refusal(state, duel, vault, caller, winner) is None,
    ensures
        paid_out(state, duel, vault, winner).custody + pot(duel.wager_amount as nat)
            == vault.custody,
        forall|who: Address| #[trigger]
            paid_out(state, duel, vault, winner).balances[who] == vault.balances[who] + credit(
                state,
                duel,
                winner,
                who,
            ),
        reward_of(state, duel) + company_fee_of(state, duel) + pool_fee_of(state, duel) == pot(
            duel.wager_amount as nat,
        ),
{
    assert(payout_refusal(state, duel, vault, winner) is None);
    let first = winner_paid(state, duel, vault, winner);
    let second = company_paid(state, duel, vault, winner);
    assert(vault.push_out_refusal(state.vault_bump, winner, reward_of(state, duel)) is None);
    assert(first.push_out_refusal(state.vault_bump, state.company, company_fee_of(state, duel))
        is None);
    assert(second.push_out_refusal(state.vault_bump, state.pool, pool_fee_of(state, duel))
        is None);
}

} // verus!
