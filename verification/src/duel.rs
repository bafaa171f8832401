//! Duels: their records, how one is created and how it is joined.

use crate::address::Address;
use crate::error::CustomError;
use crate::events::{DuelCreated, DuelJoined};
use crate::state::State;
use vstd::prelude::*;

verus! {

/// Where a duel stands in its life. A duel only ever moves to the next
/// status: `Pending`, `Joined`, `Active`, `Completed`.
#[derive(Clone, Copy, Debug, PartialEq, Eq, Structural)]
pub enum DuelStatus {
    /// Created; waiting for a second participant.
    Pending,
    /// Both participants are known; no funds have moved.
    Joined,
    /// Both stakes are in the vault.
    Active,
    /// The pot has been paid out.
    Completed,
}

impl DuelStatus {
    /// The place of this status in the order of a duel's life, from 0.
    pub open spec fn rank(self) -> nat {
        match self {
            DuelStatus::Pending => 0,
            DuelStatus::Joined => 1,
            DuelStatus::Active => 2,
            DuelStatus::Completed => 3,
        }
    }
}

/// One wagering session between two participants.
#[derive(Clone, Copy, Debug, PartialEq, Eq)]
pub struct Duel {
    /// The duel's identifier: the count of duels when it was created.
    pub id: u64,
    /// Who created the duel.
    pub host: Address,
    /// Who joined it; the default address until someone has.
    pub joiner: Address,
    /// The stake of each participant.
    pub wager_amount: u64,
    /// Where the duel stands.
    pub status: DuelStatus,
    /// Who won; the default address until the duel is completed.
    pub winner: Address,
    /// When the duel was created, in seconds.
    pub start_time: u64,
    /// The bump of the duel's record.
    pub bump: u8,
}

impl Duel {
    /// What creation establishes and every operation keeps.
    pub open spec fn wf(&self) -> bool {
        &&& self.id > 0
        &&& self.wager_amount > 0
        &&& self.status == DuelStatus::Pending ==> self.joiner.unset()
        &&& self.status != DuelStatus::Pending ==> self.joiner != self.host
        &&& self.status != DuelStatus::Completed ==> self.winner.unset()
        &&& self.status == DuelStatus::Completed ==> self.winner == self.host || self.winner
            == self.joiner
    }

    /// The funds in the vault that belong to this duel: both stakes while it
    /// is active, nothing before and nothing after.
    pub open spec fn escrowed(&self) -> nat {
        if self.status == DuelStatus::Active {
            2 * (self.wager_amount as nat)
        } else {
            0
        }
    }
}

/// A signed count of seconds as the unsigned one that a duel holds: itself
/// where it is not negative, else itself plus 2 to the power 64.
pub open spec fn seconds(unix_timestamp: i64) -> u64 {
    if unix_timestamp >= 0 {
        unix_timestamp as u64
    } else {
        (unix_timestamp + 0x1_0000_0000_0000_0000) as u64
    }
}

/// Reads a signed count of seconds as an unsigned one, keeping its 64 bits.
fn to_seconds(unix_timestamp: i64) -> (start_time: u64)
    ensures
        start_time == seconds(unix_timestamp),
{
    if unix_timestamp >= 0 {
        unix_timestamp as u64
    } else {
        let below: u64 = (-(unix_timestamp + 1)) as u64;
        u64::MAX - below
    }
}

/// Why a duel cannot be created, if it cannot: a zero wager, a host whose
/// balance is less than the wager, a counter that is full; the first of
/// these that holds.
pub open spec fn create_refusal(state: State, host_balance: u64, wager_amount: u64) -> Option<
    CustomError,
> {
    if wager_amount == 0 {
        Some(CustomError::MinimumBetRequired)
    } else if host_balance < wager_amount {
        Some(CustomError::InsufficientFunds)
    } else if state.duel_count == u64::MAX {
        Some(CustomError::ArithmeticOverflow)
    } else {
        None
    }
}

/// The duel that creation yields.
pub open spec fn created(
    id: u64,
    host: Address,
    wager_amount: u64,
    unix_timestamp: i64,
    bump: u8,
    duel: Duel,
) -> bool {
    &&& duel.id == id
    &&& duel.host == host
    &&& duel.joiner.unset()
    &&& duel.wager_amount == wager_amount
    &&& duel.status == DuelStatus::Pending
    &&& duel.winner.unset()
    &&& duel.start_time == seconds(unix_timestamp)
    &&& duel.bump == bump
}

/// `after` is `before` with one more duel counted, and `duel` is that duel.
pub open spec fn counted(before: State, after: State, duel: Duel) -> bool {
    &&& before.duel_count < u64::MAX
    &&& after == (State { duel_count: (before.duel_count + 1) as u64, ..before })
    &&& duel.id == after.duel_count
}

/// Creates a pending duel for `host` and counts it: the duel's identifier is
/// the new count of duels, one more than before.
///
/// `host_balance` is what the host holds of the wagered asset and
/// `unix_timestamp` the time of the call. Fails, and counts nothing, with
/// `MinimumBetRequired` where the wager is zero, else with
/// `InsufficientFunds` where the host's balance is less than the wager, else
/// with `ArithmeticOverflow` where the count of duels is already the largest
/// that 64 bits hold.
pub fn create_duel(
    state: &mut State,
    host: Address,
    host_balance: u64,
    wager_amount: u64,
    unix_timestamp: i64,
    bump: u8,
) -> (result: Result<(Duel, DuelCreated), CustomError>)
    ensures
        match create_refusal(*old(state), host_balance, wager_amount) {
            Some(error) => result == Err::<(Duel, DuelCreated), CustomError>(error) && *final(state)
                == *old(state),
            None => {
                &&& result matches Ok((duel, event))
                &&& created(
                    (old(state).duel_count + 1) as u64,
                    host,
                    wager_amount,
                    unix_timestamp,
                    bump,
                    duel,
                )
                &&& duel.wf()
                &&& event == (DuelCreated { duel_id: duel.id, owner: host })
                &&& *final(state) == (State { duel_count: duel.id, ..*old(state) })
            },
        },
        result matches Ok((duel, _)) ==> counted(*old(state), *final(state), duel),
        old(state).wf() ==> final(state).wf(),
{
    if wager_amount == 0 {
        return Err(CustomError::MinimumBetRequired);
    }
    if host_balance < wager_amount {
        return Err(CustomError::InsufficientFunds);
    }
    let id: u64 = match state.duel_count.checked_add(1) {
        Some(id) => id,
        None => {
            return Err(CustomError::ArithmeticOverflow);
        },
    };
    state.duel_count = id;
    let duel = Duel {
        id,
        host,
        joiner: Address::default(),
        wager_amount,
        status: DuelStatus::Pending,
        winner: Address::default(),
        start_time: to_seconds(unix_timestamp),
        bump,
    };
    Ok((duel, DuelCreated { duel_id: id, owner: host }))
}

/// Why a duel cannot be joined, if it cannot: it is not pending, the joiner
/// is its host, the joiner's balance is less than the wager; the first of
/// these that holds.
pub open spec fn join_refusal(duel: Duel, joiner: Address, joiner_balance: u64) -> Option<
    CustomError,
> {
    if duel.status != DuelStatus::Pending {
        Some(CustomError::DuelNotOpen)
    } else if joiner == duel.host {
        Some(CustomError::CannotPlayAgainstSelf)
    } else if joiner_balance < duel.wager_amount {
        Some(CustomError::InsufficientFunds)
    } else {
        None
    }
}

/// A duel once `joiner` has joined it.
pub open spec fn joined(duel: Duel, joiner: Address) -> Duel {
    Duel { status: DuelStatus::Joined, joiner, ..duel }
}

/// Lets `joiner` join a pending duel. No funds move.
///
/// `joiner_balance` is what the joiner holds of the wagered asset. Fails,
/// and leaves the duel as it is, with `DuelNotOpen` unless the duel is
/// pending, else with `CannotPlayAgainstSelf` where the joiner is the host,
/// else with `InsufficientFunds` where the joiner's balance is less than
/// the wager.
pub fn join_duel(duel: &mut Duel, joiner: Address, joiner_balance: u64) -> (result: Result<
    DuelJoined,
    CustomError,
>)
    ensures
        match join_refusal(*old(duel), joiner, joiner_balance) {
            Some(error) => result == Err::<DuelJoined, CustomError>(error) && *final(duel) == *old(
                duel,
            ),
            None => {
                &&& result == Ok::<DuelJoined, CustomError>(
                    (DuelJoined { duel_id: old(duel).id, owner: joiner }),
                )
                &&& *final(duel) == joined(*old(duel), joiner)
            },
        },
        old(duel).status != DuelStatus::Pending ==> result == Err::<DuelJoined, CustomError>(
            CustomError::DuelNotOpen,
        ) && *final(duel) == *old(duel),
        old(duel).wf() ==> final(duel).wf(),
{
    match duel.status {
        DuelStatus::Pending => {},
        _ => {
            return Err(CustomError::DuelNotOpen);
        },
    }
    if joiner == duel.host {
        return Err(CustomError::CannotPlayAgainstSelf);
    }
    if joiner_balance < duel.wager_amount {
        return Err(CustomError::InsufficientFunds);
    }
    duel.status = DuelStatus::Joined;
    duel.joiner = joiner;
    Ok(DuelJoined { duel_id: duel.id, owner: joiner })
}

} // verus!
