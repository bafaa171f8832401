//! The vault that holds the stakes of active duels, and the balances of the
//! parties around it.

use crate::address::Address;
use crate::error::CustomError;
use vstd::prelude::*;

verus! {

/// What one party holds of the wagered asset.
#[derive(Clone, Copy)]
struct Holding {
    owner: Address,
    amount: u64,
}

/// The vault as contracts see it.
#[verifier::ext_equal]
pub struct VaultView {
    /// The capability under which funds leave the vault.
    pub authority: u8,
    /// What the vault holds: the stakes of all active duels, pooled.
    pub custody: nat,
    /// What each party holds outside the vault; zero for a party that was
    /// never heard of.
    pub balances: Map<Address, nat>,
}

impl VaultView {
    /// Every address has a balance, and every amount fits in 64 bits.
    pub open spec fn wf(self) -> bool {
        &&& self.custody <= u64::MAX
        &&& forall|who: Address| #[trigger]
            self.balances.dom().contains(who) && self.balances[who] <= u64::MAX
    }

    /// This vault with the balance of `who` replaced.
    pub open spec fn with_balance(self, who: Address, amount: nat) -> VaultView {
        VaultView { balances: self.balances.insert(who, amount), ..self }
    }

    /// Why `amount` cannot move from `from` into the vault, if it cannot:
    /// `from` holds less, or the vault would hold more than 64 bits can
    /// count.
    pub open spec fn pull_in_refusal(self, from: Address, amount: nat) -> Option<CustomError> {
        if self.balances[from] < amount {
            Some(CustomError::InsufficientFunds)
        } else if self.custody + amount > u64::MAX {
            Some(CustomError::ArithmeticOverflow)
        } else {
            None
        }
    }

    /// This vault once `amount` has moved from `from` into it; itself where
    /// the move is refused.
    pub open spec fn pull_in(self, from: Address, amount: nat) -> VaultView {
        if self.pull_in_refusal(from, amount) is Some {
            self
        } else {
            VaultView {
                custody: self.custody + amount,
                balances: self.balances.insert(from, (self.balances[from] - amount) as nat),
                ..self
            }
        }
    }

    /// Why `amount` cannot move out of the vault to `to`, if it cannot: the
    /// capability presented is not the vault's, the vault holds less, or `to`
    /// would hold more than 64 bits can count.
    pub open spec fn push_out_refusal(self, capability: u8, to: Address, amount: nat) -> Option<
        CustomError,
    > {
        if capability != self.authority {
            Some(CustomError::Unauthorized)
        } else if self.custody < amount {
            Some(CustomError::InsufficientFunds)
        } else if self.balances[to] + amount > u64::MAX {
            Some(CustomError::ArithmeticOverflow)
        } else {
            None
        }
    }

    /// This vault once `amount` has moved out of it to `to`; itself where the
    /// move is refused.
    pub open spec fn push_out(self, capability: u8, to: Address, amount: nat) -> VaultView {
        if self.push_out_refusal(capability, to, amount) is Some {
            self
        } else {
            VaultView {
                custody: (self.custody - amount) as nat,
                balances: self.balances.insert(to, self.balances[to] + amount),
                ..self
            }
        }
    }
}

/// No party occurs twice among the holdings.
spec fn distinct_owners(holdings: Seq<Holding>) -> bool {
    forall|i: int, j: int|
        0 <= i < j < holdings.len() ==> (#[trigger] holdings[i]).owner != (
        #[trigger] holdings[j]).owner
}

/// `who` occurs among the holdings.
spec fn listed(holdings: Seq<Holding>, who: Address) -> bool {
    exists|i: int| 0 <= i < holdings.len() && (#[trigger] holdings[i]).owner == who
}

/// What `who` holds: the amount of its holding, zero if it has none.
spec fn held(holdings: Seq<Holding>, who: Address) -> nat {
    if listed(holdings, who) {
        let i = choose|i: int| 0 <= i < holdings.len() && (#[trigger] holdings[i]).owner == who;
        holdings[i].amount as nat
    } else {
        0
    }
}

/// Among holdings of distinct parties, a party holds what its holding says.
proof fn lemma_held_at(holdings: Seq<Holding>, i: int)
    requires
        distinct_owners(holdings),
        0 <= i < holdings.len(),
    ensures
        listed(holdings, holdings[i].owner),
        held(holdings, holdings[i].owner) == holdings[i].amount,
{
    let who = holdings[i].owner;
    assert(listed(holdings, who));
    let k = choose|k: int| 0 <= k < holdings.len() && (#[trigger] holdings[k]).owner == who;
    if k < i {
        assert(holdings[k].owner != holdings[i].owner);
    } else if i < k {
        assert(holdings[i].owner != holdings[k].owner);
    }
}

/// Replacing the amount of one holding changes what its party holds, and
/// nothing else.
proof fn lemma_held_after_update(holdings: Seq<Holding>, i: int, amount: u64, other: Address)
    requires
        distinct_owners(holdings),
        0 <= i < holdings.len(),
    ensures
        distinct_owners(holdings.update(i, Holding { owner: holdings[i].owner, amount })),
        held(holdings.update(i, Holding { owner: holdings[i].owner, amount }), other) == if other
            == holdings[i].owner {
            amount as nat
        } else {
            held(holdings, other)
        },
{
    let who = holdings[i].owner;
    let after = holdings.update(i, Holding { owner: who, amount });
    assert forall|a: int, b: int| 0 <= a < b < after.len() implies (#[trigger] after[a]).owner != (
    #[trigger] after[b]).owner by {
        assert(after[a].owner == holdings[a].owner);
        assert(after[b].owner == holdings[b].owner);
    }
    if other == who {
        lemma_held_at(after, i);
    } else if listed(holdings, other) {
        let k = choose|k: int| 0 <= k < holdings.len() && (#[trigger] holdings[k]).owner == other;
        assert(after[k] == holdings[k]);
        lemma_held_at(after, k);
    } else {
        if listed(after, other) {
            let k = choose|k: int| 0 <= k < after.len() && (#[trigger] after[k]).owner == other;
            assert(holdings[k].owner == other);
        }
    }
}

/// Adding a holding for a party that had none changes what that party holds,
/// and nothing else.
proof fn lemma_held_after_push(holdings: Seq<Holding>, who: Address, amount: u64, other: Address)
    requires
        distinct_owners(holdings),
        !listed(holdings, who),
    ensures
        distinct_owners(holdings.push(Holding { owner: who, amount })),
        held(holdings.push(Holding { owner: who, amount }), other) == if other == who {
            amount as nat
        } else {
            held(holdings, other)
        },
        held(holdings, who) == 0,
{
    let after = holdings.push(Holding { owner: who, amount });
    let last = holdings.len() as int;
    assert forall|a: int, b: int| 0 <= a < b < after.len() implies (#[trigger] after[a]).owner != (
    #[trigger] after[b]).owner by {
        if b == last {
            assert(after[a] == holdings[a]);
            assert(holdings[a].owner != who);
        } else {
            assert(after[a] == holdings[a]);
            assert(after[b] == holdings[b]);
        }
    }
    if other == who {
        assert(after[last].owner == who);
        lemma_held_at(after, last);
    } else if listed(holdings, other) {
        let k = choose|k: int| 0 <= k < holdings.len() && (#[trigger] holdings[k]).owner == other;
        assert(after[k] == holdings[k]);
        lemma_held_at(after, k);
    } else {
        if listed(after, other) {
            let k = choose|k: int| 0 <= k < after.len() && (#[trigger] after[k]).owner == other;
            assert(k != last);
            assert(holdings[k].owner == other);
        }
    }
}

/// Where the holding of `who` stands, if it has one.
fn position(holdings: &Vec<Holding>, who: &Address) -> (found: Option<usize>)
    ensures
        match found {
            Some(i) => i < holdings@.len() && holdings@[i as int].owner == *who,
            None => !listed(holdings@, *who),
        },
{
    let mut i: usize = 0;
    while i < holdings.len()
        invariant
            i <= holdings@.len(),
            forall|k: int| 0 <= k < i ==> (#[trigger] holdings@[k]).owner != *who,
        decreases holdings@.len() - i,
    {
        if holdings[i].owner == *who {
            return Some(i);
        }
        i = i + 1;
    }
    None
}

/// The vault: what it holds in custody, and a view of what each party holds
/// outside it.
///
/// Funds enter the vault from a party's balance and leave it to a party's
/// balance; they leave only under the capability that the vault was opened
/// with.
pub struct EscrowVault {
    authority: u8,
    custody: u64,
    holdings: Vec<Holding>,
}

impl View for EscrowVault {
    type V = VaultView;

    closed spec fn view(&self) -> VaultView {
        VaultView {
            authority: self.authority,
            custody: self.custody as nat,
            balances: Map::total(|who: Address| held(self.holdings@, who)),
        }
    }
}

impl EscrowVault {
    #[verifier::type_invariant]
    spec fn inv(&self) -> bool {
        distinct_owners(self.holdings@)
    }

    /// The view of a vault is well formed.
    pub proof fn lemma_view_wf(&self)
        ensures
            self@.wf(),
    {
        assert forall|who: Address| #[trigger]
            self@.balances.dom().contains(who) && self@.balances[who] <= u64::MAX by {}
    }

    /// A vault that holds `custody` under the capability `authority`, with no
    /// party's balance known yet.
    pub fn open(authority: u8, custody: u64) -> (vault: EscrowVault)
        ensures
            vault@.authority == authority,
            vault@.custody == custody,
            forall|who: Address| vault@.balances[who] == 0,
            vault@.wf(),
    {
        let vault = EscrowVault { authority, custody, holdings: Vec::new() };
        proof {
            vault.lemma_view_wf();
        }
        vault
    }

    /// The capability under which funds leave this vault.
    pub fn authority(&self) -> (authority: u8)
        ensures
            authority == self@.authority,
    {
        self.authority
    }

    /// What the vault holds.
    pub fn custody(&self) -> (custody: u64)
        ensures
            custody == self@.custody,
    {
        self.custody
    }

    /// What `who` holds outside the vault.
    pub fn balance_of(&self, who: &Address) -> (amount: u64)
        ensures
            amount == self@.balances[*who],
    {
        proof {
            use_type_invariant(self);
        }
        match position(&self.holdings, who) {
            Some(i) => {
                proof {
                    lemma_held_at(self.holdings@, i as int);
                }
                self.holdings[i].amount
            },
            None => 0,
        }
    }

    /// Records that `who` holds `amount` outside the vault.
    pub fn set_balance(&mut self, who: Address, amount: u64)
        ensures
            final(self)@ == old(self)@.with_balance(who, amount as nat),
    {
        proof {
            use_type_invariant(&*self);
        }
        let ghost before = self.holdings@;
        let mut holdings: Vec<Holding> = Vec::new();
        core::mem::swap(&mut self.holdings, &mut holdings);
        match position(&holdings, &who) {
            Some(i) => {
                proof {
                    assert forall|other: Address|
                        held(before.update(i as int, Holding { owner: who, amount }), other) == (
                        if other == who {
                            amount as nat
                        } else {
                            held(before, other)
                        }) by {
                        lemma_held_after_update(before, i as int, amount, other);
                    }
                    lemma_held_after_update(before, i as int, amount, who);
                }
                holdings.set(i, Holding { owner: who, amount });
            },
            None => {
                proof {
                    assert forall|other: Address|
                        held(before.push(Holding { owner: who, amount }), other) == (if other
                            == who {
                            amount as nat
                        } else {
                            held(before, other)
                        }) by {
                        lemma_held_after_push(before, who, amount, other);
                    }
                    lemma_held_after_push(before, who, amount, who);
                }
                holdings.push(Holding { owner: who, amount });
            },
        }
        self.holdings = holdings;
        assert(self@.balances =~= old(self)@.balances.insert(who, amount as nat));
    }

    /// Moves `amount` from what `from` holds into the vault. The caller
    /// answers for the consent of `from`.
    ///
    /// Fails, and moves nothing, with `InsufficientFunds` where `from` holds
    /// less than `amount`, else with `ArithmeticOverflow` where the vault
    /// would hold more than 64 bits can count.
    pub fn pull_in(&mut self, from: Address, amount: u64) -> (result: Result<(), CustomError>)
        ensures
            match old(self)@.pull_in_refusal(from, amount as nat) {
                Some(error) => result == Err::<(), CustomError>(error),
                None => result == Ok::<(), CustomError>(()),
            },
            final(self)@ == old(self)@.pull_in(from, amount as nat),
    {
        let balance = self.balance_of(&from);
        if balance < amount {
            return Err(CustomError::InsufficientFunds);
        }
        let custody: u64 = match self.custody.checked_add(amount) {
            Some(custody) => custody,
            None => {
                return Err(CustomError::ArithmeticOverflow);
            },
        };
        self.set_balance(from, balance - amount);
        proof {
            use_type_invariant(&*self);
        }
        self.custody = custody;
        Ok(())
    }

    /// Moves `amount` out of the vault to what `to` holds, under the
    /// capability presented.
    ///
    /// Fails, and moves nothing, with `Unauthorized` where the capability is
    /// not the one that the vault was opened with, else with
    /// `InsufficientFunds` where the vault holds less than `amount`, else
    /// with `ArithmeticOverflow` where `to` would hold more than 64 bits can
    /// count.
    pub(crate) fn push_out(&mut self, capability: u8, to: Address, amount: u64) -> (result: Result<
        (),
        CustomError,
    >)
        ensures
            match old(self)@.push_out_refusal(capability, to, amount as nat) {
                Some(error) => result == Err::<(), CustomError>(error),
                None => result == Ok::<(), CustomError>(()),
            },
            final(self)@ == old(self)@.push_out(capability, to, amount as nat),
    {
        if capability != self.authority {
            return Err(CustomError::Unauthorized);
        }
        if self.custody < amount {
            return Err(CustomError::InsufficientFunds);
        }
        let balance: u64 = match self.balance_of(&to).checked_add(amount) {
            Some(balance) => balance,
            None => {
                return Err(CustomError::ArithmeticOverflow);
            },
        };
        self.set_balance(to, balance);
        proof {
            use_type_invariant(&*self);
        }
        self.custody = self.custody - amount;
        Ok(())
    }

    /// A second vault that holds what this one holds.
    pub(crate) fn duplicate(&self) -> (copy: EscrowVault)
        ensures
            copy@ == self@,
    {
        proof {
            use_type_invariant(self);
        }
        let mut holdings: Vec<Holding> = Vec::new();
        let mut i: usize = 0;
        while i < self.holdings.len()
            invariant
                i <= self.holdings@.len(),
                holdings@ == self.holdings@.subrange(0, i as int),
            decreases self.holdings@.len() - i,
        {
            holdings.push(self.holdings[i]);
            i = i + 1;
        }
        assert(holdings@ == self.holdings@);
        let copy = EscrowVault { authority: self.authority, custody: self.custody, holdings };
        assert(copy@.balances =~= self@.balances);
        copy
    }
}

} // verus!
