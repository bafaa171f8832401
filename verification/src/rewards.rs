//! How the pot of a duel is divided between the winner, the company and the
//! pool.

use crate::error::CustomError;
use vstd::prelude::*;

verus! {

/// The pot of a duel: both stakes.
pub open spec fn pot(wager_amount: nat) -> nat {
    2 * wager_amount
}

/// The fee that `percent` per cent of `total` comes to, rounded down.
pub open spec fn fee_share(total: nat, percent: nat) -> nat {
    (total * percent) / 100
}

/// What is left of `total` for the winner once both fees are taken. It is
/// negative where the fees exceed `total`.
pub open spec fn reward_share(total: nat, company_percent: nat, pool_percent: nat) -> int {
    total - fee_share(total, company_percent) - fee_share(total, pool_percent)
}

/// The pot of a duel with this wager fits in 64 bits and covers both fees.
pub open spec fn can_split(wager_amount: nat, company_percent: nat, pool_percent: nat) -> bool {
    &&& pot(wager_amount) <= u64::MAX
    &&& reward_share(pot(wager_amount), company_percent, pool_percent) >= 0
}

/// The amounts into which a pot is divided.
#[derive(Clone, Copy, Debug, PartialEq, Eq, Structural)]
pub struct RewardSplit {
    /// The pot: twice the wager.
    pub total_wager: u64,
    /// The winner's part.
    pub reward_amount: u64,
    /// The company's fee.
    pub company_amount: u64,
    /// The pool's fee.
    pub pool_amount: u64,
}

impl RewardSplit {
    /// This split is the division of the pot of `wager_amount` at the given
    /// percentages.
    pub open spec fn divides(
        &self,
        wager_amount: nat,
        company_percent: nat,
        pool_percent: nat,
    ) -> bool {
        &&& self.total_wager == pot(wager_amount)
        &&& self.company_amount == fee_share(pot(wager_amount), company_percent)
        &&& self.pool_amount == fee_share(pot(wager_amount), pool_percent)
        &&& self.reward_amount == reward_share(pot(wager_amount), company_percent, pool_percent)
    }
}

/// A fee is monotone in its percentage and, at 100 per cent or less, no more
/// than the total.
pub proof fn lemma_fee_share_bounds(total: nat, percent: nat)
    ensures
        percent <= 100 ==> fee_share(total, percent) <= total,
        percent > 100 ==> fee_share(total, percent) >= total,
{
    if percent <= 100 {
        assert(total * percent <= total * 100) by (nonlinear_arith)
            requires
                percent <= 100,
        ;
    } else {
        assert(total * percent >= total * 100) by (nonlinear_arith)
            requires
                percent > 100,
        ;
    }
}

/// Two fees together are no more than the fee at the sum of their
/// percentages: rounding down never adds a unit.
pub proof fn lemma_fee_shares_add(total: nat, company_percent: nat, pool_percent: nat)
    ensures
        fee_share(total, company_percent) + fee_share(total, pool_percent) <= fee_share(
            total,
            company_percent + pool_percent,
        ),
{
    let a = total * company_percent;
    let b = total * pool_percent;
    assert(total * (company_percent + pool_percent) == a + b) by (nonlinear_arith)
        requires
            a == total * company_percent,
            b == total * pool_percent,
    ;
    assert(a / 100 + b / 100 <= (a + b) / 100) by (nonlinear_arith)
        requires
            a >= 0,
            b >= 0,
    ;
}

/// No unit of the pot is lost or created: where the two percentages sum to
/// 100 or less, the winner's part is not negative, and it and the two fees sum
/// to exactly twice the wager.
pub proof fn lemma_split_conserves_pot(wager_amount: nat, company_percent: nat, pool_percent: nat)
    requires
        company_percent + pool_percent <= 100,
    ensures
        reward_share(pot(wager_amount), company_percent, pool_percent) >= 0,
        fee_share(pot(wager_amount), company_percent) + fee_share(pot(wager_amount), pool_percent)
            + reward_share(pot(wager_amount), company_percent, pool_percent) == 2 * wager_amount,
        pot(wager_amount) <= u64::MAX ==> can_split(wager_amount, company_percent, pool_percent),
{
    let total = pot(wager_amount);
    lemma_fee_shares_add(total, company_percent, pool_percent);
    lemma_fee_share_bounds(total, company_percent + pool_percent);
}

/// Divides the pot of a duel: each fee is its percentage of twice the wager,
/// rounded down, and the winner gets the rest.
///
/// Fails with `ArithmeticOverflow` where twice the wager does not fit in 64
/// bits, and where the two fees together exceed the pot, which can happen
/// only if the percentages sum to more than 100.
pub fn split_rewards(wager_amount: u64, company_percentage: u8, pool_percentage: u8) -> (result:
    Result<RewardSplit, CustomError>)
    ensures
        result is Ok <==> can_split(
            wager_amount as nat,
            company_percentage as nat,
            pool_percentage as nat,
        ),
        result matches Ok(split) ==> split.divides(
            wager_amount as nat,
            company_percentage as nat,
            pool_percentage as nat,
        ),
        result matches Err(error) ==> error == CustomError::ArithmeticOverflow,
{
    let total: u64 = match wager_amount.checked_mul(2) {
        Some(total) => total,
        None => {
            return Err(CustomError::ArithmeticOverflow);
        },
    };
    assert((total as u128) * (company_percentage as u128) <= 0xffff_ffff_ffff_ffff * 255)
        by (nonlinear_arith)
        requires
            total <= 0xffff_ffff_ffff_ffff,
            company_percentage <= 255,
    ;
    assert((total as u128) * (pool_percentage as u128) <= 0xffff_ffff_ffff_ffff * 255)
        by (nonlinear_arith)
        requires
            total <= 0xffff_ffff_ffff_ffff,
            pool_percentage <= 255,
    ;
    let company_wide: u128 = (total as u128) * (company_percentage as u128) / 100;
    let pool_wide: u128 = (total as u128) * (pool_percentage as u128) / 100;
    if company_wide > total as u128 {
        return Err(CustomError::ArithmeticOverflow);
    }
    let after_company: u64 = total - company_wide as u64;
    if pool_wide > after_company as u128 {
        return Err(CustomError::ArithmeticOverflow);
    }
    Ok(
        RewardSplit {
            total_wager: total,
            reward_amount: after_company - pool_wide as u64,
            company_amount: company_wide as u64,
            pool_amount: pool_wide as u64,
        },
    )
}

} // verus!
