//! The reasons for which an operation is refused.

use vstd::prelude::*;

verus! {

/// Why an operation was refused. A refused operation changes nothing.
#[derive(Clone, Copy, Debug, PartialEq, Eq, Structural)]
pub enum CustomError {
    /// The wager of a new duel is zero.
    MinimumBetRequired,
    /// A balance does not cover the amount asked of it.
    InsufficientFunds,
    /// The duel to join is not pending.
    DuelNotOpen,
    /// The joiner is the duel's host.
    CannotPlayAgainstSelf,
    /// The duel to start has not been joined, or has started already.
    DuelNotReady,
    /// The duel to decide is not active.
    DuelNotActive,
    /// The declared winner is neither the host nor the joiner.
    InvalidWinner,
    /// A fee percentage is out of range.
    InvalidFeePercentage,
    /// An address is the default one.
    InvalidAddress,
    /// The caller is not the owner, or the vault capability presented is not
    /// the vault's own.
    Unauthorized,
    /// An amount or a counter does not fit in 64 bits, or the fees exceed
    /// the pot.
    ArithmeticOverflow,
}

impl CustomError {
    /// The text that describes this error.
    pub open spec fn text(self) -> Seq<char> {
        match self {
            CustomError::MinimumBetRequired => "A minimum bet is required"@,
            CustomError::InsufficientFunds => "Insufficient funds"@,
            CustomError::DuelNotOpen => "Duel is not open to join"@,
            CustomError::CannotPlayAgainstSelf => "You can't play against yourself"@,
            CustomError::DuelNotReady => "Duel is not ready to start"@,
            CustomError::DuelNotActive => "Duel is not active"@,
            CustomError::InvalidWinner => "Invalid winner address"@,
            CustomError::InvalidFeePercentage => "Invalid fee percentage"@,
            CustomError::InvalidAddress => "Invalid address"@,
            CustomError::Unauthorized => "Caller is not authorized"@,
            CustomError::ArithmeticOverflow => "Arithmetic overflow"@,
        }
    }

    /// The message that describes this error.
    pub fn message(&self) -> (message: &'static str)
        ensures
            message@ == self.text(),
    {
        match self {
            CustomError::MinimumBetRequired => "A minimum bet is required",
            CustomError::InsufficientFunds => "Insufficient funds",
            CustomError::DuelNotOpen => "Duel is not open to join",
            CustomError::CannotPlayAgainstSelf => "You can't play against yourself",
            CustomError::DuelNotReady => "Duel is not ready to start",
            CustomError::DuelNotActive => "Duel is not active",
            CustomError::InvalidWinner => "Invalid winner address",
            CustomError::InvalidFeePercentage => "Invalid fee percentage",
            CustomError::InvalidAddress => "Invalid address",
            CustomError::Unauthorized => "Caller is not authorized",
            CustomError::ArithmeticOverflow => "Arithmetic overflow",
        }
    }
}

} // verus!
