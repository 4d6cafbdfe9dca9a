//! The reasons for which an instruction is refused.

use vstd::prelude::*;

verus! {

/// Why an instruction was refused. A refused instruction changes nothing.
#[derive(Clone, Copy, Debug, PartialEq, Eq, Structural)]
pub enum GameError {
    /// A quantity that must be positive was zero.
    InvalidAmount,
    /// A withdrawal exceeds the recorded balance.
    InsufficientBalance,
    /// The action came before the rate-limit interval had elapsed.
    TooManyRequests,
    /// The caller does not own the targeted account, did not sign, or the account
    /// does not lie at the address derived for the caller.
    Unauthorized,
    /// An account already exists at the address where one was to be created.
    AlreadyExists,
    /// The runtime supplied no clock reading.
    ClockUnavailable,
}

impl GameError {
    /// The text shown for the error.
    pub open spec fn message_text(self) -> Seq<char> {
        match self {
            GameError::InvalidAmount => "Invalid amount"@,
            GameError::InsufficientBalance => "Insufficient balance"@,
            GameError::TooManyRequests => "Too many requests - rate limited"@,
            GameError::Unauthorized => "Unauthorized"@,
            GameError::AlreadyExists => "Account already exists"@,
            GameError::ClockUnavailable => "Clock unavailable"@,
        }
    }

    pub fn message(&self) -> (text: &'static str)
        ensures
            text@ == self.message_text(),
    {
        match self {
            GameError::InvalidAmount => "Invalid amount",
            GameError::InsufficientBalance => "Insufficient balance",
            GameError::TooManyRequests => "Too many requests - rate limited",
            GameError::Unauthorized => "Unauthorized",
            GameError::AlreadyExists => "Account already exists",
            GameError::ClockUnavailable => "Clock unavailable",
        }
    }
}

} // verus!
