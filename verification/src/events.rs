//! The notifications that the instructions hand out to be emitted.

use crate::address::Address;
use vstd::prelude::*;

verus! {

/// An account was initialized.
#[derive(Clone, Copy, Debug, PartialEq, Eq)]
pub struct GameInitialized {
    pub player: Address,
    pub initial_balance: u64,
    pub timestamp: i64,
}

/// Coins were collected: a recorded collection of any amount, or one coin with its reward.
#[derive(Clone, Copy, Debug, PartialEq, Eq)]
pub struct CoinCollected {
    pub player: Address,
    pub amount: u64,
    /// Set for the collection of a rare coin; a recorded collection never sets it.
    pub is_trashcoin: bool,
    pub new_balance: u64,
    pub timestamp: i64,
}

/// A score was recorded.
#[derive(Clone, Copy, Debug, PartialEq, Eq)]
pub struct ScoreRecorded {
    pub player: Address,
    pub score: u64,
    pub timestamp: i64,
}

/// Native value was deposited.
#[derive(Clone, Copy, Debug, PartialEq, Eq)]
pub struct BalanceDeposited {
    pub player: Address,
    pub amount: u64,
    pub new_balance: u64,
}

/// Native value was withdrawn.
#[derive(Clone, Copy, Debug, PartialEq, Eq)]
pub struct BalanceWithdrawn {
    pub player: Address,
    pub amount: u64,
    pub new_balance: u64,
}

/// The counters were reset.
#[derive(Clone, Copy, Debug, PartialEq, Eq)]
pub struct GameReset {
    pub player: Address,
    pub timestamp: i64,
}

/// A coin was dropped.
#[derive(Clone, Copy, Debug, PartialEq, Eq)]
pub struct CoinDropped {
    pub player: Address,
    pub cost: u64,
    pub new_balance: u64,
    pub timestamp: i64,
}

/// The machine was bumped.
#[derive(Clone, Copy, Debug, PartialEq, Eq)]
pub struct MachineBumped {
    pub player: Address,
    pub cost: u64,
    pub new_balance: u64,
    pub timestamp: i64,
}

/// Rare tokens were awarded.
#[derive(Clone, Copy, Debug, PartialEq, Eq)]
pub struct TrashcoinAwarded {
    pub player: Address,
    pub amount: u64,
    pub timestamp: i64,
}

} // verus!
