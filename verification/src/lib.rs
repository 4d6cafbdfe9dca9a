//! State-transition core of a coin-pusher game account.
//!
//! One record per player holds a score, a balance of in-game currency, a running
//! profit and two counters. The instructions in [`instructions`] are the only way
//! to change it. Each of them is a function of the accounts it is handed, its
//! inputs and the clock reading of its invocation; it moves no value and emits
//! nothing itself. What is to be moved and emitted comes back as plain values, for
//! the caller to carry out.

pub mod accounts;
pub mod address;
mod clock;
pub mod error;
pub mod events;
pub mod instructions;
pub mod laws;
pub mod state;
pub mod transfer;

pub use accounts::{
    AwardTrashcoin, BumpMachine, Caller, CollectCoin, DepositBalance, DropCoin, GameStateAccount,
    GameStateSlot, InitializeGame, RecordCoinCollection, RecordScore, ResetGame, WithdrawBalance,
};
pub use address::Address;
pub use error::GameError;
pub use events::{
    BalanceDeposited, BalanceWithdrawn, CoinCollected, CoinDropped, GameInitialized, GameReset,
    MachineBumped, ScoreRecorded, TrashcoinAwarded,
};
pub use instructions::{
    award_trashcoin, award_trashcoin_at, bump_machine, bump_machine_at, collect_coin,
    collect_coin_at, deposit_balance, deposit_balance_at, drop_coin, drop_coin_at,
    initialize_game, initialize_game_at, record_coin_collection, record_coin_collection_at,
    record_score, record_score_at, reset_game, reset_game_at, withdraw_balance,
    withdraw_balance_at,
};
pub use state::GameState;
pub use transfer::{Asset, Settlement, Signing, Transfer};
