//! The per-player record and the arithmetic of its transitions.

use crate::address::Address;
use crate::error::GameError;
use vstd::prelude::*;

verus! {

/// Balance that a reset restores, and the baseline against which recorded
/// collections measure profit.
pub const DEFAULT_BALANCE: u64 = 100;

/// Points and currency gained by collecting an ordinary coin.
pub const COIN_REWARD: u64 = 1;

/// Points and currency gained by collecting a rare coin.
pub const TRASHCOIN_REWARD: u64 = 5;

/// In-game cost of dropping a coin.
pub const DROP_COST: u64 = 1;

/// In-game cost of bumping the machine.
pub const BUMP_COST: u64 = 50;

/// Token units debited for dropping a coin (one token of six decimals).
pub const DROP_PRICE: u64 = 1_000_000;

/// Token units debited for bumping the machine (fifty tokens of six decimals).
pub const BUMP_PRICE: u64 = 50_000_000;

/// Time units that must have elapsed between two rate-limited actions.
pub const MIN_INTERVAL: i64 = 1;

/// `x` brought into the range of `u64`.
pub open spec fn clamp_u64(x: int) -> u64 {
    if x < 0 {
        0
    } else if x > u64::MAX {
        u64::MAX
    } else {
        x as u64
    }
}

/// `x` brought into the range of `i64`.
pub open spec fn clamp_i64(x: int) -> i64 {
    if x < i64::MIN {
        i64::MIN
    } else if x > i64::MAX {
        i64::MAX
    } else {
        x as i64
    }
}

/// Profit of a balance measured against the default balance: the balance minus
/// the default, below zero where the balance is below it, brought into the range
/// of the signed field.
pub open spec fn profit_over_baseline(balance: u64) -> i64 {
    clamp_i64(balance - DEFAULT_BALANCE)
}

/// Why a quantity that must be positive is refused, if it is: it is zero.
pub open spec fn amount_refusal(amount: u64) -> Option<GameError> {
    if amount == 0 {
        Some(GameError::InvalidAmount)
    } else {
        None
    }
}

/// Currency gained by collecting one coin.
pub open spec fn reward_for(is_trashcoin: bool) -> u64 {
    if is_trashcoin {
        TRASHCOIN_REWARD
    } else {
        COIN_REWARD
    }
}

fn saturating_add_i64(a: i64, b: i64) -> (sum: i64)
    ensures
        sum == clamp_i64(a + b),
{
    if b > 0 && a > i64::MAX - b {
        i64::MAX
    } else if b < 0 && a < i64::MIN - b {
        i64::MIN
    } else {
        a + b
    }
}

fn saturating_sub_i64(a: i64, b: i64) -> (difference: i64)
    ensures
        difference == clamp_i64(a - b),
{
    if b < 0 && a > i64::MAX + b {
        i64::MAX
    } else if b > 0 && a < i64::MIN + b {
        i64::MIN
    } else {
        a - b
    }
}

/// The profit of `balance` measured against the default balance.
fn profit_over(balance: u64) -> (profit: i64)
    ensures
        profit == profit_over_baseline(balance),
{
    if balance >= DEFAULT_BALANCE {
        let excess: u64 = balance - DEFAULT_BALANCE;
        if excess > 0x7fff_ffff_ffff_ffff {
            i64::MAX
        } else {
            excess as i64
        }
    } else {
        let shortfall: u64 = DEFAULT_BALANCE - balance;
        -(shortfall as i64)
    }
}

/// Refuses a quantity of zero where a positive one is required.
pub fn check_amount(amount: u64) -> (r: Result<(), GameError>)
    ensures
        r == (match amount_refusal(amount) {
            Some(e) => Err::<(), GameError>(e),
            None => Ok::<(), GameError>(()),
        }),
{
    if amount == 0 {
        Err(GameError::InvalidAmount)
    } else {
        Ok(())
    }
}

/// The record kept for one player.
#[derive(Clone, Copy, Debug, PartialEq, Eq)]
pub struct GameState {
    /// Identity of the controlling player.
    pub player: Address,
    /// Cumulative points.
    pub score: u64,
    /// In-game currency.
    pub balance: u64,
    /// Currency gained minus currency spent.
    pub net_profit: i64,
    /// Coins collected, rare ones included.
    pub total_coins_collected: u64,
    /// Rare coins collected.
    pub trashcoins_collected: u64,
    /// Clock reading at creation.
    pub created_at: i64,
    /// Clock reading at the latest action.
    pub last_updated: i64,
    /// Bump seed with which the record's own address is derived.
    pub bump: u8,
}

impl GameState {
    /// The record that initialization creates.
    pub open spec fn created(
        player: Address,
        initial_balance: u64,
        bump: u8,
        now: i64,
    ) -> GameState {
        GameState {
            player,
            score: 0,
            balance: initial_balance,
            net_profit: 0,
            total_coins_collected: 0,
            trashcoins_collected: 0,
            created_at: now,
            last_updated: now,
            bump,
        }
    }

    /// Whether an action at `now` comes too soon after the latest one.
    pub open spec fn rate_limited(self, now: i64) -> bool {
        now - self.last_updated < MIN_INTERVAL
    }

    /// The record after a collection of `amount` has been recorded at `now`.
    pub open spec fn with_collection(self, amount: u64, now: i64) -> GameState {
        let balance = clamp_u64(self.balance + amount);
        GameState {
            balance,
            total_coins_collected: clamp_u64(self.total_coins_collected + 1),
            net_profit: profit_over_baseline(balance),
            last_updated: now,
            ..self
        }
    }

    /// The record after one coin, rare or ordinary, has been collected at `now`.
    pub open spec fn with_reward(self, is_trashcoin: bool, now: i64) -> GameState {
        let reward = reward_for(is_trashcoin);
        GameState {
            score: clamp_u64(self.score + reward),
            balance: clamp_u64(self.balance + reward),
            net_profit: clamp_i64(self.net_profit + reward),
            total_coins_collected: clamp_u64(self.total_coins_collected + 1),
            trashcoins_collected: if is_trashcoin {
                clamp_u64(self.trashcoins_collected + 1)
            } else {
                self.trashcoins_collected
            },
            last_updated: now,
            ..self
        }
    }

    /// The record after `score` has been recorded at `now`.
    pub open spec fn with_score(self, score: u64, now: i64) -> GameState {
        GameState { score, last_updated: now, ..self }
    }

    /// The record after `cost` has been spent on an action at `now`.
    pub open spec fn with_spend(self, cost: u64, now: i64) -> GameState {
        GameState {
            balance: clamp_u64(self.balance - cost),
            net_profit: clamp_i64(self.net_profit - cost),
            last_updated: now,
            ..self
        }
    }

    /// The record after `amount` has been deposited at `now`.
    pub open spec fn with_deposit(self, amount: u64, now: i64) -> GameState {
        GameState { balance: clamp_u64(self.balance + amount), last_updated: now, ..self }
    }

    /// The record after `amount` has been withdrawn at `now`.
    pub open spec fn with_withdrawal(self, amount: u64, now: i64) -> GameState {
        GameState { balance: clamp_u64(self.balance - amount), last_updated: now, ..self }
    }

    /// The record after a reset at `now`.
    pub open spec fn after_reset(self, now: i64) -> GameState {
        GameState {
            score: 0,
            balance: DEFAULT_BALANCE,
            net_profit: 0,
            total_coins_collected: 0,
            trashcoins_collected: 0,
            last_updated: now,
            ..self
        }
    }

    /// Why a withdrawal of `amount` is refused, if it is: an amount of zero, or one
    /// above the balance.
    pub open spec fn withdrawal_refusal(self, amount: u64) -> Option<GameError> {
        if amount == 0 {
            Some(GameError::InvalidAmount)
        } else if self.balance < amount {
            Some(GameError::InsufficientBalance)
        } else {
            None
        }
    }

    /// The record after the recording of a collection of `amount` at `now`, or the
    /// reason for which it is refused: an amount of zero, or an action too soon after
    /// the latest one.
    pub open spec fn try_collection(self, amount: u64, now: i64) -> Result<GameState, GameError> {
        match amount_refusal(amount) {
            Some(e) => Err(e),
            None => if self.rate_limited(now) {
                Err(GameError::TooManyRequests)
            } else {
                Ok(self.with_collection(amount, now))
            },
        }
    }

    /// The record after a bump of the machine at `now`, or the reason for which it
    /// is refused: an action too soon after the latest one.
    pub open spec fn try_bump(self, now: i64) -> Result<GameState, GameError> {
        if self.rate_limited(now) {
            Err(GameError::TooManyRequests)
        } else {
            Ok(self.with_spend(BUMP_COST, now))
        }
    }

    /// The record after a deposit of `amount` at `now`, or the reason for which it
    /// is refused: an amount of zero.
    pub open spec fn try_deposit(self, amount: u64, now: i64) -> Result<GameState, GameError> {
        match amount_refusal(amount) {
            Some(e) => Err(e),
            None => Ok(self.with_deposit(amount, now)),
        }
    }

    /// The record after a withdrawal of `amount` at `now`, or the reason for which
    /// it is refused: an amount of zero, or one above the balance.
    pub open spec fn try_withdrawal(self, amount: u64, now: i64) -> Result<GameState, GameError> {
        match self.withdrawal_refusal(amount) {
            Some(e) => Err(e),
            None => Ok(self.with_withdrawal(amount, now)),
        }
    }

    /// What holds of every record that the instructions produce under a clock that
    /// does not run backwards: the rare coins are among the coins, and the latest
    /// action is not older than the creation.
    pub open spec fn well_formed(self) -> bool {
        &&& self.trashcoins_collected <= self.total_coins_collected
        &&& self.created_at <= self.last_updated
    }

    /// A fresh record of `player`, created at `now`.
    pub fn new(player: Address, initial_balance: u64, bump: u8, now: i64) -> (record: GameState)
        ensures
            record == GameState::created(player, initial_balance, bump, now),
            record.well_formed(),
    {
        GameState {
            player,
            score: 0,
            balance: initial_balance,
            net_profit: 0,
            total_coins_collected: 0,
            trashcoins_collected: 0,
            created_at: now,
            last_updated: now,
            bump,
        }
    }

    /// Whether at least one time unit has elapsed at `now` since the latest action.
    pub fn check_rate_limit(&self, now: i64) -> (r: Result<(), GameError>)
        ensures
            r == (if self.rate_limited(now) {
                Err::<(), GameError>(GameError::TooManyRequests)
            } else {
                Ok::<(), GameError>(())
            }),
    {
        if saturating_sub_i64(now, self.last_updated) < MIN_INTERVAL {
            Err(GameError::TooManyRequests)
        } else {
            Ok(())
        }
    }

    /// Refuses a withdrawal of zero and one above the balance.
    pub fn check_withdrawal(&self, amount: u64) -> (r: Result<(), GameError>)
        ensures
            r == (match self.withdrawal_refusal(amount) {
                Some(e) => Err::<(), GameError>(e),
                None => Ok::<(), GameError>(()),
            }),
    {
        check_amount(amount)?;
        if self.balance < amount {
            Err(GameError::InsufficientBalance)
        } else {
            Ok(())
        }
    }

    /// Records a collection of `amount`: the balance grows by it, the coin counter
    /// by one, and the profit becomes the new balance minus the default balance.
    pub fn record_collection(&mut self, amount: u64, now: i64) -> (r: Result<(), GameError>)
        ensures
            changed_to(old(self).try_collection(amount, now), *old(self), *final(self), r),
            old(self).well_formed() ==> final(self).well_formed(),
    {
        check_amount(amount)?;
        self.check_rate_limit(now)?;
        self.balance = self.balance.saturating_add(amount);
        self.total_coins_collected = self.total_coins_collected.saturating_add(1);
        self.last_updated = now;
        self.net_profit = profit_over(self.balance);
        Ok(())
    }

    /// Collects one coin and gives its reward: score, balance and profit grow by the
    /// reward, the coin counter by one, and the rare counter by one for a rare coin.
    pub fn collect_reward(&mut self, is_trashcoin: bool, now: i64) -> (reward: u64)
        ensures
            *final(self) == old(self).with_reward(is_trashcoin, now),
            reward == reward_for(is_trashcoin),
            old(self).well_formed() && now >= old(self).last_updated ==> final(self).well_formed(),
    {
        let reward: u64 = if is_trashcoin {
            TRASHCOIN_REWARD
        } else {
            COIN_REWARD
        };
        self.score = self.score.saturating_add(reward);
        self.balance = self.balance.saturating_add(reward);
        self.net_profit = saturating_add_i64(self.net_profit, reward as i64);
        self.total_coins_collected = self.total_coins_collected.saturating_add(1);
        if is_trashcoin {
            self.trashcoins_collected = self.trashcoins_collected.saturating_add(1);
        }
        self.last_updated = now;
        reward
    }

    /// Overwrites the score with `score`, whatever it was.
    pub fn record_score(&mut self, score: u64, now: i64)
        ensures
            *final(self) == old(self).with_score(score, now),
            old(self).well_formed() && now >= old(self).last_updated ==> final(self).well_formed(),
    {
        self.score = score;
        self.last_updated = now;
    }

    /// Spends the cost of dropping a coin.
    pub fn drop_coin(&mut self, now: i64)
        ensures
            *final(self) == old(self).with_spend(DROP_COST, now),
            old(self).well_formed() && now >= old(self).last_updated ==> final(self).well_formed(),
    {
        self.spend(DROP_COST, now);
    }

    /// Spends the cost of bumping the machine.
    pub fn bump_machine(&mut self, now: i64) -> (r: Result<(), GameError>)
        ensures
            changed_to(old(self).try_bump(now), *old(self), *final(self), r),
            old(self).well_formed() ==> final(self).well_formed(),
    {
        self.check_rate_limit(now)?;
        self.spend(BUMP_COST, now);
        Ok(())
    }

    /// Adds a deposit of `amount` to the balance.
    pub fn deposit(&mut self, amount: u64, now: i64) -> (r: Result<(), GameError>)
        ensures
            changed_to(old(self).try_deposit(amount, now), *old(self), *final(self), r),
            old(self).well_formed() && now >= old(self).last_updated ==> final(self).well_formed(),
    {
        check_amount(amount)?;
        self.balance = self.balance.saturating_add(amount);
        self.last_updated = now;
        Ok(())
    }

    /// Takes a withdrawal of `amount` from the balance.
    pub fn withdraw(&mut self, amount: u64, now: i64) -> (r: Result<(), GameError>)
        ensures
            changed_to(old(self).try_withdrawal(amount, now), *old(self), *final(self), r),
            old(self).well_formed() && now >= old(self).last_updated ==> final(self).well_formed(),
    {
        self.check_withdrawal(amount)?;
        self.balance = self.balance.saturating_sub(amount);
        self.last_updated = now;
        Ok(())
    }

    /// Returns score, profit and counters to zero and the balance to its default.
    pub fn reset(&mut self, now: i64)
        ensures
            *final(self) == old(self).after_reset(now),
            old(self).well_formed() && now >= old(self).last_updated ==> final(self).well_formed(),
    {
        self.score = 0;
        self.balance = DEFAULT_BALANCE;
        self.net_profit = 0;
        self.total_coins_collected = 0;
        self.trashcoins_collected = 0;
        self.last_updated = now;
    }

    fn spend(&mut self, cost: u64, now: i64)
        requires
            cost <= i64::MAX,
        ensures
            *final(self) == old(self).with_spend(cost, now),
    {
        self.balance = self.balance.saturating_sub(cost);
        self.net_profit = saturating_sub_i64(self.net_profit, cost as i64);
        self.last_updated = now;
    }
}

/// Whether `after` and `result` are what a change with the outcome `outcome` makes
/// of the record `before`: on success the record of the outcome, on refusal the
/// record as it was and the error.
pub open spec fn changed_to(
    outcome: Result<GameState, GameError>,
    before: GameState,
    after: GameState,
    result: Result<(), GameError>,
) -> bool {
    match outcome {
        Ok(record) => after == record && result is Ok,
        Err(e) => after == before && result == Err::<(), GameError>(e),
    }
}

} // verus!
