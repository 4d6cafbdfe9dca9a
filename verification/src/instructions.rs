//! The instructions: one function for each action that can be invoked.
//!
//! Every instruction first has its accounts authorized, then checks its inputs,
//! and only then computes. An instruction that is refused changes nothing.
//!
//! Each instruction comes twice. Under its own name it decides what no clock
//! reading can change, the authorization and the checks of its inputs, and only
//! then reads the ledger's clock and goes on with the reading. Under its name
//! followed by `_at` it takes the clock reading as `now`: that function says
//! exactly what the instruction does.
//!
//! An instruction that moves value moves none itself and changes nothing. It
//! returns a [`Settlement`]: the transfer to attempt, and the record and the event
//! that take effect once the transfer has gone through.

use crate::accounts::{
    authorize_creation, authorize_owner, authorize_vault, creation_bump, owner_authorized,
    vault_bump, AwardTrashcoin, BumpMachine, CollectCoin, DepositBalance, DropCoin,
    GameStateAccount, GameStateSlot, InitializeGame, RecordCoinCollection, RecordScore,
    ResetGame, WithdrawBalance,
};
use crate::address::{game_state_address, vault_authority_address, Address};
use crate::clock::unix_timestamp;
use crate::error::GameError;
use crate::events::{
    BalanceDeposited, BalanceWithdrawn, CoinCollected, CoinDropped, GameInitialized, GameReset,
    MachineBumped, ScoreRecorded, TrashcoinAwarded,
};
use crate::state::{
    amount_refusal, check_amount, reward_for, GameState, BUMP_COST, BUMP_PRICE, DROP_COST,
    DROP_PRICE,
};
use crate::transfer::{Asset, Settlement, Signing, Transfer};
use vstd::prelude::*;

verus! {

/// Whether `result` is the refusal `e`.
pub open spec fn refused<T>(result: Result<T, GameError>, e: GameError) -> bool {
    result == Err::<T, GameError>(e)
}

/// Whether `after` and `result` are what an instruction with the outcome `outcome`
/// makes of the accounts `before`: on success the accounts of the outcome and its
/// event, on refusal the accounts as they were and the error.
pub open spec fn carried_out<A, E>(
    outcome: Result<(A, E), GameError>,
    before: A,
    after: A,
    result: Result<E, GameError>,
) -> bool {
    match outcome {
        Ok((accounts, event)) => after == accounts && result == Ok::<E, GameError>(event),
        Err(e) => after == before && refused(result, e),
    }
}

/// The debit of `price` token units from a player's holding to the vault's,
/// signed by the player.
pub open spec fn token_debit(player: Address, from: Address, to: Address, price: u64) -> Transfer {
    Transfer {
        asset: Asset::Token,
        from,
        to,
        authority: player,
        amount: price,
        signing: Signing::Caller,
    }
}

fn debit_tokens(player: Address, from: Address, to: Address, price: u64) -> (transfer: Transfer)
    ensures
        transfer == token_debit(player, from, to, price),
{
    Transfer {
        asset: Asset::Token,
        from,
        to,
        authority: player,
        amount: price,
        signing: Signing::Caller,
    }
}

impl WithdrawBalance {
    /// The payment out of the record's own account to the player, signed by the
    /// program for the record's derived address.
    pub open spec fn transfer(self, amount: u64) -> Transfer {
        Transfer {
            asset: Asset::Native,
            from: self.game_state.key,
            to: self.player.key,
            authority: self.game_state.key,
            amount,
            signing: Signing::GameState {
                player: self.player.key,
                bump: self.game_state.data.bump,
            },
        }
    }

    /// Why `withdraw_balance` is refused whatever the clock reads, if it is.
    pub open spec fn refusal(self, amount: u64) -> Option<GameError> {
        if !owner_authorized(self.program_id, self.game_state, self.player) {
            Some(GameError::Unauthorized)
        } else {
            self.game_state.data.withdrawal_refusal(amount)
        }
    }

    /// What `withdraw_balance_at` returns.
    pub open spec fn outcome(
        self,
        amount: u64,
        now: i64,
    ) -> Result<Settlement<BalanceWithdrawn>, GameError> {
        if !owner_authorized(self.program_id, self.game_state, self.player) {
            Err(GameError::Unauthorized)
        } else {
            match self.game_state.data.try_withdrawal(amount, now) {
                Err(e) => Err(e),
                Ok(game_state) => Ok(
                    Settlement {
                        transfer: self.transfer(amount),
                        game_state,
                        event: BalanceWithdrawn {
                            player: self.player.key,
                            amount,
                            new_balance: game_state.balance,
                        },
                    },
                ),
            }
        }
    }
}

/// Withdraws `amount` of native value from the game balance to the player, at the
/// reading of the ledger's clock.
pub fn withdraw_balance(
    ctx: &WithdrawBalance,
    amount: u64,
) -> (r: Result<Settlement<BalanceWithdrawn>, GameError>)
    ensures
        match ctx.refusal(amount) {
            Some(e) => refused(r, e),
            None => refused(r, GameError::ClockUnavailable) || exists|now: i64|
                r == #[trigger] ctx.outcome(amount, now),
        },
        r matches Ok(settlement) ==> settlement.transfer.well_signed(ctx.program_id),
{
    authorize_owner(&ctx.program_id, &ctx.game_state, &ctx.player)?;
    ctx.game_state.data.check_withdrawal(amount)?;
    match unix_timestamp() {
        Some(now) => withdraw_balance_authorized(ctx, amount, now),
        None => Err(GameError::ClockUnavailable),
    }
}

/// `withdraw_balance` at the clock reading `now`.
pub fn withdraw_balance_at(
    ctx: &WithdrawBalance,
    amount: u64,
    now: i64,
) -> (r: Result<Settlement<BalanceWithdrawn>, GameError>)
    ensures
        r == ctx.outcome(amount, now),
        r matches Ok(settlement) ==> settlement.transfer.well_signed(ctx.program_id),
{
    authorize_owner(&ctx.program_id, &ctx.game_state, &ctx.player)?;
    withdraw_balance_authorized(ctx, amount, now)
}

/// What a withdrawal by the owner comes to.
fn withdraw_balance_authorized(
    ctx: &WithdrawBalance,
    amount: u64,
    now: i64,
) -> (r: Result<Settlement<BalanceWithdrawn>, GameError>)
    requires
        owner_authorized(ctx.program_id, ctx.game_state, ctx.player),
    ensures
        r == ctx.outcome(amount, now),
        r matches Ok(settlement) ==> settlement.transfer.well_signed(ctx.program_id),
{
    let mut game_state = ctx.game_state.data;
    game_state.withdraw(amount, now)?;
    let transfer = Transfer {
        asset: Asset::Native,
        from: ctx.game_state.key,
        to: ctx.player.key,
        authority: ctx.game_state.key,
        amount,
        signing: Signing::GameState { player: ctx.player.key, bump: ctx.game_state.data.bump },
    };
    let event =
        BalanceWithdrawn { player: ctx.player.key, amount, new_balance: game_state.balance };
    Ok(Settlement { transfer, game_state, event })
}

impl DepositBalance {
    /// The payment from the player into the record's own account, signed by the player.
    pub open spec fn transfer(self, amount: u64) -> Transfer {
        Transfer {
            asset: Asset::Native,
            from: self.player.key,
            to: self.game_state.key,
            authority: self.player.key,
            amount,
            signing: Signing::Caller,
        }
    }

    /// Why `deposit_balance` is refused whatever the clock reads, if it is.
    pub open spec fn refusal(self, amount: u64) -> Option<GameError> {
        if !owner_authorized(self.program_id, self.game_state, self.player) {
            Some(GameError::Unauthorized)
        } else {
            amount_refusal(amount)
        }
    }

    /// What `deposit_balance_at` returns.
    pub open spec fn outcome(
        self,
        amount: u64,
        now: i64,
    ) -> Result<Settlement<BalanceDeposited>, GameError> {
        if !owner_authorized(self.program_id, self.game_state, self.player) {
            Err(GameError::Unauthorized)
        } else {
            match self.game_state.data.try_deposit(amount, now) {
                Err(e) => Err(e),
                Ok(game_state) => Ok(
                    Settlement {
                        transfer: self.transfer(amount),
                        game_state,
                        event: BalanceDeposited {
                            player: self.player.key,
                            amount,
                            new_balance: game_state.balance,
                        },
                    },
                ),
            }
        }
    }
}

/// Deposits `amount` of native value from the player into the game balance, at
/// the reading of the ledger's clock.
pub fn deposit_balance(
    ctx: &DepositBalance,
    amount: u64,
) -> (r: Result<Settlement<BalanceDeposited>, GameError>)
    ensures
        match ctx.refusal(amount) {
            Some(e) => refused(r, e),
            None => refused(r, GameError::ClockUnavailable) || exists|now: i64|
                r == #[trigger] ctx.outcome(amount, now),
        },
{
    authorize_owner(&ctx.program_id, &ctx.game_state, &ctx.player)?;
    check_amount(amount)?;
    match unix_timestamp() {
        Some(now) => deposit_balance_authorized(ctx, amount, now),
        None => Err(GameError::ClockUnavailable),
    }
}

/// `deposit_balance` at the clock reading `now`.
pub fn deposit_balance_at(
    ctx: &DepositBalance,
    amount: u64,
    now: i64,
) -> (r: Result<Settlement<BalanceDeposited>, GameError>)
    ensures
        r == ctx.outcome(amount, now),
{
    authorize_owner(&ctx.program_id, &ctx.game_state, &ctx.player)?;
    deposit_balance_authorized(ctx, amount, now)
}

/// What a deposit by the owner comes to.
fn deposit_balance_authorized(
    ctx: &DepositBalance,
    amount: u64,
    now: i64,
) -> (r: Result<Settlement<BalanceDeposited>, GameError>)
    requires
        owner_authorized(ctx.program_id, ctx.game_state, ctx.player),
    ensures
        r == ctx.outcome(amount, now),
{
    let mut game_state = ctx.game_state.data;
    game_state.deposit(amount, now)?;
    let transfer = Transfer {
        asset: Asset::Native,
        from: ctx.player.key,
        to: ctx.game_state.key,
        authority: ctx.player.key,
        amount,
        signing: Signing::Caller,
    };
    let event =
        BalanceDeposited { player: ctx.player.key, amount, new_balance: game_state.balance };
    Ok(Settlement { transfer, game_state, event })
}

impl BumpMachine {
    /// Why `bump_machine` is refused whatever the clock reads, if it is.
    pub open spec fn refusal(self) -> Option<GameError> {
        if !owner_authorized(self.program_id, self.game_state, self.player) {
            Some(GameError::Unauthorized)
        } else {
            None
        }
    }

    /// What `bump_machine_at` returns.
    pub open spec fn outcome(self, now: i64) -> Result<Settlement<MachineBumped>, GameError> {
        if !owner_authorized(self.program_id, self.game_state, self.player) {
            Err(GameError::Unauthorized)
        } else {
            match self.game_state.data.try_bump(now) {
                Err(e) => Err(e),
                Ok(game_state) => Ok(
                    Settlement {
                        transfer: token_debit(
                            self.player.key,
                            self.player_junk_account,
                            self.vault_junk_account,
                            BUMP_PRICE,
                        ),
                        game_state,
                        event: MachineBumped {
                            player: self.player.key,
                            cost: BUMP_COST,
                            new_balance: game_state.balance,
                            timestamp: now,
                        },
                    },
                ),
            }
        }
    }
}

/// Bumps the machine, for fifty tokens and fifty units of the game balance, at the
/// reading of the ledger's clock.
pub fn bump_machine(ctx: &BumpMachine) -> (r: Result<Settlement<MachineBumped>, GameError>)
    ensures
        match ctx.refusal() {
            Some(e) => refused(r, e),
            None => refused(r, GameError::ClockUnavailable) || exists|now: i64|
                r == #[trigger] ctx.outcome(now),
        },
{
    authorize_owner(&ctx.program_id, &ctx.game_state, &ctx.player)?;
    match unix_timestamp() {
        Some(now) => bump_machine_authorized(ctx, now),
        None => Err(GameError::ClockUnavailable),
    }
}

/// `bump_machine` at the clock reading `now`.
pub fn bump_machine_at(
    ctx: &BumpMachine,
    now: i64,
) -> (r: Result<Settlement<MachineBumped>, GameError>)
    ensures
        r == ctx.outcome(now),
{
    authorize_owner(&ctx.program_id, &ctx.game_state, &ctx.player)?;
    bump_machine_authorized(ctx, now)
}

/// What a bump by the owner comes to.
fn bump_machine_authorized(
    ctx: &BumpMachine,
    now: i64,
) -> (r: Result<Settlement<MachineBumped>, GameError>)
    requires
        owner_authorized(ctx.program_id, ctx.game_state, ctx.player),
    ensures
        r == ctx.outcome(now),
{
    let mut game_state = ctx.game_state.data;
    game_state.bump_machine(now)?;
    let transfer = debit_tokens(
        ctx.player.key,
        ctx.player_junk_account,
        ctx.vault_junk_account,
        BUMP_PRICE,
    );
    let event = MachineBumped {
        player: ctx.player.key,
        cost: BUMP_COST,
        new_balance: game_state.balance,
        timestamp: now,
    };
    Ok(Settlement { transfer, game_state, event })
}

impl DropCoin {
    /// Why `drop_coin` is refused whatever the clock reads, if it is.
    pub open spec fn refusal(self) -> Option<GameError> {
        if !owner_authorized(self.program_id, self.game_state, self.player) {
            Some(GameError::Unauthorized)
        } else {
            None
        }
    }

    /// What `drop_coin_at` returns.
    pub open spec fn outcome(self, now: i64) -> Result<Settlement<CoinDropped>, GameError> {
        if !owner_authorized(self.program_id, self.game_state, self.player) {
            Err(GameError::Unauthorized)
        } else {
            let game_state = self.game_state.data.with_spend(DROP_COST, now);
            Ok(
                Settlement {
                    transfer: token_debit(
                        self.player.key,
                        self.player_junk_account,
                        self.vault_junk_account,
                        DROP_PRICE,
                    ),
                    game_state,
                    event: CoinDropped {
                        player: self.player.key,
                        cost: DROP_COST,
                        new_balance: game_state.balance,
                        timestamp: now,
                    },
                },
            )
        }
    }
}

/// Drops a coin, for one token and one unit of the game balance, at the reading of
/// the ledger's clock.
pub fn drop_coin(ctx: &DropCoin) -> (r: Result<Settlement<CoinDropped>, GameError>)
    ensures
        match ctx.refusal() {
            Some(e) => refused(r, e),
            None => refused(r, GameError::ClockUnavailable) || exists|now: i64|
                r == #[trigger] ctx.outcome(now),
        },
{
    authorize_owner(&ctx.program_id, &ctx.game_state, &ctx.player)?;
    match unix_timestamp() {
        Some(now) => drop_coin_authorized(ctx, now),
        None => Err(GameError::ClockUnavailable),
    }
}

/// `drop_coin` at the clock reading `now`.
pub fn drop_coin_at(ctx: &DropCoin, now: i64) -> (r: Result<Settlement<CoinDropped>, GameError>)
    ensures
        r == ctx.outcome(now),
{
    authorize_owner(&ctx.program_id, &ctx.game_state, &ctx.player)?;
    drop_coin_authorized(ctx, now)
}

/// What a drop by the owner comes to.
fn drop_coin_authorized(ctx: &DropCoin, now: i64) -> (r: Result<Settlement<CoinDropped>, GameError>)
    requires
        owner_authorized(ctx.program_id, ctx.game_state, ctx.player),
    ensures
        r == ctx.outcome(now),
{
    let mut game_state = ctx.game_state.data;
    game_state.drop_coin(now);
    let transfer = debit_tokens(
        ctx.player.key,
        ctx.player_junk_account,
        ctx.vault_junk_account,
        DROP_PRICE,
    );
    let event = CoinDropped {
        player: ctx.player.key,
        cost: DROP_COST,
        new_balance: game_state.balance,
        timestamp: now,
    };
    Ok(Settlement { transfer, game_state, event })
}

impl AwardTrashcoin {
    /// The payment out of the vault's holding to the player's, signed by the
    /// program for the vault authority with `bump`.
    pub open spec fn transfer(self, amount: u64, bump: u8) -> Transfer {
        Transfer {
            asset: Asset::Token,
            from: self.vault_trashcoin_account,
            to: self.player_trashcoin_account,
            authority: self.vault_authority,
            amount,
            signing: Signing::Vault { bump },
        }
    }

    /// Why `award_trashcoin` is refused whatever the clock reads, if it is.
    pub open spec fn refusal(self, amount: u64) -> Option<GameError> {
        match vault_bump(self.program_id, self.vault_authority, self.player) {
            None => Some(GameError::Unauthorized),
            Some(_) => amount_refusal(amount),
        }
    }

    /// What `award_trashcoin_at` returns.
    pub open spec fn outcome(
        self,
        amount: u64,
        now: i64,
    ) -> Result<(Transfer, TrashcoinAwarded), GameError> {
        match vault_bump(self.program_id, self.vault_authority, self.player) {
            None => Err(GameError::Unauthorized),
            Some(bump) => match amount_refusal(amount) {
                Some(e) => Err(e),
                None => Ok(
                    (
                        self.transfer(amount, bump),
                        TrashcoinAwarded { player: self.player.key, amount, timestamp: now },
                    ),
                ),
            },
        }
    }
}

/// Awards `amount` of the rare token out of the vault to the player, at the
/// reading of the ledger's clock. The caller attempts the transfer first and emits
/// the event only once it has gone through.
pub fn award_trashcoin(
    ctx: &AwardTrashcoin,
    amount: u64,
) -> (r: Result<(Transfer, TrashcoinAwarded), GameError>)
    ensures
        match ctx.refusal(amount) {
            Some(e) => refused(r, e),
            None => refused(r, GameError::ClockUnavailable) || exists|now: i64|
                r == #[trigger] ctx.outcome(amount, now),
        },
        r matches Ok((transfer, _)) ==> transfer.well_signed(ctx.program_id),
{
    let bump = authorize_vault(&ctx.program_id, &ctx.vault_authority, &ctx.player)?;
    check_amount(amount)?;
    match unix_timestamp() {
        Some(now) => award_trashcoin_authorized(ctx, amount, bump, now),
        None => Err(GameError::ClockUnavailable),
    }
}

/// `award_trashcoin` at the clock reading `now`.
pub fn award_trashcoin_at(
    ctx: &AwardTrashcoin,
    amount: u64,
    now: i64,
) -> (r: Result<(Transfer, TrashcoinAwarded), GameError>)
    ensures
        r == ctx.outcome(amount, now),
        r matches Ok((transfer, _)) ==> transfer.well_signed(ctx.program_id),
{
    let bump = authorize_vault(&ctx.program_id, &ctx.vault_authority, &ctx.player)?;
    award_trashcoin_authorized(ctx, amount, bump, now)
}

/// What an award comes to once the vault authority has been found with `bump`.
fn award_trashcoin_authorized(
    ctx: &AwardTrashcoin,
    amount: u64,
    bump: u8,
    now: i64,
) -> (r: Result<(Transfer, TrashcoinAwarded), GameError>)
    requires
        vault_bump(ctx.program_id, ctx.vault_authority, ctx.player) == Some(bump),
        vault_authority_address(ctx.program_id, bump) == Some(ctx.vault_authority@),
    ensures
        r == ctx.outcome(amount, now),
        r matches Ok((transfer, _)) ==> transfer.well_signed(ctx.program_id),
{
    check_amount(amount)?;
    let transfer = Transfer {
        asset: Asset::Token,
        from: ctx.vault_trashcoin_account,
        to: ctx.player_trashcoin_account,
        authority: ctx.vault_authority,
        amount,
        signing: Signing::Vault { bump },
    };
    Ok((transfer, TrashcoinAwarded { player: ctx.player.key, amount, timestamp: now }))
}

impl RecordCoinCollection {
    /// Why `record_coin_collection` is refused whatever the clock reads, if it is.
    pub open spec fn refusal(self, amount: u64) -> Option<GameError> {
        if !owner_authorized(self.program_id, self.game_state, self.player) {
            Some(GameError::Unauthorized)
        } else {
            amount_refusal(amount)
        }
    }

    /// The accounts after `record_coin_collection_at` and the event that it returns.
    pub open spec fn outcome(
        self,
        amount: u64,
        now: i64,
    ) -> Result<(RecordCoinCollection, CoinCollected), GameError> {
        if !owner_authorized(self.program_id, self.game_state, self.player) {
            Err(GameError::Unauthorized)
        } else {
            match self.game_state.data.try_collection(amount, now) {
                Err(e) => Err(e),
                Ok(data) => Ok(
                    (
                        RecordCoinCollection {
                            game_state: GameStateAccount { data, ..self.game_state },
                            ..self
                        },
                        CoinCollected {
                            player: self.player.key,
                            amount,
                            is_trashcoin: false,
                            new_balance: data.balance,
                            timestamp: now,
                        },
                    ),
                ),
            }
        }
    }
}

/// Records the collection of `amount` of currency, at the reading of the ledger's
/// clock.
pub fn record_coin_collection(
    ctx: &mut RecordCoinCollection,
    amount: u64,
) -> (r: Result<CoinCollected, GameError>)
    ensures
        match old(ctx).refusal(amount) {
            Some(e) => refused(r, e) && *final(ctx) == *old(ctx),
            None => (refused(r, GameError::ClockUnavailable) && *final(ctx) == *old(ctx))
                || exists|now: i64|
                carried_out(
                    #[trigger] old(ctx).outcome(amount, now),
                    *old(ctx),
                    *final(ctx),
                    r,
                ),
        },
{
    authorize_owner(&ctx.program_id, &ctx.game_state, &ctx.player)?;
    check_amount(amount)?;
    match unix_timestamp() {
        Some(now) => record_coin_collection_authorized(ctx, amount, now),
        None => Err(GameError::ClockUnavailable),
    }
}

/// `record_coin_collection` at the clock reading `now`.
pub fn record_coin_collection_at(
    ctx: &mut RecordCoinCollection,
    amount: u64,
    now: i64,
) -> (r: Result<CoinCollected, GameError>)
    ensures
        carried_out(old(ctx).outcome(amount, now), *old(ctx), *final(ctx), r),
{
    authorize_owner(&ctx.program_id, &ctx.game_state, &ctx.player)?;
    record_coin_collection_authorized(ctx, amount, now)
}

/// What the recording of a collection by the owner comes to.
fn record_coin_collection_authorized(
    ctx: &mut RecordCoinCollection,
    amount: u64,
    now: i64,
) -> (r: Result<CoinCollected, GameError>)
    requires
        owner_authorized(old(ctx).program_id, old(ctx).game_state, old(ctx).player),
    ensures
        carried_out(old(ctx).outcome(amount, now), *old(ctx), *final(ctx), r),
{
    ctx.game_state.data.record_collection(amount, now)?;
    Ok(
        CoinCollected {
            player: ctx.player.key,
            amount,
            is_trashcoin: false,
            new_balance: ctx.game_state.data.balance,
            timestamp: now,
        },
    )
}

impl CollectCoin {
    /// Why `collect_coin` is refused whatever the clock reads, if it is.
    pub open spec fn refusal(self) -> Option<GameError> {
        if !owner_authorized(self.program_id, self.game_state, self.player) {
            Some(GameError::Unauthorized)
        } else {
            None
        }
    }

    /// The accounts after `collect_coin_at` and the event that it returns.
    pub open spec fn outcome(
        self,
        is_trashcoin: bool,
        now: i64,
    ) -> Result<(CollectCoin, CoinCollected), GameError> {
        if !owner_authorized(self.program_id, self.game_state, self.player) {
            Err(GameError::Unauthorized)
        } else {
            let data = self.game_state.data.with_reward(is_trashcoin, now);
            Ok(
                (
                    CollectCoin {
                        game_state: GameStateAccount { data, ..self.game_state },
                        ..self
                    },
                    CoinCollected {
                        player: self.player.key,
                        amount: reward_for(is_trashcoin),
                        is_trashcoin,
                        new_balance: data.balance,
                        timestamp: now,
                    },
                ),
            )
        }
    }
}

/// Collects one coin, five units for a rare one and one unit for an ordinary one,
/// at the reading of the ledger's clock.
pub fn collect_coin(
    ctx: &mut CollectCoin,
    is_trashcoin: bool,
) -> (r: Result<CoinCollected, GameError>)
    ensures
        match old(ctx).refusal() {
            Some(e) => refused(r, e) && *final(ctx) == *old(ctx),
            None => (refused(r, GameError::ClockUnavailable) && *final(ctx) == *old(ctx))
                || exists|now: i64|
                carried_out(
                    #[trigger] old(ctx).outcome(is_trashcoin, now),
                    *old(ctx),
                    *final(ctx),
                    r,
                ),
        },
{
    authorize_owner(&ctx.program_id, &ctx.game_state, &ctx.player)?;
    match unix_timestamp() {
        Some(now) => collect_coin_authorized(ctx, is_trashcoin, now),
        None => Err(GameError::ClockUnavailable),
    }
}

/// `collect_coin` at the clock reading `now`.
pub fn collect_coin_at(
    ctx: &mut CollectCoin,
    is_trashcoin: bool,
    now: i64,
) -> (r: Result<CoinCollected, GameError>)
    ensures
        carried_out(old(ctx).outcome(is_trashcoin, now), *old(ctx), *final(ctx), r),
{
    authorize_owner(&ctx.program_id, &ctx.game_state, &ctx.player)?;
    collect_coin_authorized(ctx, is_trashcoin, now)
}

/// What the collection of a coin by the owner comes to.
fn collect_coin_authorized(
    ctx: &mut CollectCoin,
    is_trashcoin: bool,
    now: i64,
) -> (r: Result<CoinCollected, GameError>)
    requires
        owner_authorized(old(ctx).program_id, old(ctx).game_state, old(ctx).player),
    ensures
        carried_out(old(ctx).outcome(is_trashcoin, now), *old(ctx), *final(ctx), r),
{
    let reward = ctx.game_state.data.collect_reward(is_trashcoin, now);
    Ok(
        CoinCollected {
            player: ctx.player.key,
            amount: reward,
            is_trashcoin,
            new_balance: ctx.game_state.data.balance,
            timestamp: now,
        },
    )
}

impl InitializeGame {
    /// Whether the slot holds a record on which the caller is authorized to invoke
    /// the instructions that act on an existing record.
    pub open spec fn holds_record_of_caller(self) -> bool {
        &&& self.game_state.data matches Some(data)
        &&& owner_authorized(
            self.program_id,
            GameStateAccount { key: self.game_state.key, data },
            self.player,
        )
    }

    /// Why `initialize_game` is refused whatever the clock reads, if it is.
    pub open spec fn refusal(self) -> Option<GameError> {
        if creation_bump(self.program_id, self.game_state.key, self.player) is None {
            Some(GameError::Unauthorized)
        } else if self.game_state.data is Some {
            Some(GameError::AlreadyExists)
        } else {
            None
        }
    }

    /// The accounts after `initialize_game_at` and the event that it returns.
    pub open spec fn outcome(
        self,
        initial_balance: u64,
        now: i64,
    ) -> Result<(InitializeGame, GameInitialized), GameError> {
        match creation_bump(self.program_id, self.game_state.key, self.player) {
            None => Err(GameError::Unauthorized),
            Some(bump) => if self.game_state.data is Some {
                Err(GameError::AlreadyExists)
            } else {
                Ok(
                    (
                        InitializeGame {
                            game_state: GameStateSlot {
                                data: Some(
                                    GameState::created(self.player.key, initial_balance, bump, now),
                                ),
                                ..self.game_state
                            },
                            ..self
                        },
                        GameInitialized {
                            player: self.player.key,
                            initial_balance,
                            timestamp: now,
                        },
                    ),
                )
            },
        }
    }
}

/// Creates the caller's record with `initial_balance`, at the reading of the
/// ledger's clock. The record that it creates is one on which the caller is
/// authorized from then on.
pub fn initialize_game(
    ctx: &mut InitializeGame,
    initial_balance: u64,
) -> (r: Result<GameInitialized, GameError>)
    ensures
        match old(ctx).refusal() {
            Some(e) => refused(r, e) && *final(ctx) == *old(ctx),
            None => (refused(r, GameError::ClockUnavailable) && *final(ctx) == *old(ctx))
                || exists|now: i64|
                carried_out(
                    #[trigger] old(ctx).outcome(initial_balance, now),
                    *old(ctx),
                    *final(ctx),
                    r,
                ),
        },
        r is Ok ==> final(ctx).holds_record_of_caller(),
{
    let bump = authorize_creation(&ctx.program_id, &ctx.game_state.key, &ctx.player)?;
    if ctx.game_state.data.is_some() {
        return Err(GameError::AlreadyExists);
    }
    match unix_timestamp() {
        Some(now) => initialize_game_authorized(ctx, initial_balance, bump, now),
        None => Err(GameError::ClockUnavailable),
    }
}

/// `initialize_game` at the clock reading `now`.
pub fn initialize_game_at(
    ctx: &mut InitializeGame,
    initial_balance: u64,
    now: i64,
) -> (r: Result<GameInitialized, GameError>)
    ensures
        carried_out(old(ctx).outcome(initial_balance, now), *old(ctx), *final(ctx), r),
        r is Ok ==> final(ctx).holds_record_of_caller(),
{
    let bump = authorize_creation(&ctx.program_id, &ctx.game_state.key, &ctx.player)?;
    initialize_game_authorized(ctx, initial_balance, bump, now)
}

/// What an initialization comes to once the caller's address has been found with
/// `bump`.
fn initialize_game_authorized(
    ctx: &mut InitializeGame,
    initial_balance: u64,
    bump: u8,
    now: i64,
) -> (r: Result<GameInitialized, GameError>)
    requires
        creation_bump(old(ctx).program_id, old(ctx).game_state.key, old(ctx).player) == Some(bump),
        game_state_address(old(ctx).program_id, old(ctx).player.key, bump) == Some(
            old(ctx).game_state.key@,
        ),
    ensures
        carried_out(old(ctx).outcome(initial_balance, now), *old(ctx), *final(ctx), r),
        r is Ok ==> final(ctx).holds_record_of_caller(),
{
    if ctx.game_state.data.is_some() {
        return Err(GameError::AlreadyExists);
    }
    ctx.game_state.data = Some(GameState::new(ctx.player.key, initial_balance, bump, now));
    Ok(GameInitialized { player: ctx.player.key, initial_balance, timestamp: now })
}

impl ResetGame {
    /// Why `reset_game` is refused whatever the clock reads, if it is.
    pub open spec fn refusal(self) -> Option<GameError> {
        if !owner_authorized(self.program_id, self.game_state, self.player) {
            Some(GameError::Unauthorized)
        } else {
            None
        }
    }

    /// The accounts after `reset_game_at` and the event that it returns.
    pub open spec fn outcome(self, now: i64) -> Result<(ResetGame, GameReset), GameError> {
        if !owner_authorized(self.program_id, self.game_state, self.player) {
            Err(GameError::Unauthorized)
        } else {
            Ok(
                (
                    ResetGame {
                        game_state: GameStateAccount {
                            data: self.game_state.data.after_reset(now),
                            ..self.game_state
                        },
                        ..self
                    },
                    GameReset { player: self.player.key, timestamp: now },
                ),
            )
        }
    }
}

/// Returns the counters of the record to their defaults, at the reading of the
/// ledger's clock.
pub fn reset_game(ctx: &mut ResetGame) -> (r: Result<GameReset, GameError>)
    ensures
        match old(ctx).refusal() {
            Some(e) => refused(r, e) && *final(ctx) == *old(ctx),
            None => (refused(r, GameError::ClockUnavailable) && *final(ctx) == *old(ctx))
                || exists|now: i64|
                carried_out(
                    #[trigger] old(ctx).outcome(now),
                    *old(ctx),
                    *final(ctx),
                    r,
                ),
        },
{
    authorize_owner(&ctx.program_id, &ctx.game_state, &ctx.player)?;
    match unix_timestamp() {
        Some(now) => reset_game_authorized(ctx, now),
        None => Err(GameError::ClockUnavailable),
    }
}

/// `reset_game` at the clock reading `now`.
pub fn reset_game_at(ctx: &mut ResetGame, now: i64) -> (r: Result<GameReset, GameError>)
    ensures
        carried_out(old(ctx).outcome(now), *old(ctx), *final(ctx), r),
{
    authorize_owner(&ctx.program_id, &ctx.game_state, &ctx.player)?;
    reset_game_authorized(ctx, now)
}

/// What a reset by the owner comes to.
fn reset_game_authorized(ctx: &mut ResetGame, now: i64) -> (r: Result<GameReset, GameError>)
    requires
        owner_authorized(old(ctx).program_id, old(ctx).game_state, old(ctx).player),
    ensures
        carried_out(old(ctx).outcome(now), *old(ctx), *final(ctx), r),
{
    ctx.game_state.data.reset(now);
    Ok(GameReset { player: ctx.player.key, timestamp: now })
}

impl RecordScore {
    /// Why `record_score` is refused whatever the clock reads, if it is.
    pub open spec fn refusal(self) -> Option<GameError> {
        if !owner_authorized(self.program_id, self.game_state, self.player) {
            Some(GameError::Unauthorized)
        } else {
            None
        }
    }

    /// The accounts after `record_score_at` and the event that it returns.
    pub open spec fn outcome(
        self,
        score: u64,
        now: i64,
    ) -> Result<(RecordScore, ScoreRecorded), GameError> {
        if !owner_authorized(self.program_id, self.game_state, self.player) {
            Err(GameError::Unauthorized)
        } else {
            Ok(
                (
                    RecordScore {
                        game_state: GameStateAccount {
                            data: self.game_state.data.with_score(score, now),
                            ..self.game_state
                        },
                        ..self
                    },
                    ScoreRecorded { player: self.player.key, score, timestamp: now },
                ),
            )
        }
    }
}

/// Overwrites the score of the record with `score`, whatever it was, at the
/// reading of the ledger's clock.
pub fn record_score(ctx: &mut RecordScore, score: u64) -> (r: Result<ScoreRecorded, GameError>)
    ensures
        match old(ctx).refusal() {
            Some(e) => refused(r, e) && *final(ctx) == *old(ctx),
            None => (refused(r, GameError::ClockUnavailable) && *final(ctx) == *old(ctx))
                || exists|now: i64|
                carried_out(
                    #[trigger] old(ctx).outcome(score, now),
                    *old(ctx),
                    *final(ctx),
                    r,
                ),
        },
{
    authorize_owner(&ctx.program_id, &ctx.game_state, &ctx.player)?;
    match unix_timestamp() {
        Some(now) => record_score_authorized(ctx, score, now),
        None => Err(GameError::ClockUnavailable),
    }
}

/// `record_score` at the clock reading `now`.
pub fn record_score_at(
    ctx: &mut RecordScore,
    score: u64,
    now: i64,
) -> (r: Result<ScoreRecorded, GameError>)
    ensures
        carried_out(old(ctx).outcome(score, now), *old(ctx), *final(ctx), r),
{
    authorize_owner(&ctx.program_id, &ctx.game_state, &ctx.player)?;
    record_score_authorized(ctx, score, now)
}

/// What the recording of a score by the owner comes to.
fn record_score_authorized(
    ctx: &mut RecordScore,
    score: u64,
    now: i64,
) -> (r: Result<ScoreRecorded, GameError>)
    requires
        owner_authorized(old(ctx).program_id, old(ctx).game_state, old(ctx).player),
    ensures
        carried_out(old(ctx).outcome(score, now), *old(ctx), *final(ctx), r),
{
    ctx.game_state.data.record_score(score, now);
    Ok(ScoreRecorded { player: ctx.player.key, score, timestamp: now })
}

} // verus!
