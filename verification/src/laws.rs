//! What holds of the instructions taken together.

use crate::accounts::{
    creation_bump, owner_authorized, AwardTrashcoin, BumpMachine, Caller, CollectCoin,
    DepositBalance, DropCoin, GameStateAccount, InitializeGame, RecordCoinCollection, RecordScore,
    ResetGame, WithdrawBalance,
};
use crate::address::Address;
use crate::error::GameError;
use crate::instructions::refused;
use crate::state::{
    clamp_u64, reward_for, GameState, BUMP_COST, DEFAULT_BALANCE, DROP_COST, MIN_INTERVAL,
};
use vstd::prelude::*;

verus! {

/// After every instruction that succeeds and moves the balance by an amount, the
/// balance is the previous balance plus or minus that amount, brought into the
/// range of the field: it neither falls below zero nor wraps. Recording a score
/// leaves it as it was.
pub proof fn law_balance_is_clamped(
    record: RecordCoinCollection,
    collect: CollectCoin,
    score: RecordScore,
    drop: DropCoin,
    bump: BumpMachine,
    deposit: DepositBalance,
    withdraw: WithdrawBalance,
    amount: u64,
    is_trashcoin: bool,
    points: u64,
    now: i64,
)
    ensures
        record.outcome(amount, now) matches Ok((after, _)) ==> after.game_state.data.balance
            == clamp_u64(record.game_state.data.balance + amount),
        collect.outcome(is_trashcoin, now) matches Ok((after, _)) ==> after.game_state.data.balance
            == clamp_u64(collect.game_state.data.balance + reward_for(is_trashcoin)),
        score.outcome(points, now) matches Ok((after, _)) ==> after.game_state.data.balance
            == score.game_state.data.balance,
        drop.outcome(now) matches Ok(settlement) ==> settlement.game_state.balance == clamp_u64(
            drop.game_state.data.balance - DROP_COST,
        ),
        bump.outcome(now) matches Ok(settlement) ==> settlement.game_state.balance == clamp_u64(
            bump.game_state.data.balance - BUMP_COST,
        ),
        deposit.outcome(amount, now) matches Ok(settlement) ==> settlement.game_state.balance
            == clamp_u64(deposit.game_state.data.balance + amount),
        withdraw.outcome(amount, now) matches Ok(settlement) ==> settlement.game_state.balance
            == withdraw.game_state.data.balance - amount,
{
}

/// After a recorded collection the profit is the new balance minus the default
/// balance, below zero where the balance is below the default, and at the top of
/// the signed range where the difference lies above it.
pub proof fn law_recorded_profit_is_balance_over_default(
    record: RecordCoinCollection,
    amount: u64,
    now: i64,
)
    ensures
        record.outcome(amount, now) matches Ok((after, _)) ==> {
            let difference = after.game_state.data.balance - DEFAULT_BALANCE;
            &&& difference <= i64::MAX ==> after.game_state.data.net_profit == difference
            &&& difference > i64::MAX ==> after.game_state.data.net_profit == i64::MAX
        },
{
}

/// A record that has just been initialized has no score, no coins and no profit,
/// holds the requested balance, belongs to the caller, and dates from `now`.
pub proof fn law_initialized_record(init: InitializeGame, initial_balance: u64, now: i64)
    ensures
        init.outcome(initial_balance, now) matches Ok((after, _)) ==> {
            &&& after.game_state.data matches Some(data)
            &&& data.player == init.player.key
            &&& data.score == 0
            &&& data.balance == initial_balance
            &&& data.net_profit == 0
            &&& data.total_coins_collected == 0
            &&& data.trashcoins_collected == 0
            &&& data.created_at == now
            &&& data.last_updated == now
        },
{
}

/// Initialization is refused wherever a record exists already, and nowhere else
/// once the caller is authorized.
pub proof fn law_one_record_per_address(init: InitializeGame, initial_balance: u64, now: i64)
    ensures
        init.game_state.data is Some ==> init.outcome(initial_balance, now) is Err,
        creation_bump(init.program_id, init.game_state.key, init.player) is Some ==> (init.outcome(
            initial_balance,
            now,
        ) is Ok <==> init.game_state.data is None),
{
}

/// A player's record can be created at one address only.
pub proof fn law_one_address_per_player(
    first: InitializeGame,
    second: InitializeGame,
    initial_balance: u64,
    now: i64,
)
    requires
        first.program_id == second.program_id,
        first.player.key == second.player.key,
    ensures
        first.outcome(initial_balance, now) is Ok && second.outcome(initial_balance, now) is Ok
            ==> first.game_state.key == second.game_state.key,
{
    if first.outcome(initial_balance, now) is Ok && second.outcome(initial_balance, now) is Ok {
        assert(first.game_state.key@ == second.game_state.key@);
        assert(first.game_state.key.bytes =~= second.game_state.key.bytes);
    }
}

/// After a recorded collection, a second one of a positive amount at the same
/// clock reading is refused as coming too soon, and one at least one time unit
/// later succeeds.
pub proof fn law_collections_are_rate_limited(
    record: RecordCoinCollection,
    first_amount: u64,
    second_amount: u64,
    now: i64,
    later: i64,
)
    requires
        second_amount > 0,
    ensures
        record.outcome(first_amount, now) matches Ok((after, _)) ==> {
            &&& (after.outcome(second_amount, now) matches Err(e) && e
                == GameError::TooManyRequests)
            &&& later - now >= MIN_INTERVAL ==> after.outcome(second_amount, later) is Ok
        },
{
}

/// A withdrawal of more than the balance never succeeds, and from the owner it
/// is refused as exceeding the balance.
pub proof fn law_overdraw_is_refused(withdraw: WithdrawBalance, amount: u64, now: i64)
    requires
        amount > withdraw.game_state.data.balance,
    ensures
        withdraw.outcome(amount, now) is Err,
        owner_authorized(withdraw.program_id, withdraw.game_state, withdraw.player)
            ==> (withdraw.outcome(amount, now) matches Err(e) && e
            == GameError::InsufficientBalance),
{
}

/// A deposit followed by a withdrawal of the same amount restores the balance,
/// provided that the deposit did not bring the balance to the top of its range.
pub proof fn law_deposit_then_withdraw(deposit: DepositBalance, amount: u64, now: i64, later: i64)
    requires
        deposit.game_state.data.balance + amount <= u64::MAX,
    ensures
        deposit.outcome(amount, now) matches Ok(deposited) ==> {
            let withdraw = WithdrawBalance {
                program_id: deposit.program_id,
                game_state: GameStateAccount {
                    key: deposit.game_state.key,
                    data: deposited.game_state,
                },
                player: deposit.player,
            };
            &&& withdraw.outcome(amount, later) matches Ok(withdrawn)
            &&& withdrawn.game_state.balance == deposit.game_state.data.balance
        },
{
}

/// A reset leaves the default balance, whatever the balance was, and clears the
/// score, the profit and both counters.
pub proof fn law_reset_restores_defaults(reset: ResetGame, now: i64)
    ensures
        reset.outcome(now) matches Ok((after, _)) ==> {
            &&& after.game_state.data.balance == DEFAULT_BALANCE
            &&& after.game_state.data.score == 0
            &&& after.game_state.data.net_profit == 0
            &&& after.game_state.data.total_coins_collected == 0
            &&& after.game_state.data.trashcoins_collected == 0
        },
{
}

/// Below the top of each field's range, collecting a rare coin adds five to score
/// and balance and one to both counters; collecting an ordinary coin adds one to
/// score and balance and one to the total counter only.
pub proof fn law_reward_sizes(collect: CollectCoin, now: i64)
    requires
        collect.game_state.data.score + 5 <= u64::MAX,
        collect.game_state.data.balance + 5 <= u64::MAX,
        collect.game_state.data.total_coins_collected < u64::MAX,
        collect.game_state.data.trashcoins_collected < u64::MAX,
    ensures
        collect.outcome(true, now) matches Ok((after, event)) ==> {
            &&& after.game_state.data.score == collect.game_state.data.score + 5
            &&& after.game_state.data.balance == collect.game_state.data.balance + 5
            &&& after.game_state.data.total_coins_collected
                == collect.game_state.data.total_coins_collected + 1
            &&& after.game_state.data.trashcoins_collected
                == collect.game_state.data.trashcoins_collected + 1
            &&& event.amount == 5
        },
        collect.outcome(false, now) matches Ok((after, event)) ==> {
            &&& after.game_state.data.score == collect.game_state.data.score + 1
            &&& after.game_state.data.balance == collect.game_state.data.balance + 1
            &&& after.game_state.data.total_coins_collected
                == collect.game_state.data.total_coins_collected + 1
            &&& after.game_state.data.trashcoins_collected
                == collect.game_state.data.trashcoins_collected
            &&& event.amount == 1
        },
{
}

/// A caller who is not authorized on a record is refused by every instruction on
/// it, whatever the inputs.
pub proof fn law_unauthorized_is_refused(
    program_id: Address,
    game_state: GameStateAccount,
    player: Caller,
    tokens: Address,
    vault: Address,
    amount: u64,
    is_trashcoin: bool,
    points: u64,
    now: i64,
)
    ensures
        !owner_authorized(program_id, game_state, player) ==> {
            &&& (RecordCoinCollection { program_id, game_state, player }).outcome(amount, now)
                matches Err(e) && e == GameError::Unauthorized
            &&& (CollectCoin { program_id, game_state, player }).outcome(is_trashcoin, now)
                matches Err(e) && e == GameError::Unauthorized
            &&& (RecordScore { program_id, game_state, player }).outcome(points, now) matches Err(e)
                && e == GameError::Unauthorized
            &&& (ResetGame { program_id, game_state, player }).outcome(now) matches Err(e) && e
                == GameError::Unauthorized
            &&& (DepositBalance { program_id, game_state, player }).outcome(amount, now)
                matches Err(e) && e == GameError::Unauthorized
            &&& (WithdrawBalance { program_id, game_state, player }).outcome(amount, now)
                matches Err(e) && e == GameError::Unauthorized
            &&& (DropCoin {
                program_id,
                game_state,
                player,
                player_junk_account: tokens,
                vault_junk_account: vault,
            }).outcome(now) matches Err(e) && e == GameError::Unauthorized
            &&& (BumpMachine {
                program_id,
                game_state,
                player,
                player_junk_account: tokens,
                vault_junk_account: vault,
            }).outcome(now) matches Err(e) && e == GameError::Unauthorized
        },
{
}

/// What an instruction refuses before it reads the clock, it refuses at every
/// reading and with the same error. What it does not refuse there succeeds at
/// every reading, but for the two rate-limited instructions, which may still
/// refuse an action that comes too soon.
pub proof fn law_refusals_need_no_clock(
    init: InitializeGame,
    record: RecordCoinCollection,
    collect: CollectCoin,
    score: RecordScore,
    reset: ResetGame,
    drop: DropCoin,
    bump: BumpMachine,
    deposit: DepositBalance,
    withdraw: WithdrawBalance,
    award: AwardTrashcoin,
    amount: u64,
    is_trashcoin: bool,
    points: u64,
    now: i64,
)
    ensures
        match init.refusal() {
            Some(e) => refused(init.outcome(amount, now), e),
            None => init.outcome(amount, now) is Ok,
        },
        match record.refusal(amount) {
            Some(e) => refused(record.outcome(amount, now), e),
            None => record.outcome(amount, now) is Ok || refused(
                record.outcome(amount, now),
                GameError::TooManyRequests,
            ),
        },
        match collect.refusal() {
            Some(e) => refused(collect.outcome(is_trashcoin, now), e),
            None => collect.outcome(is_trashcoin, now) is Ok,
        },
        match score.refusal() {
            Some(e) => refused(score.outcome(points, now), e),
            None => score.outcome(points, now) is Ok,
        },
        match reset.refusal() {
            Some(e) => refused(reset.outcome(now), e),
            None => reset.outcome(now) is Ok,
        },
        match drop.refusal() {
            Some(e) => refused(drop.outcome(now), e),
            None => drop.outcome(now) is Ok,
        },
        match bump.refusal() {
            Some(e) => refused(bump.outcome(now), e),
            None => bump.outcome(now) is Ok || refused(
                bump.outcome(now),
                GameError::TooManyRequests,
            ),
        },
        match deposit.refusal(amount) {
            Some(e) => refused(deposit.outcome(amount, now), e),
            None => deposit.outcome(amount, now) is Ok,
        },
        match withdraw.refusal(amount) {
            Some(e) => refused(withdraw.outcome(amount, now), e),
            None => withdraw.outcome(amount, now) is Ok,
        },
        match award.refusal(amount) {
            Some(e) => refused(award.outcome(amount, now), e),
            None => award.outcome(amount, now) is Ok,
        },
{
}

/// What no instruction on an existing record changes: its owner, its time of
/// creation and its bump seed.
pub open spec fn same_identity(before: GameState, after: GameState) -> bool {
    &&& after.player == before.player
    &&& after.created_at == before.created_at
    &&& after.bump == before.bump
}

/// No instruction changes the owner of a record, nor its time of creation, nor
/// its bump seed; and every instruction that succeeds dates the record `now`.
pub proof fn law_owner_never_changes(
    record: RecordCoinCollection,
    collect: CollectCoin,
    score: RecordScore,
    reset: ResetGame,
    drop: DropCoin,
    bump: BumpMachine,
    deposit: DepositBalance,
    withdraw: WithdrawBalance,
    amount: u64,
    is_trashcoin: bool,
    points: u64,
    now: i64,
)
    ensures
        record.outcome(amount, now) matches Ok((after, _)) ==> same_identity(
            record.game_state.data,
            after.game_state.data,
        ) && after.game_state.data.last_updated == now,
        collect.outcome(is_trashcoin, now) matches Ok((after, _)) ==> same_identity(
            collect.game_state.data,
            after.game_state.data,
        ) && after.game_state.data.last_updated == now,
        score.outcome(points, now) matches Ok((after, _)) ==> same_identity(
            score.game_state.data,
            after.game_state.data,
        ) && after.game_state.data.last_updated == now,
        reset.outcome(now) matches Ok((after, _)) ==> same_identity(
            reset.game_state.data,
            after.game_state.data,
        ) && after.game_state.data.last_updated == now,
        drop.outcome(now) matches Ok(settlement) ==> same_identity(
            drop.game_state.data,
            settlement.game_state,
        ) && settlement.game_state.last_updated == now,
        bump.outcome(now) matches Ok(settlement) ==> same_identity(
            bump.game_state.data,
            settlement.game_state,
        ) && settlement.game_state.last_updated == now,
        deposit.outcome(amount, now) matches Ok(settlement) ==> same_identity(
            deposit.game_state.data,
            settlement.game_state,
        ) && settlement.game_state.last_updated == now,
        withdraw.outcome(amount, now) matches Ok(settlement) ==> same_identity(
            withdraw.game_state.data,
            settlement.game_state,
        ) && settlement.game_state.last_updated == now,
{
}

/// Under a clock that does not run backwards, every instruction keeps a
/// well-formed record well-formed, and initialization creates one.
pub proof fn law_well_formed_is_kept(
    init: InitializeGame,
    record: RecordCoinCollection,
    collect: CollectCoin,
    score: RecordScore,
    reset: ResetGame,
    drop: DropCoin,
    bump: BumpMachine,
    deposit: DepositBalance,
    withdraw: WithdrawBalance,
    amount: u64,
    is_trashcoin: bool,
    points: u64,
    now: i64,
)
    ensures
        init.outcome(amount, now) matches Ok((after, _)) ==> after.game_state.data matches Some(
            data,
        ) && data.well_formed(),
        record.game_state.data.well_formed() ==> (record.outcome(amount, now) matches Ok((after, _))
            ==> after.game_state.data.well_formed()),
        collect.game_state.data.well_formed() && now >= collect.game_state.data.last_updated ==> (
        collect.outcome(is_trashcoin, now) matches Ok((after, _))
            ==> after.game_state.data.well_formed()),
        score.game_state.data.well_formed() && now >= score.game_state.data.last_updated ==> (
        score.outcome(points, now) matches Ok((after, _)) ==> after.game_state.data.well_formed()),
        reset.game_state.data.well_formed() && now >= reset.game_state.data.last_updated ==> (
        reset.outcome(now) matches Ok((after, _)) ==> after.game_state.data.well_formed()),
        drop.game_state.data.well_formed() && now >= drop.game_state.data.last_updated ==> (
        drop.outcome(now) matches Ok(settlement) ==> settlement.game_state.well_formed()),
        bump.game_state.data.well_formed() ==> (bump.outcome(now) matches Ok(settlement)
            ==> settlement.game_state.well_formed()),
        deposit.game_state.data.well_formed() && now >= deposit.game_state.data.last_updated ==> (
        deposit.outcome(amount, now) matches Ok(settlement)
            ==> settlement.game_state.well_formed()),
        withdraw.game_state.data.well_formed() && now >= withdraw.game_state.data.last_updated ==> (
        withdraw.outcome(amount, now) matches Ok(settlement)
            ==> settlement.game_state.well_formed()),
{
}

/// The owner of a record stays authorized after every instruction: what the
/// authorization reads is what no instruction changes.
pub proof fn law_authorization_is_kept(
    program_id: Address,
    account: GameStateAccount,
    player: Caller,
    data: GameState,
)
    requires
        same_identity(account.data, data),
    ensures
        owner_authorized(program_id, account, player) ==> owner_authorized(
            program_id,
            GameStateAccount { key: account.key, data },
            player,
        ),
{
}

} // verus!
