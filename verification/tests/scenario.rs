use junk_pusher_game::address::find_game_state_address;
use junk_pusher_game::{
    initialize_game_at, record_coin_collection_at, withdraw_balance_at, Address, Caller,
    GameError, GameStateAccount, GameStateSlot, InitializeGame, RecordCoinCollection,
    WithdrawBalance,
};

#[test]
fn a_session_from_initialization_to_withdrawal() {
    let program_id = Address { bytes: [7; 32] };
    let player = Caller { key: Address { bytes: [1; 32] }, is_signer: true };
    let (key, _) = find_game_state_address(&program_id, &player.key).unwrap();
    let t: i64 = 1_700_000_000;

    let mut init =
        InitializeGame { program_id, game_state: GameStateSlot { key, data: None }, player };
    initialize_game_at(&mut init, 100, t).unwrap();
    let data = init.game_state.data.unwrap();
    assert_eq!((data.score, data.total_coins_collected, data.balance), (0, 0, 100));

    let mut record =
        RecordCoinCollection { program_id, game_state: GameStateAccount { key, data }, player };
    record_coin_collection_at(&mut record, 10, t + 2).unwrap();
    assert_eq!(record.game_state.data.balance, 110);
    assert_eq!(record.game_state.data.total_coins_collected, 1);

    assert_eq!(record_coin_collection_at(&mut record, 5, t + 2), Err(GameError::TooManyRequests));
    assert_eq!(record.game_state.data.balance, 110);
    assert_eq!(record.game_state.data.total_coins_collected, 1);

    let withdraw = WithdrawBalance { program_id, game_state: record.game_state, player };
    assert_eq!(withdraw_balance_at(&withdraw, 200, t + 3), Err(GameError::InsufficientBalance));
    assert_eq!(withdraw.game_state.data.balance, 110);

    let settlement = withdraw_balance_at(&withdraw, 50, t + 3).unwrap();
    assert_eq!(settlement.game_state.balance, 60);
    assert_eq!(settlement.event.new_balance, 60);
    assert_eq!(settlement.transfer.amount, 50);
}
