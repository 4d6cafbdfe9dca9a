use junk_pusher_game::address::{find_game_state_address, find_vault_authority};
use junk_pusher_game::{
    award_trashcoin, bump_machine, collect_coin, deposit_balance, drop_coin, initialize_game,
    record_coin_collection, record_score, reset_game, withdraw_balance, Address, AwardTrashcoin,
    BumpMachine, Caller, CollectCoin, DepositBalance, DropCoin, GameError, GameState,
    GameStateAccount, GameStateSlot, InitializeGame, RecordCoinCollection, RecordScore,
    ResetGame, WithdrawBalance,
};

const PROGRAM: Address = Address { bytes: [7; 32] };
const PLAYER: Address = Address { bytes: [1; 32] };
const TOKENS: Address = Address { bytes: [3; 32] };

fn owner() -> Caller {
    Caller { key: PLAYER, is_signer: true }
}

fn account() -> GameStateAccount {
    let (key, bump) = find_game_state_address(&PROGRAM, &PLAYER).unwrap();
    GameStateAccount {
        key,
        data: GameState {
            player: PLAYER,
            score: 7,
            balance: 100,
            net_profit: 0,
            total_coins_collected: 3,
            trashcoins_collected: 2,
            created_at: 10,
            last_updated: 20,
            bump,
        },
    }
}

#[test]
fn without_a_clock_the_instructions_that_change_the_accounts_change_nothing() {
    let mut init = InitializeGame {
        program_id: PROGRAM,
        game_state: GameStateSlot { key: account().key, data: None },
        player: owner(),
    };
    assert_eq!(initialize_game(&mut init, 100), Err(GameError::ClockUnavailable));
    assert_eq!(init.game_state.data, None);

    let mut record =
        RecordCoinCollection { program_id: PROGRAM, game_state: account(), player: owner() };
    assert_eq!(record_coin_collection(&mut record, 10), Err(GameError::ClockUnavailable));
    assert_eq!(record.game_state, account());

    let mut collect = CollectCoin { program_id: PROGRAM, game_state: account(), player: owner() };
    assert_eq!(collect_coin(&mut collect, true), Err(GameError::ClockUnavailable));
    assert_eq!(collect.game_state, account());

    let mut score = RecordScore { program_id: PROGRAM, game_state: account(), player: owner() };
    assert_eq!(record_score(&mut score, 1), Err(GameError::ClockUnavailable));
    assert_eq!(score.game_state, account());

    let mut reset = ResetGame { program_id: PROGRAM, game_state: account(), player: owner() };
    assert_eq!(reset_game(&mut reset), Err(GameError::ClockUnavailable));
    assert_eq!(reset.game_state, account());
}

#[test]
fn without_a_clock_the_instructions_that_move_value_ask_for_nothing() {
    let deposit = DepositBalance { program_id: PROGRAM, game_state: account(), player: owner() };
    assert_eq!(deposit_balance(&deposit, 5), Err(GameError::ClockUnavailable));

    let withdraw = WithdrawBalance { program_id: PROGRAM, game_state: account(), player: owner() };
    assert_eq!(withdraw_balance(&withdraw, 5), Err(GameError::ClockUnavailable));

    let drop = DropCoin {
        program_id: PROGRAM,
        game_state: account(),
        player: owner(),
        player_junk_account: TOKENS,
        vault_junk_account: TOKENS,
    };
    assert_eq!(drop_coin(&drop), Err(GameError::ClockUnavailable));

    let bump = BumpMachine {
        program_id: PROGRAM,
        game_state: account(),
        player: owner(),
        player_junk_account: TOKENS,
        vault_junk_account: TOKENS,
    };
    assert_eq!(bump_machine(&bump), Err(GameError::ClockUnavailable));

    let (vault_authority, _) = find_vault_authority(&PROGRAM).unwrap();
    let award = AwardTrashcoin {
        program_id: PROGRAM,
        vault_authority,
        vault_trashcoin_account: TOKENS,
        player_trashcoin_account: TOKENS,
        player: owner(),
    };
    assert_eq!(award_trashcoin(&award, 5), Err(GameError::ClockUnavailable));
}

#[test]
fn without_a_clock_a_stranger_is_still_refused_as_unauthorized() {
    let stranger = Caller { key: Address { bytes: [2; 32] }, is_signer: true };
    let unsigned = Caller { key: PLAYER, is_signer: false };

    let mut record =
        RecordCoinCollection { program_id: PROGRAM, game_state: account(), player: stranger };
    assert_eq!(record_coin_collection(&mut record, 10), Err(GameError::Unauthorized));
    assert_eq!(record_coin_collection(&mut record, 0), Err(GameError::Unauthorized));
    assert_eq!(record.game_state, account());

    let mut collect = CollectCoin { program_id: PROGRAM, game_state: account(), player: unsigned };
    assert_eq!(collect_coin(&mut collect, false), Err(GameError::Unauthorized));

    let mut score = RecordScore { program_id: PROGRAM, game_state: account(), player: stranger };
    assert_eq!(record_score(&mut score, 1), Err(GameError::Unauthorized));

    let mut reset = ResetGame { program_id: PROGRAM, game_state: account(), player: stranger };
    assert_eq!(reset_game(&mut reset), Err(GameError::Unauthorized));
    assert_eq!(reset.game_state, account());

    let deposit = DepositBalance { program_id: PROGRAM, game_state: account(), player: stranger };
    assert_eq!(deposit_balance(&deposit, 5), Err(GameError::Unauthorized));

    let withdraw = WithdrawBalance { program_id: PROGRAM, game_state: account(), player: unsigned };
    assert_eq!(withdraw_balance(&withdraw, 5), Err(GameError::Unauthorized));
    assert_eq!(withdraw_balance(&withdraw, 500), Err(GameError::Unauthorized));

    let drop = DropCoin {
        program_id: PROGRAM,
        game_state: account(),
        player: stranger,
        player_junk_account: TOKENS,
        vault_junk_account: TOKENS,
    };
    assert_eq!(drop_coin(&drop), Err(GameError::Unauthorized));

    let bump = BumpMachine {
        program_id: PROGRAM,
        game_state: account(),
        player: stranger,
        player_junk_account: TOKENS,
        vault_junk_account: TOKENS,
    };
    assert_eq!(bump_machine(&bump), Err(GameError::Unauthorized));

    let award = AwardTrashcoin {
        program_id: PROGRAM,
        vault_authority: PLAYER,
        vault_trashcoin_account: TOKENS,
        player_trashcoin_account: TOKENS,
        player: owner(),
    };
    assert_eq!(award_trashcoin(&award, 5), Err(GameError::Unauthorized));

    let mut init = InitializeGame {
        program_id: PROGRAM,
        game_state: GameStateSlot { key: PLAYER, data: None },
        player: owner(),
    };
    assert_eq!(initialize_game(&mut init, 100), Err(GameError::Unauthorized));
    assert_eq!(init.game_state.data, None);
}

#[test]
fn without_a_clock_wrong_inputs_are_still_refused_for_what_they_are() {
    let mut record =
        RecordCoinCollection { program_id: PROGRAM, game_state: account(), player: owner() };
    assert_eq!(record_coin_collection(&mut record, 0), Err(GameError::InvalidAmount));
    assert_eq!(record.game_state, account());

    let deposit = DepositBalance { program_id: PROGRAM, game_state: account(), player: owner() };
    assert_eq!(deposit_balance(&deposit, 0), Err(GameError::InvalidAmount));

    let withdraw = WithdrawBalance { program_id: PROGRAM, game_state: account(), player: owner() };
    assert_eq!(withdraw_balance(&withdraw, 0), Err(GameError::InvalidAmount));
    assert_eq!(withdraw_balance(&withdraw, 101), Err(GameError::InsufficientBalance));
    assert_eq!(withdraw_balance(&withdraw, 100), Err(GameError::ClockUnavailable));

    let (vault_authority, _) = find_vault_authority(&PROGRAM).unwrap();
    let award = AwardTrashcoin {
        program_id: PROGRAM,
        vault_authority,
        vault_trashcoin_account: TOKENS,
        player_trashcoin_account: TOKENS,
        player: owner(),
    };
    assert_eq!(award_trashcoin(&award, 0), Err(GameError::InvalidAmount));

    let mut init = InitializeGame {
        program_id: PROGRAM,
        game_state: GameStateSlot { key: account().key, data: Some(account().data) },
        player: owner(),
    };
    let before = init;
    assert_eq!(initialize_game(&mut init, 100), Err(GameError::AlreadyExists));
    assert_eq!(init, before);
}
