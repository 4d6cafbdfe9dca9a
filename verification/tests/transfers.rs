use anchor_lang::prelude::Pubkey;
use junk_pusher_game::address::{find_game_state_address, find_vault_authority};
use junk_pusher_game::{
    award_trashcoin_at, withdraw_balance_at, Address, AwardTrashcoin, BalanceWithdrawn, Caller,
    GameState, GameStateAccount, Signing, WithdrawBalance,
};

const PROGRAM: Address = Address { bytes: [7; 32] };
const PLAYER: Address = Address { bytes: [1; 32] };
const TOKENS: Address = Address { bytes: [3; 32] };

fn derived(signers: &[Vec<Vec<u8>>]) -> Vec<[u8; 32]> {
    signers
        .iter()
        .map(|seeds| {
            let parts: Vec<&[u8]> = seeds.iter().map(Vec::as_slice).collect();
            Pubkey::create_program_address(&parts, &Pubkey::new_from_array(PROGRAM.bytes))
                .unwrap()
                .to_bytes()
        })
        .collect()
}

#[test]
fn caller_adds_no_signer() {
    assert_eq!(Signing::Caller.signers(), Vec::<Vec<Vec<u8>>>::new());
}

#[test]
fn game_state_signs_with_tag_player_and_bump() {
    let signing = Signing::GameState { player: PLAYER, bump: 254 };
    assert_eq!(signing.signers(), vec![vec![b"game_state".to_vec(), vec![1; 32], vec![254]]]);
}

#[test]
fn vault_signs_with_tag_and_bump() {
    let signing = Signing::Vault { bump: 3 };
    assert_eq!(signing.signers(), vec![vec![b"vault".to_vec(), vec![3]]]);
}

#[test]
fn withdrawal_is_signed_for_the_address_of_the_record() {
    let (key, bump) = find_game_state_address(&PROGRAM, &PLAYER).unwrap();
    let ctx = WithdrawBalance {
        program_id: PROGRAM,
        game_state: GameStateAccount { key, data: GameState::new(PLAYER, 100, bump, 0) },
        player: Caller { key: PLAYER, is_signer: true },
    };
    let settlement = withdraw_balance_at(&ctx, 10, 1).unwrap();
    assert_eq!(settlement.transfer.authority, key);
    assert_eq!(derived(&settlement.transfer.signing.signers()), vec![key.bytes]);
}

#[test]
fn award_is_signed_for_the_vault_authority() {
    let (vault_authority, _) = find_vault_authority(&PROGRAM).unwrap();
    let ctx = AwardTrashcoin {
        program_id: PROGRAM,
        vault_authority,
        vault_trashcoin_account: TOKENS,
        player_trashcoin_account: TOKENS,
        player: Caller { key: PLAYER, is_signer: true },
    };
    let (transfer, _) = award_trashcoin_at(&ctx, 10, 1).unwrap();
    assert_eq!(transfer.authority, vault_authority);
    assert_eq!(derived(&transfer.signing.signers()), vec![vault_authority.bytes]);
}

#[test]
fn a_failed_transfer_leaves_nothing_to_store_or_emit() {
    let (key, bump) = find_game_state_address(&PROGRAM, &PLAYER).unwrap();
    let ctx = WithdrawBalance {
        program_id: PROGRAM,
        game_state: GameStateAccount { key, data: GameState::new(PLAYER, 100, bump, 0) },
        player: Caller { key: PLAYER, is_signer: true },
    };
    assert_eq!(withdraw_balance_at(&ctx, 10, 1).unwrap().concluded(false), None);
    let (record, event) = withdraw_balance_at(&ctx, 10, 1).unwrap().concluded(true).unwrap();
    assert_eq!(record, GameState { balance: 90, last_updated: 1, ..ctx.game_state.data });
    assert_eq!(event, BalanceWithdrawn { player: PLAYER, amount: 10, new_balance: 90 });
    assert_eq!(ctx.game_state.data.balance, 100);
}
