use anchor_lang::prelude::Pubkey;
use junk_pusher_game::accounts::{authorize_creation, authorize_owner, authorize_vault};
use junk_pusher_game::address::{
    derive_game_state_address, find_game_state_address, find_vault_authority, GAME_STATE_SEED,
    VAULT_SEED,
};
use junk_pusher_game::{Address, Caller, GameError, GameState, GameStateAccount};

fn program_id() -> Address {
    Address { bytes: [7; 32] }
}

fn player() -> Address {
    Address { bytes: [1; 32] }
}

fn record(owner: Address, bump: u8) -> GameState {
    GameState {
        player: owner,
        score: 0,
        balance: 100,
        net_profit: 0,
        total_coins_collected: 0,
        trashcoins_collected: 0,
        created_at: 1_000,
        last_updated: 1_000,
        bump,
    }
}

#[test]
fn seeds_spell_their_tags() {
    assert_eq!(&GAME_STATE_SEED, b"game_state");
    assert_eq!(&VAULT_SEED, b"vault");
}

#[test]
fn addresses_compare_by_their_bytes() {
    let mut other = [1u8; 32];
    assert_eq!(player(), Address { bytes: other });
    other[31] = 2;
    assert_ne!(player(), Address { bytes: other });
    other[31] = 1;
    other[0] = 0;
    assert_ne!(player(), Address { bytes: other });
}

#[test]
fn found_game_state_address_is_the_ledgers_own() {
    let (address, bump) = find_game_state_address(&program_id(), &player()).unwrap();
    let (expected, expected_bump) = Pubkey::find_program_address(
        &[b"game_state", &player().bytes],
        &Pubkey::new_from_array(program_id().bytes),
    );
    assert_eq!(address.bytes, expected.to_bytes());
    assert_eq!(bump, expected_bump);
    assert_ne!(address, player());
    assert_ne!(address, program_id());
}

#[test]
fn found_vault_authority_is_the_ledgers_own() {
    let (address, bump) = find_vault_authority(&program_id()).unwrap();
    let (expected, expected_bump) =
        Pubkey::find_program_address(&[b"vault"], &Pubkey::new_from_array(program_id().bytes));
    assert_eq!(address.bytes, expected.to_bytes());
    assert_eq!(bump, expected_bump);
}

#[test]
fn found_addresses_differ_between_players_and_programs() {
    let (first, _) = find_game_state_address(&program_id(), &player()).unwrap();
    let (second, _) = find_game_state_address(&program_id(), &Address { bytes: [2; 32] }).unwrap();
    let (third, _) = find_game_state_address(&Address { bytes: [8; 32] }, &player()).unwrap();
    assert_ne!(first, second);
    assert_ne!(first, third);
}

#[test]
fn derived_address_with_the_found_bump_is_the_found_address() {
    let (address, bump) = find_game_state_address(&program_id(), &player()).unwrap();
    assert_eq!(derive_game_state_address(&program_id(), &player(), bump), Some(address));
    let expected = Pubkey::create_program_address(
        &[b"game_state", &player().bytes, &[bump]],
        &Pubkey::new_from_array(program_id().bytes),
    )
    .unwrap();
    assert_eq!(address.bytes, expected.to_bytes());
}

#[test]
fn derived_address_with_another_bump_is_another_address_or_none() {
    let (address, bump) = find_game_state_address(&program_id(), &player()).unwrap();
    let other = derive_game_state_address(&program_id(), &player(), bump.wrapping_sub(1));
    assert_ne!(other, Some(address));
    let expected = Pubkey::create_program_address(
        &[b"game_state", &player().bytes, &[bump.wrapping_sub(1)]],
        &Pubkey::new_from_array(program_id().bytes),
    )
    .ok()
    .map(|key| key.to_bytes());
    assert_eq!(other.map(|a| a.bytes), expected);
}

#[test]
fn owner_is_authorized_on_own_record() {
    let (key, bump) = find_game_state_address(&program_id(), &player()).unwrap();
    let account = GameStateAccount { key, data: record(player(), bump) };
    let caller = Caller { key: player(), is_signer: true };
    assert_eq!(authorize_owner(&program_id(), &account, &caller), Ok(()));
}

#[test]
fn owner_who_did_not_sign_is_unauthorized() {
    let (key, bump) = find_game_state_address(&program_id(), &player()).unwrap();
    let account = GameStateAccount { key, data: record(player(), bump) };
    let caller = Caller { key: player(), is_signer: false };
    assert_eq!(authorize_owner(&program_id(), &account, &caller), Err(GameError::Unauthorized));
}

#[test]
fn stranger_is_unauthorized_on_anothers_record() {
    let (key, bump) = find_game_state_address(&program_id(), &player()).unwrap();
    let account = GameStateAccount { key, data: record(player(), bump) };
    let stranger = Caller { key: Address { bytes: [2; 32] }, is_signer: true };
    assert_eq!(authorize_owner(&program_id(), &account, &stranger), Err(GameError::Unauthorized));
}

#[test]
fn record_at_a_foreign_address_is_unauthorized() {
    let (_, bump) = find_game_state_address(&program_id(), &player()).unwrap();
    let stranger = Address { bytes: [2; 32] };
    let (elsewhere, _) = find_game_state_address(&program_id(), &stranger).unwrap();
    let account = GameStateAccount { key: elsewhere, data: record(player(), bump) };
    let caller = Caller { key: player(), is_signer: true };
    assert_eq!(authorize_owner(&program_id(), &account, &caller), Err(GameError::Unauthorized));
}

#[test]
fn record_with_a_wrong_bump_is_unauthorized() {
    let (key, bump) = find_game_state_address(&program_id(), &player()).unwrap();
    let account = GameStateAccount { key, data: record(player(), bump.wrapping_sub(1)) };
    let caller = Caller { key: player(), is_signer: true };
    assert_eq!(authorize_owner(&program_id(), &account, &caller), Err(GameError::Unauthorized));
}

#[test]
fn record_under_another_program_is_unauthorized() {
    let (key, bump) = find_game_state_address(&program_id(), &player()).unwrap();
    let account = GameStateAccount { key, data: record(player(), bump) };
    let caller = Caller { key: player(), is_signer: true };
    assert_eq!(
        authorize_owner(&Address { bytes: [8; 32] }, &account, &caller),
        Err(GameError::Unauthorized)
    );
}

#[test]
fn creation_is_authorized_at_the_found_address_only() {
    let (key, bump) = find_game_state_address(&program_id(), &player()).unwrap();
    let caller = Caller { key: player(), is_signer: true };
    assert_eq!(authorize_creation(&program_id(), &key, &caller), Ok(bump));
    assert_eq!(
        authorize_creation(&program_id(), &player(), &caller),
        Err(GameError::Unauthorized)
    );
    let unsigned = Caller { key: player(), is_signer: false };
    assert_eq!(authorize_creation(&program_id(), &key, &unsigned), Err(GameError::Unauthorized));
}

#[test]
fn vault_is_authorized_for_the_found_authority_only() {
    let (authority, bump) = find_vault_authority(&program_id()).unwrap();
    let caller = Caller { key: player(), is_signer: true };
    assert_eq!(authorize_vault(&program_id(), &authority, &caller), Ok(bump));
    assert_eq!(authorize_vault(&program_id(), &player(), &caller), Err(GameError::Unauthorized));
    let unsigned = Caller { key: player(), is_signer: false };
    assert_eq!(authorize_vault(&program_id(), &authority, &unsigned), Err(GameError::Unauthorized));
}

#[test]
fn error_messages() {
    assert_eq!(GameError::InvalidAmount.message(), "Invalid amount");
    assert_eq!(GameError::InsufficientBalance.message(), "Insufficient balance");
    assert_eq!(GameError::TooManyRequests.message(), "Too many requests - rate limited");
    assert_eq!(GameError::Unauthorized.message(), "Unauthorized");
    assert_eq!(GameError::AlreadyExists.message(), "Account already exists");
    assert_eq!(GameError::ClockUnavailable.message(), "Clock unavailable");
}

#[test]
fn finding_twice_gives_the_same_address() {
    assert_eq!(
        find_game_state_address(&program_id(), &player()),
        find_game_state_address(&program_id(), &player())
    );
    assert_eq!(find_vault_authority(&program_id()), find_vault_authority(&program_id()));
}
