//! The accounts that each instruction is handed, and the authorization that they
//! must pass before the instruction does anything.

use crate::address::{
    address_view, derive_game_state_address, find_game_state_address, find_vault_authority,
    found_game_state_address, found_vault_authority, found_view, game_state_address,
    vault_authority_address, Address,
};
use crate::error::GameError;
use crate::state::GameState;
use vstd::prelude::*;

verus! {

/// The account on whose behalf an instruction is invoked.
#[derive(Clone, Copy, Debug, PartialEq, Eq)]
pub struct Caller {
    pub key: Address,
    /// Whether the invocation carries this account's signature.
    pub is_signer: bool,
}

/// A player's record together with the address at which it is stored.
#[derive(Clone, Copy, Debug, PartialEq, Eq)]
pub struct GameStateAccount {
    pub key: Address,
    pub data: GameState,
}

/// An address at which a player's record is to be created, with the record that
/// it holds, if it holds one already.
#[derive(Clone, Copy, Debug, PartialEq, Eq)]
pub struct GameStateSlot {
    pub key: Address,
    pub data: Option<GameState>,
}

/// Whether `player` may act on the record in `account`, where `derived` is the
/// address derived for the player with the record's bump seed: the player signed,
/// the record names the player as its owner, and the account lies at that address.
pub open spec fn owner_verdict(
    account: GameStateAccount,
    player: Caller,
    derived: Option<Seq<u8>>,
) -> bool {
    &&& player.is_signer
    &&& account.data.player@ == player.key@
    &&& derived == Some(account.key@)
}

/// The bump seed that goes with `key`, where `found` is the address found for the
/// caller's purpose with its bump seed: the caller signed, and `key` is that address.
pub open spec fn found_bump(
    key: Address,
    player: Caller,
    found: Option<(Seq<u8>, u8)>,
) -> Option<u8> {
    match found {
        Some((address, bump)) => if player.is_signer && address == key@ {
            Some(bump)
        } else {
            None
        },
        None => None,
    }
}

/// Whether `player` may act on the record in `account`.
pub open spec fn owner_authorized(
    program_id: Address,
    account: GameStateAccount,
    player: Caller,
) -> bool {
    owner_verdict(account, player, game_state_address(program_id, player.key, account.data.bump))
}

/// The bump seed with which `player` may create a record at `key`.
pub open spec fn creation_bump(program_id: Address, key: Address, player: Caller) -> Option<u8> {
    found_bump(key, player, found_game_state_address(program_id, player.key))
}

/// The bump seed with which the program may pay out of the vault in the name of
/// `vault_authority`.
pub open spec fn vault_bump(
    program_id: Address,
    vault_authority: Address,
    player: Caller,
) -> Option<u8> {
    found_bump(vault_authority, player, found_vault_authority(program_id))
}

/// Decides whether `player` may act on the record in `account`, given the address
/// derived for the player with the record's bump seed.
pub fn check_owner(
    account: &GameStateAccount,
    player: &Caller,
    derived: Option<Address>,
) -> (r: Result<(), GameError>)
    ensures
        r == (if owner_verdict(*account, *player, address_view(derived)) {
            Ok::<(), GameError>(())
        } else {
            Err::<(), GameError>(GameError::Unauthorized)
        }),
{
    if !player.is_signer {
        return Err(GameError::Unauthorized);
    }
    if account.data.player != player.key {
        return Err(GameError::Unauthorized);
    }
    match derived {
        Some(address) => {
            if address == account.key {
                Ok(())
            } else {
                Err(GameError::Unauthorized)
            }
        },
        None => Err(GameError::Unauthorized),
    }
}

/// Decides whether a caller may use the derived address `key`, given the address
/// found for the caller's purpose, and gives the bump seed that goes with it.
pub fn check_found(
    key: &Address,
    player: &Caller,
    found: Option<(Address, u8)>,
) -> (r: Result<u8, GameError>)
    ensures
        r == (match found_bump(*key, *player, found_view(found)) {
            Some(bump) => Ok::<u8, GameError>(bump),
            None => Err::<u8, GameError>(GameError::Unauthorized),
        }),
{
    match found {
        Some((address, bump)) => {
            if player.is_signer && address == *key {
                Ok(bump)
            } else {
                Err(GameError::Unauthorized)
            }
        },
        None => Err(GameError::Unauthorized),
    }
}

/// Authorizes an instruction on an existing record.
pub fn authorize_owner(
    program_id: &Address,
    account: &GameStateAccount,
    player: &Caller,
) -> (r: Result<(), GameError>)
    ensures
        r == (if owner_authorized(*program_id, *account, *player) {
            Ok::<(), GameError>(())
        } else {
            Err::<(), GameError>(GameError::Unauthorized)
        }),
{
    let derived = derive_game_state_address(program_id, &player.key, account.data.bump);
    check_owner(account, player, derived)
}

/// Authorizes the creation of a record, and gives the bump seed to keep in it.
pub fn authorize_creation(
    program_id: &Address,
    key: &Address,
    player: &Caller,
) -> (r: Result<u8, GameError>)
    ensures
        r == (match creation_bump(*program_id, *key, *player) {
            Some(bump) => Ok::<u8, GameError>(bump),
            None => Err::<u8, GameError>(GameError::Unauthorized),
        }),
        r matches Ok(bump) ==> game_state_address(*program_id, player.key, bump) == Some(key@),
{
    let found = find_game_state_address(program_id, &player.key);
    check_found(key, player, found)
}

/// Authorizes a payment out of the vault, and gives the bump seed to sign with.
pub fn authorize_vault(
    program_id: &Address,
    vault_authority: &Address,
    player: &Caller,
) -> (r: Result<u8, GameError>)
    ensures
        r == (match vault_bump(*program_id, *vault_authority, *player) {
            Some(bump) => Ok::<u8, GameError>(bump),
            None => Err::<u8, GameError>(GameError::Unauthorized),
        }),
        r matches Ok(bump) ==> vault_authority_address(*program_id, bump) == Some(vault_authority@),
{
    let found = find_vault_authority(program_id);
    check_found(vault_authority, player, found)
}

/// Accounts of `initialize_game`.
#[derive(Clone, Copy, Debug, PartialEq, Eq)]
pub struct InitializeGame {
    pub program_id: Address,
    pub game_state: GameStateSlot,
    pub player: Caller,
}

/// Accounts of `record_coin_collection`.
#[derive(Clone, Copy, Debug, PartialEq, Eq)]
pub struct RecordCoinCollection {
    pub program_id: Address,
    pub game_state: GameStateAccount,
    pub player: Caller,
}

/// Accounts of `record_score`.
#[derive(Clone, Copy, Debug, PartialEq, Eq)]
pub struct RecordScore {
    pub program_id: Address,
    pub game_state: GameStateAccount,
    pub player: Caller,
}

/// Accounts of `deposit_balance`.
#[derive(Clone, Copy, Debug, PartialEq, Eq)]
pub struct DepositBalance {
    pub program_id: Address,
    pub game_state: GameStateAccount,
    pub player: Caller,
}

/// Accounts of `withdraw_balance`.
#[derive(Clone, Copy, Debug, PartialEq, Eq)]
pub struct WithdrawBalance {
    pub program_id: Address,
    pub game_state: GameStateAccount,
    pub player: Caller,
}

/// Accounts of `reset_game`.
#[derive(Clone, Copy, Debug, PartialEq, Eq)]
pub struct ResetGame {
    pub program_id: Address,
    pub game_state: GameStateAccount,
    pub player: Caller,
}

/// Accounts of `drop_coin`.
#[derive(Clone, Copy, Debug, PartialEq, Eq)]
pub struct DropCoin {
    pub program_id: Address,
    pub game_state: GameStateAccount,
    pub player: Caller,
    /// The player's holding of the ordinary token.
    pub player_junk_account: Address,
    /// The vault's holding of the ordinary token.
    pub vault_junk_account: Address,
}

/// Accounts of `collect_coin`.
#[derive(Clone, Copy, Debug, PartialEq, Eq)]
pub struct CollectCoin {
    pub program_id: Address,
    pub game_state: GameStateAccount,
    pub player: Caller,
}

/// Accounts of `bump_machine`.
#[derive(Clone, Copy, Debug, PartialEq, Eq)]
pub struct BumpMachine {
    pub program_id: Address,
    pub game_state: GameStateAccount,
    pub player: Caller,
    /// The player's holding of the ordinary token.
    pub player_junk_account: Address,
    /// The vault's holding of the ordinary token.
    pub vault_junk_account: Address,
}

/// Accounts of `award_trashcoin`.
#[derive(Clone, Copy, Debug, PartialEq, Eq)]
pub struct AwardTrashcoin {
    pub program_id: Address,
    /// The derived address in whose name the vault pays out.
    pub vault_authority: Address,
    /// The vault's holding of the rare token.
    pub vault_trashcoin_account: Address,
    /// The player's holding of the rare token.
    pub player_trashcoin_account: Address,
    pub player: Caller,
}

} // verus!
