//! Requests to move value, which the caller of an instruction carries out.

use crate::address::{
    game_state_seeds, program_address, push_bump, seeds_of_game_state, seeds_of_vault, vault_seeds,
    Address,
};
use crate::state::GameState;
use vstd::prelude::*;

verus! {

/// What a transfer moves.
#[derive(Clone, Copy, Debug, PartialEq, Eq)]
pub enum Asset {
    /// The ledger's base unit of value, moved between accounts.
    Native,
    /// Units of a fungible token, moved between token holdings.
    Token,
}

/// Who authorizes a transfer.
#[derive(Clone, Copy, Debug, PartialEq, Eq)]
pub enum Signing {
    /// The caller, by the signature on the invocation.
    Caller,
    /// The program, for the game-state address derived for `player` with `bump`.
    GameState { player: Address, bump: u8 },
    /// The program, for the vault authority derived with `bump`.
    Vault { bump: u8 },
}

impl Signing {
    /// The seeds with which the program signs, none where the caller signs.
    pub open spec fn seeds(self) -> Seq<Seq<u8>> {
        match self {
            Signing::Caller => Seq::empty(),
            Signing::GameState { player, bump } => game_state_seeds(player@).push(seq![bump]),
            Signing::Vault { bump } => vault_seeds().push(seq![bump]),
        }
    }

    /// The signers that the program adds to the caller's: none where the caller
    /// signs, else one, given by its seeds.
    pub open spec fn added_signers(self) -> Seq<Seq<Seq<u8>>> {
        match self {
            Signing::Caller => Seq::empty(),
            _ => seq![self.seeds()],
        }
    }

    /// The signers that the program adds to the caller's, each by its seeds.
    pub fn signers(&self) -> (signers: Vec<Vec<Vec<u8>>>)
        ensures
            signers.deep_view() == self.added_signers(),
    {
        let mut signers: Vec<Vec<Vec<u8>>> = Vec::new();
        match self {
            Signing::Caller => {},
            Signing::GameState { player, bump } => {
                let mut seeds = seeds_of_game_state(player);
                push_bump(&mut seeds, *bump);
                signers.push(seeds);
            },
            Signing::Vault { bump } => {
                let mut seeds = seeds_of_vault();
                push_bump(&mut seeds, *bump);
                signers.push(seeds);
            },
        }
        assert(signers.deep_view() =~= self.added_signers());
        signers
    }
}

/// One movement of value from one holding to another.
#[derive(Clone, Copy, Debug, PartialEq, Eq)]
pub struct Transfer {
    pub asset: Asset,
    pub from: Address,
    pub to: Address,
    /// The account in whose name the value leaves `from`.
    pub authority: Address,
    pub amount: u64,
    pub signing: Signing,
}

impl Transfer {
    /// Whether the signature asked for is one that the program `program_id` can
    /// give: where the program signs, its seeds derive the authority of the transfer.
    pub open spec fn well_signed(self, program_id: Address) -> bool {
        self.signing is Caller || program_address(self.signing.seeds(), program_id@) == Some(
            self.authority@,
        )
    }
}

/// What an instruction that moves value asks for and commits to. The instruction
/// itself changes nothing: the caller attempts `transfer` first and, only once that
/// has gone through, stores `game_state` and emits `event`, as `concluded` hands
/// them out.
#[derive(Debug, PartialEq, Eq)]
pub struct Settlement<E> {
    pub transfer: Transfer,
    pub game_state: GameState,
    pub event: E,
}

impl<E> Settlement<E> {
    /// What is stored and emitted once the transfer has been attempted: the record
    /// and the event where it went through, nothing where it failed.
    pub fn concluded(self, transferred: bool) -> (r: Option<(GameState, E)>)
        ensures
            r == (if transferred {
                Some((self.game_state, self.event))
            } else {
                None
            }),
    {
        if transferred {
            Some((self.game_state, self.event))
        } else {
            None
        }
    }
}

} // verus!
