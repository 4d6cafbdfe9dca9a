//! Ledger addresses and the addresses that the program derives for itself.

use anchor_lang::prelude::Pubkey;
use vstd::prelude::*;

verus! {

/// A 32-byte ledger address: a player's identity, an account's location, or a program.
#[derive(Clone, Copy, Debug, Eq)]
pub struct Address {
    pub bytes: [u8; 32],
}

impl View for Address {
    type V = Seq<u8>;

    open spec fn view(&self) -> Seq<u8> {
        self.bytes@
    }
}

impl PartialEq for Address {
    fn eq(&self, other: &Address) -> (r: bool) {
        let mut i: usize = 0;
        while i < 32
            invariant
                i <= 32,
                forall|j: int| 0 <= j < i ==> self.bytes@[j] == other.bytes@[j],
            decreases 32 - i,
        {
            if self.bytes[i] != other.bytes[i] {
                return false;
            }
            i += 1;
        }
        assert(self.bytes@ =~= other.bytes@);
        true
    }
}

impl vstd::std_specs::cmp::PartialEqSpecImpl for Address {
    open spec fn obeys_eq_spec() -> bool {
        true
    }

    open spec fn eq_spec(&self, other: &Address) -> bool {
        self@ == other@
    }
}

/// The address that a program derives from a list of seeds, where the list yields one.
pub uninterp spec fn program_address(seeds: Seq<Seq<u8>>, program_id: Seq<u8>) -> Option<Seq<u8>>;

/// The address and bump seed that a program finds for a list of seeds, where one exists.
pub uninterp spec fn found_program_address(seeds: Seq<Seq<u8>>, program_id: Seq<u8>) -> Option<(Seq<u8>, u8)>;

/// An address that may be missing, by its bytes.
pub open spec fn address_view(address: Option<Address>) -> Option<Seq<u8>> {
    match address {
        Some(address) => Some(address@),
        None => None,
    }
}

/// An address with its bump seed that may be missing, the address by its bytes.
pub open spec fn found_view(found: Option<(Address, u8)>) -> Option<(Seq<u8>, u8)> {
    match found {
        Some((address, bump)) => Some((address@, bump)),
        None => None,
    }
}

/// Calls `Pubkey::create_program_address`. The result is a function of the seeds and
/// the program id alone, named `program_address`; every error of the outside function
/// (too many seeds, a seed that is too long, a hash that lies on the curve) becomes `None`.
#[verifier::external_body]
pub(crate) fn create_program_address(
    seeds: &Vec<Vec<u8>>,
    program_id: &Address,
) -> (r: Option<Address>)
    ensures
        address_view(r) == program_address(seeds.deep_view(), program_id@),
{
    let parts: Vec<&[u8]> = seeds.iter().map(|s| s.as_slice()).collect();
    match Pubkey::create_program_address(&parts, &Pubkey::new_from_array(program_id.bytes)) {
        Ok(key) => Some(Address { bytes: key.to_bytes() }),
        Err(_) => None,
    }
}

/// Calls `Pubkey::try_find_program_address`. The result is a function of the seeds and
/// the program id alone, named `found_program_address`. Where it finds an address, that
/// address is the one derived from the same seeds followed by the bump seed as a seed of
/// one byte.
#[verifier::external_body]
pub(crate) fn try_find_program_address(
    seeds: &Vec<Vec<u8>>,
    program_id: &Address,
) -> (r: Option<(Address, u8)>)
    ensures
        found_view(r) == found_program_address(seeds.deep_view(), program_id@),
        r matches Some((address, bump)) ==> program_address(
            seeds.deep_view().push(seq![bump]),
            program_id@,
        ) == Some(address@),
{
    let parts: Vec<&[u8]> = seeds.iter().map(|s| s.as_slice()).collect();
    match Pubkey::try_find_program_address(&parts, &Pubkey::new_from_array(program_id.bytes)) {
        Some((key, bump)) => Some((Address { bytes: key.to_bytes() }, bump)),
        None => None,
    }
}

/// Seed that marks the address of a player's record: the bytes of `game_state`.
pub const GAME_STATE_SEED: [u8; 10] = [103, 97, 109, 101, 95, 115, 116, 97, 116, 101];

/// Seed that marks the address of the vault authority: the bytes of `vault`.
pub const VAULT_SEED: [u8; 5] = [118, 97, 117, 108, 116];

/// Seeds of a player's record, before the bump seed.
pub open spec fn game_state_seeds(player: Seq<u8>) -> Seq<Seq<u8>> {
    seq![GAME_STATE_SEED@, player]
}

/// Seeds of the vault authority, before the bump seed.
pub open spec fn vault_seeds() -> Seq<Seq<u8>> {
    seq![VAULT_SEED@]
}

/// The address derived for a player's record with a given bump seed.
pub open spec fn game_state_address(
    program_id: Address,
    player: Address,
    bump: u8,
) -> Option<Seq<u8>> {
    program_address(game_state_seeds(player@).push(seq![bump]), program_id@)
}

/// The address derived for the vault authority with a given bump seed.
pub open spec fn vault_authority_address(program_id: Address, bump: u8) -> Option<Seq<u8>> {
    program_address(vault_seeds().push(seq![bump]), program_id@)
}

/// The address and bump seed that the program finds for a player's record.
pub open spec fn found_game_state_address(
    program_id: Address,
    player: Address,
) -> Option<(Seq<u8>, u8)> {
    found_program_address(game_state_seeds(player@), program_id@)
}

/// The address and bump seed that the program finds for the vault authority.
pub open spec fn found_vault_authority(program_id: Address) -> Option<(Seq<u8>, u8)> {
    found_program_address(vault_seeds(), program_id@)
}

fn seed(bytes: &[u8]) -> (copy: Vec<u8>)
    ensures
        copy.deep_view() == bytes@,
{
    let mut copy: Vec<u8> = Vec::new();
    let mut i: usize = 0;
    while i < bytes.len()
        invariant
            i <= bytes.len(),
            copy@ == bytes@.take(i as int),
        decreases bytes.len() - i,
    {
        copy.push(bytes[i]);
        i += 1;
    }
    assert(copy.deep_view() =~= bytes@);
    copy
}

pub(crate) fn seeds_of_game_state(player: &Address) -> (seeds: Vec<Vec<u8>>)
    ensures
        seeds.deep_view() == game_state_seeds(player@),
{
    let mut seeds: Vec<Vec<u8>> = Vec::new();
    seeds.push(seed(GAME_STATE_SEED.as_slice()));
    seeds.push(seed(player.bytes.as_slice()));
    assert(seeds.deep_view() =~= game_state_seeds(player@));
    seeds
}

pub(crate) fn seeds_of_vault() -> (seeds: Vec<Vec<u8>>)
    ensures
        seeds.deep_view() == vault_seeds(),
{
    let mut seeds: Vec<Vec<u8>> = Vec::new();
    seeds.push(seed(VAULT_SEED.as_slice()));
    assert(seeds.deep_view() =~= vault_seeds());
    seeds
}

pub(crate) fn push_bump(seeds: &mut Vec<Vec<u8>>, bump: u8)
    ensures
        final(seeds).deep_view() == old(seeds).deep_view().push(seq![bump]),
{
    let mut last: Vec<u8> = Vec::new();
    last.push(bump);
    assert(last.deep_view() =~= seq![bump]);
    seeds.push(last);
    assert(seeds.deep_view() =~= old(seeds).deep_view().push(seq![bump]));
}

/// Finds the address of a player's record and the bump seed that goes with it.
pub fn find_game_state_address(
    program_id: &Address,
    player: &Address,
) -> (found: Option<(Address, u8)>)
    ensures
        found_view(found) == found_game_state_address(*program_id, *player),
        found matches Some((address, bump)) ==> game_state_address(*program_id, *player, bump)
            == Some(address@),
{
    let seeds = seeds_of_game_state(player);
    try_find_program_address(&seeds, program_id)
}

/// Finds the address of the vault authority and the bump seed that goes with it.
pub fn find_vault_authority(program_id: &Address) -> (found: Option<(Address, u8)>)
    ensures
        found_view(found) == found_vault_authority(*program_id),
        found matches Some((address, bump)) ==> vault_authority_address(*program_id, bump) == Some(
            address@,
        ),
{
    let seeds = seeds_of_vault();
    try_find_program_address(&seeds, program_id)
}

/// Derives the address of a player's record for a given bump seed.
pub fn derive_game_state_address(
    program_id: &Address,
    player: &Address,
    bump: u8,
) -> (derived: Option<Address>)
    ensures
        address_view(derived) == game_state_address(*program_id, *player, bump),
{
    let mut seeds = seeds_of_game_state(player);
    push_bump(&mut seeds, bump);
    create_program_address(&seeds, program_id)
}

} // verus!
