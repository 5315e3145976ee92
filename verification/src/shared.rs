//! Program addresses: the addresses that the ledger derives from seeds for the accounts
//! of a program.

use vstd::prelude::*;
use vstd::utf8::encode_utf8;
use solana_program::pubkey::Pubkey;
use crate::address::Address;
use crate::variables::{PLANET_PDA_SEED_POST, PLANET_PDA_SEED_PRE, UNIVERSE_PDA_SEED};

verus! {

/// The program address that the ledger derives from `seeds` for the program `program_id`,
/// with its bump seed; `None` where it derives none.
pub uninterp spec fn program_address(seeds: Seq<Seq<u8>>, program_id: Seq<u8>) -> Option<
    (Seq<u8>, u8),
>;

/// The bytes of each seed.
pub open spec fn seed_bytes(seeds: Seq<&[u8]>) -> Seq<Seq<u8>> {
    seeds.map_values(|seed: &[u8]| seed@)
}

/// Calls `Pubkey::try_find_program_address` of `solana_program`, which tries the bump
/// seeds from 255 downwards and returns the first address that it can derive from the
/// seeds, the bump seed and the program id, or `None`.
///
/// The contract is believed, not proved. It claims that what comes back is
/// [`program_address`] of the bytes of the seeds and of the program id: that the result
/// depends on these bytes and on nothing else.
#[verifier::external_body]
fn find_program_address(seeds: &[&[u8]], program_id: &Address) -> (found: Option<(Address, u8)>)
    ensures
        match found {
            Some((address, bump)) => program_address(seed_bytes(seeds@), program_id@) == Some(
                (address@, bump),
            ),
            None => program_address(seed_bytes(seeds@), program_id@) is None,
        },
{
    Pubkey::try_find_program_address(seeds, &Pubkey::new_from_array(program_id.bytes)).map(
        |(key, bump)| (Address { bytes: key.to_bytes() }, bump),
    )
}

/// The seeds of the universe's address.
pub open spec fn universe_seeds() -> Seq<Seq<u8>> {
    seq![UNIVERSE_PDA_SEED@]
}

/// The seeds of the address of the planet called `name`: the name in UTF-8 between the
/// two planet seeds.
pub open spec fn planet_seeds(name: Seq<char>) -> Seq<Seq<u8>> {
    seq![PLANET_PDA_SEED_PRE@, encode_utf8(name), PLANET_PDA_SEED_POST@]
}

/// The address of the universe of the program `program_id`, with its bump seed.
pub open spec fn universe_program_address(program_id: Seq<u8>) -> Option<(Seq<u8>, u8)> {
    program_address(universe_seeds(), program_id)
}

/// The address of the planet called `name` of the program `program_id`, with its bump seed.
pub open spec fn planet_program_address(name: Seq<char>, program_id: Seq<u8>) -> Option<
    (Seq<u8>, u8),
> {
    program_address(planet_seeds(name), program_id)
}

/// An address and bump seed as seen in contracts.
pub open spec fn derived_view(derived: Option<(Address, u8)>) -> Option<(Seq<u8>, u8)> {
    match derived {
        Some((address, bump)) => Some((address@, bump)),
        None => None,
    }
}

/// Derives the address of the universe of the program `program_id`, with its bump seed.
pub fn find_universe_address(program_id: &Address) -> (found: Option<(Address, u8)>)
    ensures
        derived_view(found) == universe_program_address(program_id@),
{
    let seeds: [&[u8]; 1] = [UNIVERSE_PDA_SEED.as_slice()];
    let found = find_program_address(seeds.as_slice(), program_id);
    assert(seed_bytes(seeds@) =~= universe_seeds());
    found
}

/// Derives the address of the planet called `planet_name` of the program `program_id`,
/// with its bump seed.
pub fn find_planet_address(planet_name: &String, program_id: &Address) -> (found: Option<
    (Address, u8),
>)
    ensures
        derived_view(found) == planet_program_address(planet_name@, program_id@),
{
    let seeds: [&[u8]; 3] = [
        PLANET_PDA_SEED_PRE.as_slice(),
        planet_name.as_str().as_bytes(),
        PLANET_PDA_SEED_POST.as_slice(),
    ];
    let found = find_program_address(seeds.as_slice(), program_id);
    assert(seed_bytes(seeds@) =~= planet_seeds(planet_name@));
    found
}

/// The address of the planet called `planet_name` of the program `program_id`, for a name
/// that has one.
pub fn get_planet_program_address(planet_name: &String, program_id: &Address) -> (pk: Address)
    requires
        planet_program_address(planet_name@, program_id@) is Some,
    ensures
        planet_program_address(planet_name@, program_id@) matches Some(derived) && pk@
            == derived.0,
{
    let found = find_planet_address(planet_name, program_id);
    found.unwrap().0
}

} // verus!
