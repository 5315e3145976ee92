//! The constants of the protocol.

use vstd::prelude::*;

verus! {

/// The address that receives the deposit fee: `ordkZKeCDeo8u4Ep5WbiWoXhAU9pzxQZm7FHpKskiTx`.
pub const TREASURY_PUBKEY: [u8; 32] = [
    12, 0, 214, 145, 8, 123, 233, 107, 46, 3, 226, 14, 33, 8, 163, 110,
    82, 40, 254, 68, 10, 188, 45, 19, 99, 223, 59, 130, 111, 201, 207, 183,
];

/// The address of the operator who drives the hops: `ordnd8TZFYW4k4MeLrR3qSwXMxezL6W3WryUPYTzLQM`.
pub const MANAGER_PUBKEY: [u8; 32] = [
    12, 0, 214, 190, 136, 235, 11, 206, 222, 88, 76, 87, 197, 80, 132, 121,
    148, 83, 132, 213, 122, 238, 222, 236, 195, 133, 139, 247, 144, 32, 174, 222,
];

/// The seed of the universe's address: `_x_ORIDION_x_`.
pub const UNIVERSE_PDA_SEED: [u8; 13] = [95, 120, 95, 79, 82, 73, 68, 73, 79, 78, 95, 120, 95];

/// The seed that stands before a planet's name: `_PLA_`.
pub const PLANET_PDA_SEED_PRE: [u8; 5] = [95, 80, 76, 65, 95];

/// The seed that stands after a planet's name: `_NET_`.
pub const PLANET_PDA_SEED_POST: [u8; 5] = [95, 78, 69, 84, 95];

/// The seed that stands before a star's id: `_ST_`.
pub const STAR_SEED_PRE: [u8; 4] = [95, 83, 84, 95];

/// The seed that stands after a star's id: `_AR_`.
pub const STAR_SEED_POST: [u8; 4] = [95, 65, 82, 95];

/// The bytes that the tag in front of a stored record takes.
pub const DISCRIMINATOR_LENGTH: usize = 8;

/// The bytes that a stored address takes.
pub const PUBLIC_KEY_LENGTH: usize = 32;

/// The bytes kept for a star id: 8 characters of up to 4 bytes.
pub const STAR_ID_LENGTH: usize = 32;

/// The bytes kept for a planet name: 10 characters of up to 4 bytes.
pub const PLANET_NAME: usize = 40;

/// The bytes that a stored timestamp takes.
pub const TIMESTAMP_LENGTH: usize = 8;

/// The bytes that the length in front of a stored string takes.
pub const STRING_LENGTH_PREFIX: usize = 4;

/// The bytes that a stored amount of lamports takes.
pub const LAMPORT_LENGTH: usize = 8;

/// The bytes that a stored `u8` takes.
pub const U8_LENGTH: usize = 1;

/// The bytes that a stored `u64` takes.
pub const U64_LENGTH: usize = 8;

/// The bytes kept for the list of planet names: its length, and ten names of six bytes
/// with the length of each.
pub const PLANETS_VEC_LENGTH: usize = 104;

/// What the ledger asks a planet account to hold in order to exist. A planet that holds no
/// more than this is empty.
pub const PLANET_MIN_LAMPORTS: u64 = 1593840;

/// The deposit fee that a new universe starts with, in lamports.
pub const DEFAULT_COMET_FEE: u64 = 0;

/// The fee for a hop between planets that a new universe starts with, in lamports.
pub const DEFAULT_HOP_PLANET_FEE: u64 = 1000000;

/// The fee for a hop over two stars that a new universe starts with, in lamports.
pub const DEFAULT_HOP_STAR_FEE2: u64 = 2000000;

/// The fee for a hop over three stars that a new universe starts with, in lamports.
pub const DEFAULT_HOP_STAR_FEE3: u64 = 3000000;

/// The withdrawal fee that a new universe starts with, in lamports.
pub const DEFAULT_WITHDRAW_FEE: u64 = 0;

/// The least percentage by which a deposit is split.
pub const MIN_SPLIT_PERCENT: u64 = 10;

/// The greatest percentage by which a deposit is split.
pub const MAX_SPLIT_PERCENT: u64 = 90;

} // verus!
