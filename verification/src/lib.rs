//! Value routing over an account ledger: a deposit enters a shared pool, hops between
//! planets, may be split over short-lived stars and joined again, and leaves to its
//! destination. Every operation acts on the accounts handed to it and either applies
//! in full or changes nothing.

pub mod account;
pub mod accounts_comet;
pub mod accounts_deposit;
pub mod accounts_planet;
pub mod accounts_universe;
pub mod address;
pub mod deposits;
pub mod errors;
pub mod hops;
pub mod planets;
pub mod shared;
pub mod split;
pub mod star_hops;
pub mod universe;
pub mod variables;

pub use crate::account::{Account, AccountView, Lifecycle, Wallet, WalletView};
pub use crate::accounts_comet::{
    CreateComet, PlanetHop, Star, StarHopThreeEnd, StarHopThreeStart, StarHopTwoEnd,
    StarHopTwoStart, WithdrawAccounts,
};
pub use crate::accounts_deposit::{CloseDeposit, CreateDeposit, Deposit, UpdateDeposit};
pub use crate::accounts_planet::{CreatePlanet, DeletePlanet, Planet};
pub use crate::accounts_universe::{BigBang, Universe, UpdateUniverseFee};
pub use crate::address::Address;
pub use crate::deposits::{close_deposit, create_deposit, update_deposit};
pub use crate::errors::ErrorCode;
pub use crate::hops::{new_comet, planet_hop, withdraw};
pub use crate::planets::{create_planet, create_planet_at, delete_planet};
pub use crate::shared::{find_planet_address, find_universe_address, get_planet_program_address};
pub use crate::split::{get_random_percent, split_three, split_two};
pub use crate::star_hops::{
    star_hop_three_end, star_hop_three_start, star_hop_two_end, star_hop_two_start,
};
pub use crate::universe::{bang, bang_at, update_fee};
