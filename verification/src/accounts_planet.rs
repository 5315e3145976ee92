//! Planets: the named, long-lived accounts between which a deposit hops.

use vstd::prelude::*;
use crate::account::{Account, AccountView, Lifecycle, Wallet, WalletView};
use crate::accounts_universe::{Universe, UniverseView};
use crate::address::{zero_bytes, Address};

verus! {

/// The record of a planet.
#[derive(Clone, Debug, PartialEq, Eq)]
pub struct Planet {
    /// The planet's name, unique among the planets of a universe.
    pub name: String,
    /// The planet's own address.
    pub pda: Address,
    /// When the planet was created.
    pub created: i64,
    /// The bump seed of the planet's address.
    pub bump: u8,
    /// How many times funds arrived at the planet. It never goes down while the planet lives.
    pub visits: u64,
}

/// What a [`Planet`] holds.
pub struct PlanetView {
    pub name: Seq<char>,
    pub pda: Seq<u8>,
    pub created: int,
    pub bump: nat,
    pub visits: nat,
}

impl View for Planet {
    type V = PlanetView;

    open spec fn view(&self) -> PlanetView {
        PlanetView {
            name: self.name@,
            pda: self.pda@,
            created: self.created as int,
            bump: self.bump as nat,
            visits: self.visits as nat,
        }
    }
}

impl PlanetView {
    /// The record of an account that holds no planet.
    pub open spec fn blank() -> PlanetView {
        PlanetView { name: Seq::empty(), pda: zero_bytes(), created: 0, bump: 0, visits: 0 }
    }
}

impl Planet {
    /// The record of an account that holds no planet.
    pub fn blank() -> (planet: Planet)
        ensures
            planet@ == PlanetView::blank(),
    {
        Planet { name: String::new(), pda: Address::zero(), created: 0, bump: 0, visits: 0 }
    }
}

/// The planet account after `amount` lamports arrived at it: they are added to its
/// balance, and the arrival is counted as a visit.
pub open spec fn arrived(planet: AccountView<PlanetView>, amount: nat) -> AccountView<PlanetView> {
    AccountView {
        lamports: planet.lamports + amount,
        data: PlanetView { visits: planet.data.visits + 1, ..planet.data },
        ..planet
    }
}

impl Account<Planet> {
    /// Whether `amount` lamports can arrive: neither the balance nor the visit counter
    /// would leave the range of 64 bits.
    pub fn can_take(&self, amount: u64) -> (fits: bool)
        ensures
            fits == (self.lamports + amount <= u64::MAX && self.data.visits + 1 <= u64::MAX),
    {
        self.has_room_for(amount) && self.data.visits < u64::MAX
    }

    /// Lets `amount` lamports arrive, and counts the visit.
    pub(crate) fn arrive(&mut self, amount: u64)
        requires
            old(self).lamports + amount <= u64::MAX,
            old(self).data.visits + 1 <= u64::MAX,
        ensures
            final(self)@ == arrived(old(self)@, amount as nat),
            final(self).data.visits == old(self).data.visits + 1,
    {
        self.lamports = self.lamports + amount;
        self.data.visits = self.data.visits + 1;
    }
}

/// A planet account after it was closed: no lamports, no record.
pub open spec fn closed_planet() -> AccountView<PlanetView> {
    AccountView { lamports: 0, lifecycle: Lifecycle::Closed, data: PlanetView::blank() }
}

/// The accounts of [`create_planet`](crate::planets::create_planet).
#[derive(Clone, Debug, PartialEq, Eq)]
pub struct CreatePlanet {
    /// The account that is to hold the planet.
    pub planet: Account<Planet>,
    pub universe: Account<Universe>,
    /// Who makes the call: it has to be the operator.
    pub creator: Wallet,
}

/// What a [`CreatePlanet`] holds.
pub struct CreatePlanetView {
    pub planet: AccountView<PlanetView>,
    pub universe: AccountView<UniverseView>,
    pub creator: WalletView,
}

impl View for CreatePlanet {
    type V = CreatePlanetView;

    open spec fn view(&self) -> CreatePlanetView {
        CreatePlanetView { planet: self.planet@, universe: self.universe@, creator: self.creator@ }
    }
}

impl CreatePlanetView {
    /// The lamports of all the accounts together.
    pub open spec fn total_lamports(self) -> nat {
        self.planet.lamports + self.universe.lamports + self.creator.lamports
    }
}

/// The accounts of [`delete_planet`](crate::planets::delete_planet).
#[derive(Clone, Debug, PartialEq, Eq)]
pub struct DeletePlanet {
    /// The planet to delete.
    pub planet: Account<Planet>,
    pub universe: Account<Universe>,
    /// Who makes the call: it has to be the operator, who gets what the planet still holds.
    pub creator: Wallet,
}

/// What a [`DeletePlanet`] holds.
pub struct DeletePlanetView {
    pub planet: AccountView<PlanetView>,
    pub universe: AccountView<UniverseView>,
    pub creator: WalletView,
}

impl View for DeletePlanet {
    type V = DeletePlanetView;

    open spec fn view(&self) -> DeletePlanetView {
        DeletePlanetView { planet: self.planet@, universe: self.universe@, creator: self.creator@ }
    }
}

impl DeletePlanetView {
    /// The lamports of all the accounts together.
    pub open spec fn total_lamports(self) -> nat {
        self.planet.lamports + self.universe.lamports + self.creator.lamports
    }
}

} // verus!
