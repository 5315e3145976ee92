//! Stars, the short-lived accounts over which a deposit is split, and the accounts of the
//! operations that move a deposit.

use vstd::prelude::*;
use crate::account::{Account, AccountView, Lifecycle, Wallet, WalletView};
use crate::accounts_planet::{Planet, PlanetView};
use crate::accounts_universe::{Universe, UniverseView};
use crate::address::{zero_bytes, Address};

verus! {

/// The record of a star.
#[derive(Clone, Debug, PartialEq, Eq)]
pub struct Star {
    /// The id that the caller chose for the star.
    pub id: String,
    /// The lamports that the star carries from one planet to the next.
    pub amount: u64,
    /// The operator who created the star, and who alone may end its hop.
    pub manager: Address,
}

/// What a [`Star`] holds.
pub struct StarView {
    pub id: Seq<char>,
    pub amount: nat,
    pub manager: Seq<u8>,
}

impl View for Star {
    type V = StarView;

    open spec fn view(&self) -> StarView {
        StarView { id: self.id@, amount: self.amount as nat, manager: self.manager@ }
    }
}

impl StarView {
    /// The record of an account that holds no star.
    pub open spec fn blank() -> StarView {
        StarView { id: Seq::empty(), amount: 0, manager: zero_bytes() }
    }
}

impl Star {
    /// The record of an account that holds no star.
    pub fn blank() -> (star: Star)
        ensures
            star@ == StarView::blank(),
    {
        Star { id: String::new(), amount: 0, manager: Address::zero() }
    }
}

/// The star account after the star `id` was created in it for `manager`, with `share`
/// lamports to carry.
pub open spec fn ignited(star: AccountView<StarView>, id: Seq<char>, share: nat, manager: Seq<u8>) -> AccountView<
    StarView,
> {
    AccountView {
        lamports: star.lamports + share,
        lifecycle: Lifecycle::Active,
        data: StarView { id, amount: share, manager },
    }
}

/// A star account after it exploded: no lamports, no record, closed.
pub open spec fn exploded() -> AccountView<StarView> {
    AccountView { lamports: 0, lifecycle: Lifecycle::Closed, data: StarView::blank() }
}

/// Whether the star account holds at least the lamports that its star carries.
pub open spec fn funded(star: AccountView<StarView>) -> bool {
    star.data.amount <= star.lamports
}

/// What the star account holds beyond the lamports that its star carries.
pub open spec fn residual(star: AccountView<StarView>) -> nat {
    (star.lamports - star.data.amount) as nat
}

impl Account<Star> {
    /// Whether the star of this account was created by the holder of `key`.
    pub fn is_managed_by(&self, key: &Address) -> (holds: bool)
        ensures
            holds == (self@.data.manager == key@),
    {
        self.data.manager == *key
    }

    /// Whether the account holds at least the lamports that its star carries.
    pub fn is_funded(&self) -> (holds: bool)
        ensures
            holds == funded(self@),
    {
        self.data.amount <= self.lamports
    }

    /// Creates the star `id` in the account for `manager`, with `share` lamports to carry.
    pub(crate) fn ignite(&mut self, id: String, share: u64, manager: Address)
        requires
            old(self).lamports + share <= u64::MAX,
        ensures
            final(self)@ == ignited(old(self)@, id@, share as nat, manager@),
    {
        self.lamports = self.lamports + share;
        self.lifecycle = Lifecycle::Active;
        self.data = Star { id, amount: share, manager };
    }

    /// Empties and closes the account.
    pub(crate) fn explode(&mut self)
        ensures
            final(self)@ == exploded(),
    {
        self.lamports = 0;
        self.lifecycle = Lifecycle::Closed;
        self.data = Star::blank();
    }
}

/// The accounts of [`new_comet`](crate::hops::new_comet).
#[derive(Clone, Debug, PartialEq, Eq)]
pub struct CreateComet {
    pub universe: Account<Universe>,
    /// The planet at which the deposit arrives.
    pub planet: Account<Planet>,
    /// The wallet that collects the deposit fee.
    pub treasury: Wallet,
    /// Who makes the deposit.
    pub creator: Wallet,
}

/// What a [`CreateComet`] holds.
pub struct CreateCometView {
    pub universe: AccountView<UniverseView>,
    pub planet: AccountView<PlanetView>,
    pub treasury: WalletView,
    pub creator: WalletView,
}

impl View for CreateComet {
    type V = CreateCometView;

    open spec fn view(&self) -> CreateCometView {
        CreateCometView {
            universe: self.universe@,
            planet: self.planet@,
            treasury: self.treasury@,
            creator: self.creator@,
        }
    }
}

impl CreateCometView {
    /// The lamports of the accounts that belong to the system: all but the depositor's.
    pub open spec fn system_lamports(self) -> nat {
        self.universe.lamports + self.planet.lamports + self.treasury.lamports
    }

    /// The lamports of all the accounts together.
    pub open spec fn total_lamports(self) -> nat {
        self.system_lamports() + self.creator.lamports
    }
}

/// The accounts of [`planet_hop`](crate::hops::planet_hop).
#[derive(Clone, Debug, PartialEq, Eq)]
pub struct PlanetHop {
    pub to_planet: Account<Planet>,
    pub from_planet: Account<Planet>,
    /// Who makes the call: it has to be the operator.
    pub manager: Wallet,
}

/// What a [`PlanetHop`] holds.
pub struct PlanetHopView {
    pub to_planet: AccountView<PlanetView>,
    pub from_planet: AccountView<PlanetView>,
    pub manager: WalletView,
}

impl View for PlanetHop {
    type V = PlanetHopView;

    open spec fn view(&self) -> PlanetHopView {
        PlanetHopView {
            to_planet: self.to_planet@,
            from_planet: self.from_planet@,
            manager: self.manager@,
        }
    }
}

impl PlanetHopView {
    /// The lamports of all the accounts together.
    pub open spec fn total_lamports(self) -> nat {
        self.to_planet.lamports + self.from_planet.lamports + self.manager.lamports
    }
}

/// The accounts of [`withdraw`](crate::hops::withdraw).
#[derive(Clone, Debug, PartialEq, Eq)]
pub struct WithdrawAccounts {
    pub from_planet: Account<Planet>,
    /// The wallet to which the funds leave.
    pub destination: Wallet,
    /// Who makes the call: it has to be the operator.
    pub manager: Wallet,
}

/// What a [`WithdrawAccounts`] holds.
pub struct WithdrawAccountsView {
    pub from_planet: AccountView<PlanetView>,
    pub destination: WalletView,
    pub manager: WalletView,
}

impl View for WithdrawAccounts {
    type V = WithdrawAccountsView;

    open spec fn view(&self) -> WithdrawAccountsView {
        WithdrawAccountsView {
            from_planet: self.from_planet@,
            destination: self.destination@,
            manager: self.manager@,
        }
    }
}

impl WithdrawAccountsView {
    /// The lamports of the accounts that belong to the system: all but the destination.
    pub open spec fn system_lamports(self) -> nat {
        self.from_planet.lamports + self.manager.lamports
    }

    /// The lamports of all the accounts together.
    pub open spec fn total_lamports(self) -> nat {
        self.system_lamports() + self.destination.lamports
    }
}

/// The accounts of [`star_hop_two_start`](crate::star_hops::star_hop_two_start).
#[derive(Clone, Debug, PartialEq, Eq)]
pub struct StarHopTwoStart {
    pub from_planet: Account<Planet>,
    /// The accounts that are to hold the two stars.
    pub star_one: Account<Star>,
    pub star_two: Account<Star>,
    /// Who makes the call: it has to be the operator.
    pub manager: Wallet,
}

/// What a [`StarHopTwoStart`] holds.
pub struct StarHopTwoStartView {
    pub from_planet: AccountView<PlanetView>,
    pub star_one: AccountView<StarView>,
    pub star_two: AccountView<StarView>,
    pub manager: WalletView,
}

impl View for StarHopTwoStart {
    type V = StarHopTwoStartView;

    open spec fn view(&self) -> StarHopTwoStartView {
        StarHopTwoStartView {
            from_planet: self.from_planet@,
            star_one: self.star_one@,
            star_two: self.star_two@,
            manager: self.manager@,
        }
    }
}

impl StarHopTwoStartView {
    /// The lamports of all the accounts together.
    pub open spec fn total_lamports(self) -> nat {
        self.from_planet.lamports + self.star_one.lamports + self.star_two.lamports
            + self.manager.lamports
    }
}

/// The accounts of [`star_hop_two_end`](crate::star_hops::star_hop_two_end).
#[derive(Clone, Debug, PartialEq, Eq)]
pub struct StarHopTwoEnd {
    pub to_planet: Account<Planet>,
    pub star_one: Account<Star>,
    pub star_two: Account<Star>,
    /// Who makes the call: it has to be the operator who created the stars.
    pub manager: Wallet,
}

/// What a [`StarHopTwoEnd`] holds.
pub struct StarHopTwoEndView {
    pub to_planet: AccountView<PlanetView>,
    pub star_one: AccountView<StarView>,
    pub star_two: AccountView<StarView>,
    pub manager: WalletView,
}

impl View for StarHopTwoEnd {
    type V = StarHopTwoEndView;

    open spec fn view(&self) -> StarHopTwoEndView {
        StarHopTwoEndView {
            to_planet: self.to_planet@,
            star_one: self.star_one@,
            star_two: self.star_two@,
            manager: self.manager@,
        }
    }
}

impl StarHopTwoEndView {
    /// The lamports of all the accounts together.
    pub open spec fn total_lamports(self) -> nat {
        self.to_planet.lamports + self.star_one.lamports + self.star_two.lamports
            + self.manager.lamports
    }
}

/// The accounts of [`star_hop_three_start`](crate::star_hops::star_hop_three_start).
#[derive(Clone, Debug, PartialEq, Eq)]
pub struct StarHopThreeStart {
    pub from_planet: Account<Planet>,
    /// The accounts that are to hold the three stars.
    pub star_one: Account<Star>,
    pub star_two: Account<Star>,
    pub star_three: Account<Star>,
    /// Who makes the call: it has to be the operator.
    pub manager: Wallet,
}

/// What a [`StarHopThreeStart`] holds.
pub struct StarHopThreeStartView {
    pub from_planet: AccountView<PlanetView>,
    pub star_one: AccountView<StarView>,
    pub star_two: AccountView<StarView>,
    pub star_three: AccountView<StarView>,
    pub manager: WalletView,
}

impl View for StarHopThreeStart {
    type V = StarHopThreeStartView;

    open spec fn view(&self) -> StarHopThreeStartView {
        StarHopThreeStartView {
            from_planet: self.from_planet@,
            star_one: self.star_one@,
            star_two: self.star_two@,
            star_three: self.star_three@,
            manager: self.manager@,
        }
    }
}

impl StarHopThreeStartView {
    /// The lamports of all the accounts together.
    pub open spec fn total_lamports(self) -> nat {
        self.from_planet.lamports + self.star_one.lamports + self.star_two.lamports
            + self.star_three.lamports + self.manager.lamports
    }
}

/// The accounts of [`star_hop_three_end`](crate::star_hops::star_hop_three_end).
#[derive(Clone, Debug, PartialEq, Eq)]
pub struct StarHopThreeEnd {
    pub to_planet: Account<Planet>,
    pub star_one: Account<Star>,
    pub star_two: Account<Star>,
    pub star_three: Account<Star>,
    /// Who makes the call: it has to be the operator who created the stars.
    pub manager: Wallet,
}

/// What a [`StarHopThreeEnd`] holds.
pub struct StarHopThreeEndView {
    pub to_planet: AccountView<PlanetView>,
    pub star_one: AccountView<StarView>,
    pub star_two: AccountView<StarView>,
    pub star_three: AccountView<StarView>,
    pub manager: WalletView,
}

impl View for StarHopThreeEnd {
    type V = StarHopThreeEndView;

    open spec fn view(&self) -> StarHopThreeEndView {
        StarHopThreeEndView {
            to_planet: self.to_planet@,
            star_one: self.star_one@,
            star_two: self.star_two@,
            star_three: self.star_three@,
            manager: self.manager@,
        }
    }
}

impl StarHopThreeEndView {
    /// The lamports of all the accounts together.
    pub open spec fn total_lamports(self) -> nat {
        self.to_planet.lamports + self.star_one.lamports + self.star_two.lamports
            + self.star_three.lamports + self.manager.lamports
    }
}

} // verus!
