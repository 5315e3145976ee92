//! The universe: the one pool account of a deployment, which also keeps the list of
//! planets and the fee schedule.

use vstd::prelude::*;
use crate::account::{Account, AccountView, Wallet, WalletView};
use crate::address::{zero_bytes, Address};

verus! {

/// The record of the universe.
#[derive(Clone, Debug, PartialEq, Eq)]
pub struct Universe {
    /// The universe's own address.
    pub pda: Address,
    /// The bump seed of that address.
    pub bp: u8,
    /// The names of the planets, in the order of their creation.
    pub p: Vec<String>,
    /// When the universe was created.
    pub st: i64,
    /// When the fees were last set.
    pub up: i64,
    /// The fee for a deposit.
    pub cfe: u64,
    /// The fee for a hop between planets.
    pub hpfe: u64,
    /// The fee for a hop over two stars.
    pub hsfe2: u64,
    /// The fee for a hop over three stars.
    pub hsfe3: u64,
    /// The fee for a withdrawal.
    pub wfe: u64,
}

/// What a [`Universe`] holds.
pub struct UniverseView {
    pub pda: Seq<u8>,
    pub bp: nat,
    pub p: Seq<Seq<char>>,
    pub st: int,
    pub up: int,
    pub cfe: nat,
    pub hpfe: nat,
    pub hsfe2: nat,
    pub hsfe3: nat,
    pub wfe: nat,
}

/// The characters of each name of a list.
pub open spec fn names_of(names: Seq<String>) -> Seq<Seq<char>> {
    names.map_values(|name: String| name@)
}

impl View for Universe {
    type V = UniverseView;

    open spec fn view(&self) -> UniverseView {
        UniverseView {
            pda: self.pda@,
            bp: self.bp as nat,
            p: names_of(self.p@),
            st: self.st as int,
            up: self.up as int,
            cfe: self.cfe as nat,
            hpfe: self.hpfe as nat,
            hsfe2: self.hsfe2 as nat,
            hsfe3: self.hsfe3 as nat,
            wfe: self.wfe as nat,
        }
    }
}

impl UniverseView {
    /// No planet name is listed twice.
    pub open spec fn well_formed(self) -> bool {
        self.p.no_duplicates()
    }

    /// The record of an account that holds no universe.
    pub open spec fn blank() -> UniverseView {
        UniverseView {
            pda: zero_bytes(),
            bp: 0,
            p: Seq::empty(),
            st: 0,
            up: 0,
            cfe: 0,
            hpfe: 0,
            hsfe2: 0,
            hsfe3: 0,
            wfe: 0,
        }
    }
}

impl Universe {
    /// The record of an account that holds no universe.
    pub fn blank() -> (universe: Universe)
        ensures
            universe@ == UniverseView::blank(),
    {
        let universe = Universe {
            pda: Address::zero(),
            bp: 0,
            p: Vec::new(),
            st: 0,
            up: 0,
            cfe: 0,
            hpfe: 0,
            hsfe2: 0,
            hsfe3: 0,
            wfe: 0,
        };
        assert(universe@.p =~= Seq::<Seq<char>>::empty());
        universe
    }
}

/// The accounts of [`bang`](crate::universe::bang).
#[derive(Clone, Debug, PartialEq, Eq)]
pub struct BigBang {
    /// The account that is to hold the universe.
    pub universe: Account<Universe>,
    /// Who pays for the account.
    pub creator: Wallet,
}

/// What a [`BigBang`] holds.
pub struct BigBangView {
    pub universe: AccountView<UniverseView>,
    pub creator: WalletView,
}

impl View for BigBang {
    type V = BigBangView;

    open spec fn view(&self) -> BigBangView {
        BigBangView { universe: self.universe@, creator: self.creator@ }
    }
}

/// The accounts of [`update_fee`](crate::universe::update_fee).
#[derive(Clone, Debug, PartialEq, Eq)]
pub struct UpdateUniverseFee {
    pub universe: Account<Universe>,
    /// Who makes the call: it has to be the operator.
    pub manager: Wallet,
}

/// What an [`UpdateUniverseFee`] holds.
pub struct UpdateUniverseFeeView {
    pub universe: AccountView<UniverseView>,
    pub manager: WalletView,
}

impl View for UpdateUniverseFee {
    type V = UpdateUniverseFeeView;

    open spec fn view(&self) -> UpdateUniverseFeeView {
        UpdateUniverseFeeView { universe: self.universe@, manager: self.manager@ }
    }
}

} // verus!
