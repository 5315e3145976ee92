//! Deposit records: what the operator keeps of one deposit while it is on its way.

use vstd::prelude::*;
use crate::account::{Account, AccountView, Lifecycle, Wallet, WalletView};
use crate::accounts_universe::{Universe, UniverseView};
use crate::address::{zero_bytes, Address};

verus! {

/// The record of one deposit on its way.
#[derive(Clone, Debug, PartialEq, Eq)]
pub struct Deposit {
    /// The id by which the operator finds the deposit.
    pub id: String,
    /// Who made the deposit.
    pub creator: Address,
    /// The operator who moves the deposit.
    pub manager: Address,
    /// When the record was created.
    pub created: i64,
    /// The record's own address.
    pub pda: Address,
    /// The bump seed of that address.
    pub bump: u8,
    /// The deposit, in lamports.
    pub deposit: u64,
    /// The name of the planet at which the deposit is.
    pub loc: String,
    /// How many hops the deposit has made.
    pub hops: u8,
    /// When the record was last updated.
    pub up: i64,
    /// The fees as they were when the record was created.
    pub hpfe: u64,
    pub hsfe2: u64,
    pub hsfe3: u64,
    pub wfe: u64,
}

/// What a [`Deposit`] holds.
pub struct DepositView {
    pub id: Seq<char>,
    pub creator: Seq<u8>,
    pub manager: Seq<u8>,
    pub created: int,
    pub pda: Seq<u8>,
    pub bump: nat,
    pub deposit: nat,
    pub loc: Seq<char>,
    pub hops: nat,
    pub up: int,
    pub hpfe: nat,
    pub hsfe2: nat,
    pub hsfe3: nat,
    pub wfe: nat,
}

impl View for Deposit {
    type V = DepositView;

    open spec fn view(&self) -> DepositView {
        DepositView {
            id: self.id@,
            creator: self.creator@,
            manager: self.manager@,
            created: self.created as int,
            pda: self.pda@,
            bump: self.bump as nat,
            deposit: self.deposit as nat,
            loc: self.loc@,
            hops: self.hops as nat,
            up: self.up as int,
            hpfe: self.hpfe as nat,
            hsfe2: self.hsfe2 as nat,
            hsfe3: self.hsfe3 as nat,
            wfe: self.wfe as nat,
        }
    }
}

impl DepositView {
    /// The record of an account that holds no deposit record.
    pub open spec fn blank() -> DepositView {
        DepositView {
            id: Seq::empty(),
            creator: zero_bytes(),
            manager: zero_bytes(),
            created: 0,
            pda: zero_bytes(),
            bump: 0,
            deposit: 0,
            loc: Seq::empty(),
            hops: 0,
            up: 0,
            hpfe: 0,
            hsfe2: 0,
            hsfe3: 0,
            wfe: 0,
        }
    }

    /// Whether the record holds the fees of `universe`, but for the deposit fee, which was
    /// paid when the deposit came in.
    pub open spec fn has_fees_of(self, universe: UniverseView) -> bool {
        &&& self.hpfe == universe.hpfe
        &&& self.hsfe2 == universe.hsfe2
        &&& self.hsfe3 == universe.hsfe3
        &&& self.wfe == universe.wfe
    }
}

impl Deposit {
    /// The record of an account that holds no deposit record.
    pub fn blank() -> (deposit: Deposit)
        ensures
            deposit@ == DepositView::blank(),
    {
        Deposit {
            id: String::new(),
            creator: Address::zero(),
            manager: Address::zero(),
            created: 0,
            pda: Address::zero(),
            bump: 0,
            deposit: 0,
            loc: String::new(),
            hops: 0,
            up: 0,
            hpfe: 0,
            hsfe2: 0,
            hsfe3: 0,
            wfe: 0,
        }
    }
}

/// A deposit record's account after it was closed: no lamports, no record.
pub open spec fn closed_deposit() -> AccountView<DepositView> {
    AccountView { lamports: 0, lifecycle: Lifecycle::Closed, data: DepositView::blank() }
}

/// The accounts of [`create_deposit`](crate::deposits::create_deposit).
#[derive(Clone, Debug, PartialEq, Eq)]
pub struct CreateDeposit {
    /// The account that is to hold the record.
    pub deposit: Account<Deposit>,
    pub universe: Account<Universe>,
    /// Who made the deposit.
    pub creator: Wallet,
    /// Who makes the call: it has to be the operator.
    pub manager: Wallet,
}

/// What a [`CreateDeposit`] holds.
pub struct CreateDepositView {
    pub deposit: AccountView<DepositView>,
    pub universe: AccountView<UniverseView>,
    pub creator: WalletView,
    pub manager: WalletView,
}

impl View for CreateDeposit {
    type V = CreateDepositView;

    open spec fn view(&self) -> CreateDepositView {
        CreateDepositView {
            deposit: self.deposit@,
            universe: self.universe@,
            creator: self.creator@,
            manager: self.manager@,
        }
    }
}

/// The accounts of [`update_deposit`](crate::deposits::update_deposit).
#[derive(Clone, Debug, PartialEq, Eq)]
pub struct UpdateDeposit {
    /// The record to update.
    pub comet: Account<Deposit>,
    /// Who makes the call: it has to be the operator.
    pub creator: Wallet,
}

/// What an [`UpdateDeposit`] holds.
pub struct UpdateDepositView {
    pub comet: AccountView<DepositView>,
    pub creator: WalletView,
}

impl View for UpdateDeposit {
    type V = UpdateDepositView;

    open spec fn view(&self) -> UpdateDepositView {
        UpdateDepositView { comet: self.comet@, creator: self.creator@ }
    }
}

/// The accounts of [`close_deposit`](crate::deposits::close_deposit).
#[derive(Clone, Debug, PartialEq, Eq)]
pub struct CloseDeposit {
    /// The record to close.
    pub deposit: Account<Deposit>,
    /// Who makes the call: it has to be the operator, and the one named in the record.
    pub manager: Wallet,
}

/// What a [`CloseDeposit`] holds.
pub struct CloseDepositView {
    pub deposit: AccountView<DepositView>,
    pub manager: WalletView,
}

impl View for CloseDeposit {
    type V = CloseDepositView;

    open spec fn view(&self) -> CloseDepositView {
        CloseDepositView { deposit: self.deposit@, manager: self.manager@ }
    }
}

impl CloseDepositView {
    /// The lamports of all the accounts together.
    pub open spec fn total_lamports(self) -> nat {
        self.deposit.lamports + self.manager.lamports
    }
}

} // verus!
