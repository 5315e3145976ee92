//! Accounts as the ledger hands them to an operation: a balance, and for the accounts that
//! the program owns a record and the stage of its life.

use vstd::prelude::*;
use crate::address::Address;
use crate::variables::{MANAGER_PUBKEY, TREASURY_PUBKEY};

verus! {

/// The stage of life of an account that the program owns.
#[derive(Clone, Copy, PartialEq, Eq, Structural, Debug)]
pub enum Lifecycle {
    /// Allocated by the ledger, with no record written yet.
    Vacant,
    /// Holds a live record.
    Active,
    /// Emptied and given back to the ledger. A closed account is never used again.
    Closed,
}

/// An account that the program owns: its balance in lamports, the stage of its life,
/// and its record.
#[derive(Clone, Debug, PartialEq, Eq)]
pub struct Account<T> {
    pub lamports: u64,
    pub lifecycle: Lifecycle,
    pub data: T,
}

/// What an [`Account`] holds, with the record taken by its view.
pub struct AccountView<V> {
    pub lamports: nat,
    pub lifecycle: Lifecycle,
    pub data: V,
}

impl<T: View> View for Account<T> {
    type V = AccountView<T::V>;

    open spec fn view(&self) -> AccountView<T::V> {
        AccountView { lamports: self.lamports as nat, lifecycle: self.lifecycle, data: self.data@ }
    }
}

impl<V> AccountView<V> {
    pub open spec fn is_vacant(self) -> bool {
        self.lifecycle == Lifecycle::Vacant
    }

    pub open spec fn is_active(self) -> bool {
        self.lifecycle == Lifecycle::Active
    }

    pub open spec fn is_closed(self) -> bool {
        self.lifecycle == Lifecycle::Closed
    }

    /// The account with `amount` more lamports.
    pub open spec fn credited(self, amount: nat) -> AccountView<V> {
        AccountView { lamports: self.lamports + amount, ..self }
    }

    /// The account with `amount` fewer lamports; meant for `amount <= self.lamports`.
    pub open spec fn debited(self, amount: nat) -> AccountView<V> {
        AccountView { lamports: (self.lamports - amount) as nat, ..self }
    }
}

impl<T> Account<T> {
    pub fn is_vacant(&self) -> (vacant: bool)
        ensures
            vacant == (self.lifecycle == Lifecycle::Vacant),
    {
        self.lifecycle == Lifecycle::Vacant
    }

    pub fn is_active(&self) -> (active: bool)
        ensures
            active == (self.lifecycle == Lifecycle::Active),
    {
        self.lifecycle == Lifecycle::Active
    }

    pub fn is_closed(&self) -> (closed: bool)
        ensures
            closed == (self.lifecycle == Lifecycle::Closed),
    {
        self.lifecycle == Lifecycle::Closed
    }

    /// Whether `amount` more lamports would fit into the balance.
    pub fn has_room_for(&self, amount: u64) -> (fits: bool)
        ensures
            fits == (self.lamports + amount <= u64::MAX),
    {
        amount <= u64::MAX - self.lamports
    }

    /// Adds `amount` lamports to the balance.
    pub(crate) fn credit(&mut self, amount: u64)
        requires
            old(self).lamports + amount <= u64::MAX,
        ensures
            final(self).lamports == old(self).lamports + amount,
            final(self).lifecycle == old(self).lifecycle,
            final(self).data == old(self).data,
    {
        self.lamports = self.lamports + amount;
    }

    /// Takes `amount` lamports from the balance.
    pub(crate) fn debit(&mut self, amount: u64)
        requires
            amount <= old(self).lamports,
        ensures
            final(self).lamports == old(self).lamports - amount,
            final(self).lifecycle == old(self).lifecycle,
            final(self).data == old(self).data,
    {
        self.lamports = self.lamports - amount;
    }
}

/// An account outside the program: an address and its balance. Whether the holder of the
/// address signed the call is for the ledger to establish.
#[derive(Clone, Copy, Debug, PartialEq, Eq)]
pub struct Wallet {
    pub key: Address,
    pub lamports: u64,
}

/// What a [`Wallet`] holds.
pub struct WalletView {
    pub key: Seq<u8>,
    pub lamports: nat,
}

impl View for Wallet {
    type V = WalletView;

    open spec fn view(&self) -> WalletView {
        WalletView { key: self.key@, lamports: self.lamports as nat }
    }
}

impl WalletView {
    /// Whether this is the operator's wallet.
    pub open spec fn is_manager(self) -> bool {
        self.key == MANAGER_PUBKEY@
    }

    /// Whether this is the wallet that collects the fees.
    pub open spec fn is_treasury(self) -> bool {
        self.key == TREASURY_PUBKEY@
    }

    /// The wallet with `amount` more lamports.
    pub open spec fn credited(self, amount: nat) -> WalletView {
        WalletView { lamports: self.lamports + amount, ..self }
    }

    /// The wallet with `amount` fewer lamports; meant for `amount <= self.lamports`.
    pub open spec fn debited(self, amount: nat) -> WalletView {
        WalletView { lamports: (self.lamports - amount) as nat, ..self }
    }
}

impl Wallet {
    pub fn is_manager(&self) -> (holds: bool)
        ensures
            holds == self@.is_manager(),
    {
        self.key.is(&MANAGER_PUBKEY)
    }

    pub fn is_treasury(&self) -> (holds: bool)
        ensures
            holds == self@.is_treasury(),
    {
        self.key.is(&TREASURY_PUBKEY)
    }

    /// Whether `amount` more lamports would fit into the balance.
    pub fn has_room_for(&self, amount: u64) -> (fits: bool)
        ensures
            fits == (self.lamports + amount <= u64::MAX),
    {
        amount <= u64::MAX - self.lamports
    }

    /// Adds `amount` lamports to the balance.
    pub(crate) fn credit(&mut self, amount: u64)
        requires
            old(self).lamports + amount <= u64::MAX,
        ensures
            final(self)@ == old(self)@.credited(amount as nat),
            final(self).key == old(self).key,
    {
        self.lamports = self.lamports + amount;
    }

    /// Takes `amount` lamports from the balance.
    pub(crate) fn debit(&mut self, amount: u64)
        requires
            amount <= old(self).lamports,
        ensures
            final(self)@ == old(self)@.debited(amount as nat),
            final(self).key == old(self).key,
    {
        self.lamports = self.lamports - amount;
    }
}

} // verus!
