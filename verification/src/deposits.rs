//! The life of a deposit record: created when a deposit comes in, updated by the operator
//! at every hop, closed when the deposit has left.

use vstd::prelude::*;
use crate::account::{AccountView, Lifecycle};
use crate::accounts_deposit::{
    closed_deposit, CloseDeposit, CloseDepositView, CreateDeposit, CreateDepositView, Deposit,
    DepositView, UpdateDeposit, UpdateDepositView,
};
use crate::accounts_universe::UniverseView;
use crate::address::Address;
use crate::errors::{applied, ErrorCode};

verus! {

/// The record of a deposit of `amount` lamports that came in at the time `now` at the
/// planet `location`: no hop yet, and the fees of `universe`.
pub open spec fn fresh_deposit(
    id: Seq<char>,
    creator: Seq<u8>,
    manager: Seq<u8>,
    pda: Seq<u8>,
    bump: u8,
    amount: nat,
    location: Seq<char>,
    now: int,
    universe: UniverseView,
) -> DepositView {
    DepositView {
        id,
        creator,
        manager,
        created: now,
        pda,
        bump: bump as nat,
        deposit: amount,
        loc: location,
        hops: 0,
        up: now,
        hpfe: universe.hpfe,
        hsfe2: universe.hsfe2,
        hsfe3: universe.hsfe3,
        wfe: universe.wfe,
    }
}

/// What creating the record `id` at the time `now` does to the accounts `pre`, for a
/// deposit of `amount` lamports that is at the planet `location`; `pda` and `bump` are
/// the address of the record's account and its bump seed.
///
/// It is rejected with `AuthorizationFailure` where the caller is not the operator; else
/// with `AccountNotFound` where there is no universe; else with `DuplicateRegistration`
/// where the record's account is not vacant. Else the record is written, with the
/// depositor, the caller as its operator, and the fees that the universe has now.
pub open spec fn create_deposit_outcome(
    pre: CreateDepositView,
    id: Seq<char>,
    pda: Seq<u8>,
    bump: u8,
    amount: nat,
    location: Seq<char>,
    now: int,
) -> Result<CreateDepositView, ErrorCode> {
    if !pre.manager.is_manager() {
        Err(ErrorCode::AuthorizationFailure)
    } else if !pre.universe.is_active() {
        Err(ErrorCode::AccountNotFound)
    } else if !pre.deposit.is_vacant() {
        Err(ErrorCode::DuplicateRegistration)
    } else {
        Ok(
            CreateDepositView {
                deposit: AccountView {
                    lamports: pre.deposit.lamports,
                    lifecycle: Lifecycle::Active,
                    data: fresh_deposit(
                        id,
                        pre.creator.key,
                        pre.manager.key,
                        pda,
                        bump,
                        amount,
                        location,
                        now,
                        pre.universe.data,
                    ),
                },
                ..pre
            },
        )
    }
}

/// Creates the record `id` of a deposit of `deposit_lamports` that is at the planet
/// `location`, at the time `unix_timestamp`. Only the operator may do so.
pub fn create_deposit(
    ctx: &mut CreateDeposit,
    id: String,
    pda: Address,
    bump: u8,
    deposit_lamports: u64,
    location: String,
    unix_timestamp: i64,
) -> (result: Result<(), ErrorCode>)
    ensures
        applied(
            create_deposit_outcome(
                old(ctx)@,
                id@,
                pda@,
                bump,
                deposit_lamports as nat,
                location@,
                unix_timestamp as int,
            ),
            result,
            final(ctx)@,
        ),
        result is Err ==> *final(ctx) == *old(ctx),
        result is Ok ==> final(ctx).deposit@.data.has_fees_of(old(ctx).universe@.data),
{
    if !ctx.manager.is_manager() {
        return Err(ErrorCode::AuthorizationFailure);
    }
    if !ctx.universe.is_active() {
        return Err(ErrorCode::AccountNotFound);
    }
    if !ctx.deposit.is_vacant() {
        return Err(ErrorCode::DuplicateRegistration);
    }
    ctx.deposit.data = Deposit {
        id,
        creator: ctx.creator.key,
        manager: ctx.manager.key,
        created: unix_timestamp,
        pda,
        bump,
        deposit: deposit_lamports,
        loc: location,
        hops: 0,
        up: unix_timestamp,
        hpfe: ctx.universe.data.hpfe,
        hsfe2: ctx.universe.data.hsfe2,
        hsfe3: ctx.universe.data.hsfe3,
        wfe: ctx.universe.data.wfe,
    };
    ctx.deposit.lifecycle = Lifecycle::Active;
    Ok(())
}

/// What recording a hop to the planet `location` at the time `now` does to the accounts
/// `pre`.
///
/// It is rejected with `AuthorizationFailure` where the caller is not the operator; else
/// with `AccountNotFound` where there is no record; else with `ArithmeticOverflow` where
/// the record counts 255 hops already. Else the record gets the new location and time and
/// counts one hop more; the rest of it, the fees among it, stays.
pub open spec fn update_deposit_outcome(pre: UpdateDepositView, location: Seq<char>, now: int) -> Result<
    UpdateDepositView,
    ErrorCode,
> {
    if !pre.creator.is_manager() {
        Err(ErrorCode::AuthorizationFailure)
    } else if !pre.comet.is_active() {
        Err(ErrorCode::AccountNotFound)
    } else if pre.comet.data.hops + 1 > u8::MAX {
        Err(ErrorCode::ArithmeticOverflow)
    } else {
        Ok(
            UpdateDepositView {
                comet: AccountView {
                    data: DepositView {
                        loc: location,
                        hops: pre.comet.data.hops + 1,
                        up: now,
                        ..pre.comet.data
                    },
                    ..pre.comet
                },
                creator: pre.creator,
            },
        )
    }
}

/// Records that the deposit hopped to the planet `location` at the time
/// `unix_timestamp`. Only the operator may do so.
pub fn update_deposit(ctx: &mut UpdateDeposit, location: String, unix_timestamp: i64) -> (result:
    Result<(), ErrorCode>)
    ensures
        applied(
            update_deposit_outcome(old(ctx)@, location@, unix_timestamp as int),
            result,
            final(ctx)@,
        ),
        result is Err ==> *final(ctx) == *old(ctx),
        forall|universe: UniverseView|
            old(ctx).comet@.data.has_fees_of(universe) ==> final(ctx).comet@.data.has_fees_of(
                universe,
            ),
{
    if !ctx.creator.is_manager() {
        return Err(ErrorCode::AuthorizationFailure);
    }
    if !ctx.comet.is_active() {
        return Err(ErrorCode::AccountNotFound);
    }
    if ctx.comet.data.hops == u8::MAX {
        return Err(ErrorCode::ArithmeticOverflow);
    }
    ctx.comet.data.loc = location;
    ctx.comet.data.hops = ctx.comet.data.hops + 1;
    ctx.comet.data.up = unix_timestamp;
    Ok(())
}

/// What closing a deposit record does to the accounts `pre`.
///
/// It is rejected with `AuthorizationFailure` where the caller is not the operator; else
/// with `AccountNotFound` where there is no record; else with `AuthorizationFailure`
/// where the record names another operator; else with `ArithmeticOverflow` where the
/// caller's balance cannot take what the record's account holds. Else the caller gets the
/// lamports of the record's account, and the account is closed, with nothing left of the
/// record.
pub open spec fn close_deposit_outcome(pre: CloseDepositView) -> Result<CloseDepositView, ErrorCode> {
    if !pre.manager.is_manager() {
        Err(ErrorCode::AuthorizationFailure)
    } else if !pre.deposit.is_active() {
        Err(ErrorCode::AccountNotFound)
    } else if pre.deposit.data.manager != pre.manager.key {
        Err(ErrorCode::AuthorizationFailure)
    } else if pre.manager.lamports + pre.deposit.lamports > u64::MAX {
        Err(ErrorCode::ArithmeticOverflow)
    } else {
        Ok(
            CloseDepositView {
                deposit: closed_deposit(),
                manager: pre.manager.credited(pre.deposit.lamports),
            },
        )
    }
}

/// Closes the record of a deposit that has left. Only the operator named in the record
/// may do so.
pub fn close_deposit(ctx: &mut CloseDeposit) -> (result: Result<(), ErrorCode>)
    ensures
        applied(close_deposit_outcome(old(ctx)@), result, final(ctx)@),
        result is Err ==> *final(ctx) == *old(ctx),
        final(ctx)@.total_lamports() == old(ctx)@.total_lamports(),
{
    if !ctx.manager.is_manager() {
        return Err(ErrorCode::AuthorizationFailure);
    }
    if !ctx.deposit.is_active() {
        return Err(ErrorCode::AccountNotFound);
    }
    if ctx.deposit.data.manager != ctx.manager.key {
        return Err(ErrorCode::AuthorizationFailure);
    }
    if !ctx.manager.has_room_for(ctx.deposit.lamports) {
        return Err(ErrorCode::ArithmeticOverflow);
    }
    ctx.manager.credit(ctx.deposit.lamports);
    ctx.deposit.lamports = 0;
    ctx.deposit.data = Deposit::blank();
    ctx.deposit.lifecycle = Lifecycle::Closed;
    Ok(())
}

/// A record holds the fees of the time of its creation, and a hop leaves them as they
/// are: whatever the universe's fees become later, the record of a deposit on its way
/// keeps those it started with. A hop adds one to the count of hops and changes neither
/// the deposit nor who made it nor who moves it.
pub proof fn lemma_deposit_keeps_its_fees(
    pre: CreateDepositView,
    id: Seq<char>,
    pda: Seq<u8>,
    bump: u8,
    amount: nat,
    location: Seq<char>,
    now: int,
    hop: UpdateDepositView,
    next: Seq<char>,
    later: int,
)
    requires
        create_deposit_outcome(pre, id, pda, bump, amount, location, now) is Ok,
        update_deposit_outcome(hop, next, later) is Ok,
    ensures
        create_deposit_outcome(
            pre,
            id,
            pda,
            bump,
            amount,
            location,
            now,
        )->Ok_0.deposit.data.has_fees_of(pre.universe.data),
        create_deposit_outcome(pre, id, pda, bump, amount, location, now)->Ok_0.deposit.data.hops
            == 0,
        forall|universe: UniverseView|
            hop.comet.data.has_fees_of(universe) ==> update_deposit_outcome(
                hop,
                next,
                later,
            )->Ok_0.comet.data.has_fees_of(universe),
        update_deposit_outcome(hop, next, later)->Ok_0.comet.data.hops == hop.comet.data.hops + 1,
        update_deposit_outcome(hop, next, later)->Ok_0.comet.data.deposit
            == hop.comet.data.deposit,
        update_deposit_outcome(hop, next, later)->Ok_0.comet.data.creator
            == hop.comet.data.creator,
        update_deposit_outcome(hop, next, later)->Ok_0.comet.data.manager
            == hop.comet.data.manager,
{
}

/// Closing a record creates and destroys no lamports, and leaves nothing of the record:
/// a closed record cannot be updated or closed again.
pub proof fn lemma_close_deposit_conserves(pre: CloseDepositView, hop: UpdateDepositView, next: Seq<char>, later: int)
    requires
        close_deposit_outcome(pre) is Ok,
        hop.comet == close_deposit_outcome(pre)->Ok_0.deposit,
    ensures
        close_deposit_outcome(pre)->Ok_0.total_lamports() == pre.total_lamports(),
        close_deposit_outcome(pre)->Ok_0.deposit == closed_deposit(),
        close_deposit_outcome(close_deposit_outcome(pre)->Ok_0) is Err,
        update_deposit_outcome(hop, next, later) is Err,
{
}

} // verus!
