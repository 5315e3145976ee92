//! Creating the universe and setting its fees.

use vstd::prelude::*;
use crate::account::{AccountView, Lifecycle};
use crate::accounts_universe::{
    BigBang, BigBangView, Universe, UniverseView, UpdateUniverseFee, UpdateUniverseFeeView,
};
use crate::address::Address;
use crate::errors::{applied, ErrorCode};
use crate::shared::{derived_view, find_universe_address, universe_program_address};
use crate::variables::{
    DEFAULT_COMET_FEE, DEFAULT_HOP_PLANET_FEE, DEFAULT_HOP_STAR_FEE2, DEFAULT_HOP_STAR_FEE3,
    DEFAULT_WITHDRAW_FEE,
};

verus! {

/// The record of a universe created at the time `now` at the address `pda`: no planet,
/// the default fees.
pub open spec fn fresh_universe(pda: Seq<u8>, bump: u8, now: int) -> UniverseView {
    UniverseView {
        pda,
        bp: bump as nat,
        p: Seq::empty(),
        st: now,
        up: now,
        cfe: DEFAULT_COMET_FEE as nat,
        hpfe: DEFAULT_HOP_PLANET_FEE as nat,
        hsfe2: DEFAULT_HOP_STAR_FEE2 as nat,
        hsfe3: DEFAULT_HOP_STAR_FEE3 as nat,
        wfe: DEFAULT_WITHDRAW_FEE as nat,
    }
}

/// What creating the universe at the time `now` does to the accounts `pre`, where
/// `derived` is the universe's address with its bump seed.
///
/// It is rejected with `DuplicateRegistration` where the account is not vacant, so a
/// universe is created once; else with `AddressDerivation` where no address was derived.
pub open spec fn bang_outcome(pre: BigBangView, derived: Option<(Seq<u8>, u8)>, now: int) -> Result<
    BigBangView,
    ErrorCode,
> {
    if !pre.universe.is_vacant() {
        Err(ErrorCode::DuplicateRegistration)
    } else {
        match derived {
            None => Err(ErrorCode::AddressDerivation),
            Some((pda, bump)) => Ok(
                BigBangView {
                    universe: AccountView {
                        lamports: pre.universe.lamports,
                        lifecycle: Lifecycle::Active,
                        data: fresh_universe(pda, bump, now),
                    },
                    creator: pre.creator,
                },
            ),
        }
    }
}

/// Creates the universe at the time `unix_timestamp`, at the address `derived`.
pub fn bang_at(ctx: &mut BigBang, derived: Option<(Address, u8)>, unix_timestamp: i64) -> (result:
    Result<(), ErrorCode>)
    ensures
        applied(
            bang_outcome(old(ctx)@, derived_view(derived), unix_timestamp as int),
            result,
            final(ctx)@,
        ),
        result is Err ==> *final(ctx) == *old(ctx),
        result is Ok ==> final(ctx).universe@.data.well_formed(),
{
    if !ctx.universe.is_vacant() {
        return Err(ErrorCode::DuplicateRegistration);
    }
    match derived {
        None => Err(ErrorCode::AddressDerivation),
        Some((pda, bump)) => {
            ctx.universe.data = Universe {
                pda,
                bp: bump,
                p: Vec::new(),
                st: unix_timestamp,
                up: unix_timestamp,
                cfe: DEFAULT_COMET_FEE,
                hpfe: DEFAULT_HOP_PLANET_FEE,
                hsfe2: DEFAULT_HOP_STAR_FEE2,
                hsfe3: DEFAULT_HOP_STAR_FEE3,
                wfe: DEFAULT_WITHDRAW_FEE,
            };
            ctx.universe.lifecycle = Lifecycle::Active;
            assert(ctx.universe.data@.p =~= Seq::<Seq<char>>::empty());
            Ok(())
        },
    }
}

/// Creates the universe of the program `program_id` at the time `unix_timestamp`: it gets
/// its address, an empty list of planets and the default fees.
pub fn bang(ctx: &mut BigBang, program_id: &Address, unix_timestamp: i64) -> (result: Result<
    (),
    ErrorCode,
>)
    ensures
        applied(
            bang_outcome(old(ctx)@, universe_program_address(program_id@), unix_timestamp as int),
            result,
            final(ctx)@,
        ),
        result is Err ==> *final(ctx) == *old(ctx),
        result is Ok ==> final(ctx).universe@.data.well_formed(),
{
    let derived = find_universe_address(program_id);
    bang_at(ctx, derived, unix_timestamp)
}

/// What setting the fees at the time `now` does to the accounts `pre`.
///
/// It is rejected with `AuthorizationFailure` where the caller is not the operator; else
/// with `AccountNotFound` where the account holds no universe. Else all five fees and the
/// time of the update are set, and nothing else changes.
pub open spec fn update_fee_outcome(
    pre: UpdateUniverseFeeView,
    comet_fee: nat,
    hop_planet_fee: nat,
    hop_star_fee2: nat,
    hop_star_fee3: nat,
    withdraw_fee: nat,
    now: int,
) -> Result<UpdateUniverseFeeView, ErrorCode> {
    if !pre.manager.is_manager() {
        Err(ErrorCode::AuthorizationFailure)
    } else if !pre.universe.is_active() {
        Err(ErrorCode::AccountNotFound)
    } else {
        Ok(
            UpdateUniverseFeeView {
                universe: AccountView {
                    data: UniverseView {
                        up: now,
                        cfe: comet_fee,
                        hpfe: hop_planet_fee,
                        hsfe2: hop_star_fee2,
                        hsfe3: hop_star_fee3,
                        wfe: withdraw_fee,
                        ..pre.universe.data
                    },
                    ..pre.universe
                },
                manager: pre.manager,
            },
        )
    }
}

/// Sets the five fees, and the time of the update to `unix_timestamp`. Only the operator
/// may do so.
pub fn update_fee(
    ctx: &mut UpdateUniverseFee,
    comet_fee: u32,
    hop_planet_fee: u32,
    hop_star_fee2: u32,
    hop_star_fee3: u32,
    withdraw_fee: u32,
    unix_timestamp: i64,
) -> (result: Result<(), ErrorCode>)
    ensures
        applied(
            update_fee_outcome(
                old(ctx)@,
                comet_fee as nat,
                hop_planet_fee as nat,
                hop_star_fee2 as nat,
                hop_star_fee3 as nat,
                withdraw_fee as nat,
                unix_timestamp as int,
            ),
            result,
            final(ctx)@,
        ),
        result is Err ==> *final(ctx) == *old(ctx),
        final(ctx).universe@.data.p == old(ctx).universe@.data.p,
        final(ctx).universe.lamports == old(ctx).universe.lamports,
{
    if !ctx.manager.is_manager() {
        return Err(ErrorCode::AuthorizationFailure);
    }
    if !ctx.universe.is_active() {
        return Err(ErrorCode::AccountNotFound);
    }
    ctx.universe.data.up = unix_timestamp;
    ctx.universe.data.cfe = comet_fee as u64;
    ctx.universe.data.hpfe = hop_planet_fee as u64;
    ctx.universe.data.hsfe2 = hop_star_fee2 as u64;
    ctx.universe.data.hsfe3 = hop_star_fee3 as u64;
    ctx.universe.data.wfe = withdraw_fee as u64;
    Ok(())
}

} // verus!
