//! Creating and deleting planets, and the list of their names.

use vstd::prelude::*;
use crate::account::{AccountView, Lifecycle};
use crate::accounts_planet::{
    closed_planet, CreatePlanet, CreatePlanetView, DeletePlanet, DeletePlanetView, Planet,
    PlanetView,
};
use crate::accounts_universe::{names_of, UniverseView};
use crate::address::Address;
use crate::errors::{applied, ErrorCode};
use crate::shared::{
    derived_view, find_planet_address, get_planet_program_address, planet_program_address,
};
use crate::variables::PLANET_MIN_LAMPORTS;

verus! {

/// The names of `names` but for `name`, in their order.
pub open spec fn without(names: Seq<Seq<char>>, name: Seq<char>) -> Seq<Seq<char>> {
    names.filter(|listed: Seq<char>| listed != name)
}

/// Whether `name` is among `names`.
pub fn contains_name(names: &Vec<String>, name: &String) -> (found: bool)
    ensures
        found == names_of(names@).contains(name@),
{
    let mut i: usize = 0;
    while i < names.len()
        invariant
            i <= names.len(),
            forall|j: int| 0 <= j < i ==> names_of(names@)[j] != name@,
        decreases names.len() - i,
    {
        if names[i] == *name {
            assert(names_of(names@)[i as int] == name@);
            return true;
        }
        i = i + 1;
    }
    false
}

/// The names of `names` but for `name`, in their order.
pub fn without_name(names: &Vec<String>, name: &String) -> (kept: Vec<String>)
    ensures
        names_of(kept@) == without(names_of(names@), name@),
{
    let mut kept: Vec<String> = Vec::new();
    let mut i: usize = 0;
    proof {
        reveal(Seq::filter);
    }
    while i < names.len()
        invariant
            i <= names.len(),
            names_of(kept@) == without(names_of(names@).take(i as int), name@),
        decreases names.len() - i,
    {
        proof {
            reveal(Seq::filter);
            let all = names_of(names@);
            assert(all.take(i + 1).drop_last() =~= all.take(i as int));
        }
        if names[i] != *name {
            kept.push(names[i].clone());
        }
        i = i + 1;
    }
    assert(names_of(names@).take(i as int) =~= names_of(names@));
    kept
}

/// What creating the planet `name` at the time `now` does to the accounts `pre`, where
/// `derived` is the planet's address with its bump seed.
///
/// It is rejected with `AuthorizationFailure` where the caller is not the operator; else
/// with `AccountNotFound` where there is no universe; else with `DuplicateRegistration`
/// where the name is listed already or the planet's account is not vacant; else with
/// `AddressDerivation` where no address was derived. Else the planet gets its record,
/// with no visit yet, and its name is added to the end of the list. No balance changes.
pub open spec fn create_planet_outcome(
    pre: CreatePlanetView,
    name: Seq<char>,
    derived: Option<(Seq<u8>, u8)>,
    now: int,
) -> Result<CreatePlanetView, ErrorCode> {
    if !pre.creator.is_manager() {
        Err(ErrorCode::AuthorizationFailure)
    } else if !pre.universe.is_active() {
        Err(ErrorCode::AccountNotFound)
    } else if !pre.planet.is_vacant() || pre.universe.data.p.contains(name) {
        Err(ErrorCode::DuplicateRegistration)
    } else {
        match derived {
            None => Err(ErrorCode::AddressDerivation),
            Some((pda, bump)) => Ok(
                CreatePlanetView {
                    planet: AccountView {
                        lamports: pre.planet.lamports,
                        lifecycle: Lifecycle::Active,
                        data: PlanetView { name, pda, created: now, bump: bump as nat, visits: 0 },
                    },
                    universe: AccountView {
                        data: UniverseView {
                            p: pre.universe.data.p.push(name),
                            ..pre.universe.data
                        },
                        ..pre.universe
                    },
                    creator: pre.creator,
                },
            ),
        }
    }
}

/// Creates the planet `name` at the time `unix_timestamp`, at the address `derived`.
pub fn create_planet_at(
    ctx: &mut CreatePlanet,
    name: String,
    derived: Option<(Address, u8)>,
    unix_timestamp: i64,
) -> (result: Result<(), ErrorCode>)
    ensures
        applied(
            create_planet_outcome(old(ctx)@, name@, derived_view(derived), unix_timestamp as int),
            result,
            final(ctx)@,
        ),
        result is Err ==> *final(ctx) == *old(ctx),
        final(ctx)@.total_lamports() == old(ctx)@.total_lamports(),
        old(ctx).universe@.data.well_formed() ==> final(ctx).universe@.data.well_formed(),
{
    if !ctx.creator.is_manager() {
        return Err(ErrorCode::AuthorizationFailure);
    }
    if !ctx.universe.is_active() {
        return Err(ErrorCode::AccountNotFound);
    }
    if !ctx.planet.is_vacant() || contains_name(&ctx.universe.data.p, &name) {
        return Err(ErrorCode::DuplicateRegistration);
    }
    match derived {
        None => Err(ErrorCode::AddressDerivation),
        Some((pda, bump)) => {
            ctx.planet.data = Planet {
                name: name.clone(),
                pda,
                created: unix_timestamp,
                bump,
                visits: 0,
            };
            ctx.planet.lifecycle = Lifecycle::Active;
            ctx.universe.data.p.push(name);
            assert(ctx.universe.data@.p =~= old(ctx).universe.data@.p.push(name@));
            Ok(())
        },
    }
}

/// Creates the planet `name` of the program `program_id` at the time `unix_timestamp`.
/// Only the operator may do so, and a name is created once.
pub fn create_planet(
    ctx: &mut CreatePlanet,
    name: String,
    program_id: &Address,
    unix_timestamp: i64,
) -> (result: Result<(), ErrorCode>)
    ensures
        applied(
            create_planet_outcome(
                old(ctx)@,
                name@,
                planet_program_address(name@, program_id@),
                unix_timestamp as int,
            ),
            result,
            final(ctx)@,
        ),
        result is Err ==> *final(ctx) == *old(ctx),
        final(ctx)@.total_lamports() == old(ctx)@.total_lamports(),
        old(ctx).universe@.data.well_formed() ==> final(ctx).universe@.data.well_formed(),
{
    let derived = match find_planet_address(&name, program_id) {
        Some((_, bump)) => Some((get_planet_program_address(&name, program_id), bump)),
        None => None,
    };
    create_planet_at(ctx, name, derived, unix_timestamp)
}

/// What deleting a planet does to the accounts `pre`.
///
/// It is rejected with `AuthorizationFailure` where the caller is not the operator; else
/// with `AccountNotFound` where there is no planet or no universe; else with
/// `NonEmptyOnDeletion` where the planet holds more than [`PLANET_MIN_LAMPORTS`]; else
/// with `ArithmeticOverflow` where the caller's balance cannot take what the planet
/// holds. Else the planet's name leaves the list, the caller gets the planet's lamports,
/// and the planet's account is closed.
pub open spec fn delete_planet_outcome(pre: DeletePlanetView) -> Result<DeletePlanetView, ErrorCode> {
    if !pre.creator.is_manager() {
        Err(ErrorCode::AuthorizationFailure)
    } else if !pre.planet.is_active() || !pre.universe.is_active() {
        Err(ErrorCode::AccountNotFound)
    } else if pre.planet.lamports > PLANET_MIN_LAMPORTS {
        Err(ErrorCode::NonEmptyOnDeletion)
    } else if pre.creator.lamports + pre.planet.lamports > u64::MAX {
        Err(ErrorCode::ArithmeticOverflow)
    } else {
        Ok(
            DeletePlanetView {
                planet: closed_planet(),
                universe: AccountView {
                    data: UniverseView {
                        p: without(pre.universe.data.p, pre.planet.data.name),
                        ..pre.universe.data
                    },
                    ..pre.universe
                },
                creator: pre.creator.credited(pre.planet.lamports),
            },
        )
    }
}

/// Deletes a planet that holds no more than [`PLANET_MIN_LAMPORTS`]. Only the operator
/// may do so.
pub fn delete_planet(ctx: &mut DeletePlanet) -> (result: Result<(), ErrorCode>)
    ensures
        applied(delete_planet_outcome(old(ctx)@), result, final(ctx)@),
        result is Err ==> *final(ctx) == *old(ctx),
        final(ctx)@.total_lamports() == old(ctx)@.total_lamports(),
        old(ctx).universe@.data.well_formed() ==> final(ctx).universe@.data.well_formed(),
{
    if !ctx.creator.is_manager() {
        return Err(ErrorCode::AuthorizationFailure);
    }
    if !ctx.planet.is_active() || !ctx.universe.is_active() {
        return Err(ErrorCode::AccountNotFound);
    }
    if ctx.planet.lamports > PLANET_MIN_LAMPORTS {
        return Err(ErrorCode::NonEmptyOnDeletion);
    }
    if !ctx.creator.has_room_for(ctx.planet.lamports) {
        return Err(ErrorCode::ArithmeticOverflow);
    }
    proof {
        lemma_without(ctx.universe.data@.p, ctx.planet.data@.name);
    }
    ctx.universe.data.p = without_name(&ctx.universe.data.p, &ctx.planet.data.name);
    ctx.creator.credit(ctx.planet.lamports);
    ctx.planet.lamports = 0;
    ctx.planet.data = Planet::blank();
    ctx.planet.lifecycle = Lifecycle::Closed;
    Ok(())
}

/// What [`without`] keeps: every name but `name`, and each as often as before, so that a
/// list without repetition stays one.
pub proof fn lemma_without(names: Seq<Seq<char>>, name: Seq<char>)
    ensures
        !without(names, name).contains(name),
        forall|other: Seq<char>|
            other != name ==> (#[trigger] without(names, name).contains(other) <==> names.contains(
                other,
            )),
        names.no_duplicates() ==> without(names, name).no_duplicates(),
        without(names, name).len() <= names.len(),
        !names.contains(name) ==> without(names, name) == names,
    decreases names.len(),
{
    reveal(Seq::filter);
    if names.len() > 0 {
        let init = names.drop_last();
        let last = names.last();
        let kept = without(init, name);
        lemma_without(init, name);
        assert forall|other: Seq<char>| other != name implies (#[trigger] without(
            names,
            name,
        ).contains(other) <==> names.contains(other)) by {
            if names.contains(other) {
                let i = choose|i: int| 0 <= i < names.len() && names[i] == other;
                if i < init.len() {
                    assert(init[i] == other);
                    assert(kept.contains(other));
                }
            }
            if without(names, name).contains(other) {
                let k = choose|k: int|
                    0 <= k < without(names, name).len() && without(names, name)[k] == other;
                if k < kept.len() {
                    assert(kept.contains(other));
                }
            }
        }
        if names.no_duplicates() && last != name {
            assert(!init.contains(last));
            assert(!kept.contains(last));
        }
        if !names.contains(name) {
            assert(!init.contains(name));
            assert(last != name);
        }
    }
}

/// Creating and deleting a planet move no lamports in or out of the accounts they touch,
/// and keep the list of names free of repetition.
pub proof fn lemma_create_planet_conserves(
    pre: CreatePlanetView,
    name: Seq<char>,
    derived: Option<(Seq<u8>, u8)>,
    now: int,
)
    requires
        create_planet_outcome(pre, name, derived, now) is Ok,
    ensures
        create_planet_outcome(pre, name, derived, now)->Ok_0.total_lamports()
            == pre.total_lamports(),
        pre.universe.data.well_formed() ==> create_planet_outcome(
            pre,
            name,
            derived,
            now,
        )->Ok_0.universe.data.well_formed(),
{
}

/// See [`lemma_create_planet_conserves`]. The deleted name is no longer listed, and every
/// other name is listed as before.
pub proof fn lemma_delete_planet_conserves(pre: DeletePlanetView)
    requires
        delete_planet_outcome(pre) is Ok,
    ensures
        delete_planet_outcome(pre)->Ok_0.total_lamports() == pre.total_lamports(),
        pre.universe.data.well_formed() ==> delete_planet_outcome(
            pre,
        )->Ok_0.universe.data.well_formed(),
        !delete_planet_outcome(pre)->Ok_0.universe.data.p.contains(pre.planet.data.name),
        forall|other: Seq<char>|
            other != pre.planet.data.name ==> (#[trigger] delete_planet_outcome(
                pre,
            )->Ok_0.universe.data.p.contains(other) <==> pre.universe.data.p.contains(other)),
        delete_planet_outcome(pre)->Ok_0.planet.is_closed(),
        delete_planet_outcome(pre)->Ok_0.planet.lamports == 0,
{
    lemma_without(pre.universe.data.p, pre.planet.data.name);
}

/// A name is created once: after the planet `name` was created, creating `name` again in
/// that universe is rejected with `DuplicateRegistration`, whatever account is offered
/// for it, and so leaves the list as it is.
pub proof fn lemma_create_planet_twice(
    pre: CreatePlanetView,
    name: Seq<char>,
    derived: Option<(Seq<u8>, u8)>,
    now: int,
    again: CreatePlanetView,
    derived_again: Option<(Seq<u8>, u8)>,
    later: int,
)
    requires
        create_planet_outcome(pre, name, derived, now) is Ok,
        again.universe == create_planet_outcome(pre, name, derived, now)->Ok_0.universe,
        again.creator.is_manager(),
    ensures
        create_planet_outcome(again, name, derived_again, later) == Err::<
            CreatePlanetView,
            ErrorCode,
        >(ErrorCode::DuplicateRegistration),
{
    let listed = pre.universe.data.p.push(name);
    assert(listed[pre.universe.data.p.len() as int] == name);
}

/// A planet can be deleted when it holds no more than [`PLANET_MIN_LAMPORTS`], and not
/// with one lamport more: where the caller is the operator, the planet and the universe
/// exist and the caller's balance can take what the planet holds, deleting succeeds if
/// the planet holds [`PLANET_MIN_LAMPORTS`] or less, and is rejected with
/// `NonEmptyOnDeletion` if it holds more.
pub proof fn lemma_delete_planet_boundary(pre: DeletePlanetView)
    requires
        pre.creator.is_manager(),
        pre.planet.is_active(),
        pre.universe.is_active(),
        pre.creator.lamports + pre.planet.lamports <= u64::MAX,
    ensures
        pre.planet.lamports <= PLANET_MIN_LAMPORTS ==> delete_planet_outcome(pre) is Ok,
        pre.planet.lamports > PLANET_MIN_LAMPORTS ==> delete_planet_outcome(pre) == Err::<
            DeletePlanetView,
            ErrorCode,
        >(ErrorCode::NonEmptyOnDeletion),
{
}

} // verus!
