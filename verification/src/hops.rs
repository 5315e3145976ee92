//! The moves of a deposit that need no star: into the system, from planet to planet, and
//! out to its destination.

use vstd::prelude::*;
use crate::accounts_comet::{
    CreateComet, CreateCometView, PlanetHop, PlanetHopView, WithdrawAccounts,
    WithdrawAccountsView,
};
use crate::accounts_planet::arrived;
use crate::errors::{applied, ErrorCode};

verus! {

/// What a deposit of `deposit` lamports does to the accounts `pre`.
///
/// It is rejected with `AuthorizationFailure` where the wallet given as the treasury is
/// not the treasury; else with `AccountNotFound` where there is no universe or no planet;
/// else with `InsufficientFunds` where the depositor holds less than the deposit fee and
/// the deposit together; else with `ArithmeticOverflow` where the treasury cannot take
/// the fee, or the universe or the planet cannot take the deposit. Else the depositor pays
/// the universe's deposit fee to the treasury and the deposit to the universe, which
/// passes all of it on to the planet: the universe holds what it held before, and the
/// planet counts a visit.
pub open spec fn new_comet_outcome(pre: CreateCometView, deposit: nat) -> Result<
    CreateCometView,
    ErrorCode,
> {
    let fee = pre.universe.data.cfe;
    if !pre.treasury.is_treasury() {
        Err(ErrorCode::AuthorizationFailure)
    } else if !pre.universe.is_active() || !pre.planet.is_active() {
        Err(ErrorCode::AccountNotFound)
    } else if pre.creator.lamports < fee + deposit {
        Err(ErrorCode::InsufficientFunds)
    } else if pre.treasury.lamports + fee > u64::MAX || pre.universe.lamports + deposit > u64::MAX
        || pre.planet.lamports + deposit > u64::MAX || pre.planet.data.visits + 1 > u64::MAX {
        Err(ErrorCode::ArithmeticOverflow)
    } else {
        Ok(
            CreateCometView {
                universe: pre.universe,
                planet: arrived(pre.planet, deposit),
                treasury: pre.treasury.credited(fee),
                creator: pre.creator.debited(fee + deposit),
            },
        )
    }
}

/// Takes a deposit of `deposit_lamports` from its creator into the universe and passes
/// it on to the planet, after the deposit fee was paid to the treasury.
pub fn new_comet(ctx: &mut CreateComet, deposit_lamports: u64) -> (result: Result<(), ErrorCode>)
    ensures
        applied(new_comet_outcome(old(ctx)@, deposit_lamports as nat), result, final(ctx)@),
        result is Err ==> *final(ctx) == *old(ctx),
        final(ctx)@.total_lamports() == old(ctx)@.total_lamports(),
{
    let fee: u64 = ctx.universe.data.cfe;
    if !ctx.treasury.is_treasury() {
        return Err(ErrorCode::AuthorizationFailure);
    }
    if !ctx.universe.is_active() || !ctx.planet.is_active() {
        return Err(ErrorCode::AccountNotFound);
    }
    if fee > ctx.creator.lamports || deposit_lamports > ctx.creator.lamports - fee {
        return Err(ErrorCode::InsufficientFunds);
    }
    if !ctx.treasury.has_room_for(fee) || !ctx.universe.has_room_for(deposit_lamports)
        || !ctx.planet.can_take(deposit_lamports) {
        return Err(ErrorCode::ArithmeticOverflow);
    }
    ctx.creator.debit(fee);
    ctx.treasury.credit(fee);
    ctx.creator.debit(deposit_lamports);
    ctx.universe.credit(deposit_lamports);
    ctx.universe.debit(deposit_lamports);
    ctx.planet.arrive(deposit_lamports);
    Ok(())
}

/// What a hop of `amount` lamports from one planet to another does to the accounts `pre`.
///
/// It is rejected with `AuthorizationFailure` where the caller is not the operator; else
/// with `AccountNotFound` where one of the planets does not exist; else with
/// `SameEndpoint` where the two planets have the same name; else with `InsufficientFunds`
/// where the source holds less than `amount`; else with `ArithmeticOverflow` where the
/// destination cannot take `amount`. Else the source loses `amount`, and the destination
/// gains it and counts a visit.
pub open spec fn planet_hop_outcome(pre: PlanetHopView, amount: nat) -> Result<
    PlanetHopView,
    ErrorCode,
> {
    if !pre.manager.is_manager() {
        Err(ErrorCode::AuthorizationFailure)
    } else if !pre.to_planet.is_active() || !pre.from_planet.is_active() {
        Err(ErrorCode::AccountNotFound)
    } else if pre.from_planet.data.name == pre.to_planet.data.name {
        Err(ErrorCode::SameEndpoint)
    } else if pre.from_planet.lamports < amount {
        Err(ErrorCode::InsufficientFunds)
    } else if pre.to_planet.lamports + amount > u64::MAX || pre.to_planet.data.visits + 1
        > u64::MAX {
        Err(ErrorCode::ArithmeticOverflow)
    } else {
        Ok(
            PlanetHopView {
                to_planet: arrived(pre.to_planet, amount),
                from_planet: pre.from_planet.debited(amount),
                manager: pre.manager,
            },
        )
    }
}

/// Moves `lamports` from one planet to another. Only the operator may do so.
///
/// A hop takes no fee. The fees of a deposit stand in its record, and it is the operator
/// who settles them: what a hop moves is what the operator asks for.
pub fn planet_hop(ctx: &mut PlanetHop, lamports: u64) -> (result: Result<(), ErrorCode>)
    ensures
        applied(planet_hop_outcome(old(ctx)@, lamports as nat), result, final(ctx)@),
        result is Err ==> *final(ctx) == *old(ctx),
        final(ctx)@.total_lamports() == old(ctx)@.total_lamports(),
{
    if !ctx.manager.is_manager() {
        return Err(ErrorCode::AuthorizationFailure);
    }
    if !ctx.to_planet.is_active() || !ctx.from_planet.is_active() {
        return Err(ErrorCode::AccountNotFound);
    }
    if ctx.from_planet.data.name == ctx.to_planet.data.name {
        return Err(ErrorCode::SameEndpoint);
    }
    if ctx.from_planet.lamports < lamports {
        return Err(ErrorCode::InsufficientFunds);
    }
    if !ctx.to_planet.can_take(lamports) {
        return Err(ErrorCode::ArithmeticOverflow);
    }
    ctx.to_planet.arrive(lamports);
    ctx.from_planet.debit(lamports);
    Ok(())
}

/// What a withdrawal of `amount` lamports from a planet does to the accounts `pre`.
///
/// It is rejected with `AuthorizationFailure` where the caller is not the operator; else
/// with `AccountNotFound` where the planet does not exist; else with `InsufficientFunds`
/// unless the planet holds more than `amount`; else with `ArithmeticOverflow` where the
/// destination cannot take `amount`. Else `amount` lamports move from the planet to the
/// destination.
pub open spec fn withdraw_outcome(pre: WithdrawAccountsView, amount: nat) -> Result<
    WithdrawAccountsView,
    ErrorCode,
> {
    if !pre.manager.is_manager() {
        Err(ErrorCode::AuthorizationFailure)
    } else if !pre.from_planet.is_active() {
        Err(ErrorCode::AccountNotFound)
    } else if pre.from_planet.lamports <= amount {
        Err(ErrorCode::InsufficientFunds)
    } else if pre.destination.lamports + amount > u64::MAX {
        Err(ErrorCode::ArithmeticOverflow)
    } else {
        Ok(
            WithdrawAccountsView {
                from_planet: pre.from_planet.debited(amount),
                destination: pre.destination.credited(amount),
                manager: pre.manager,
            },
        )
    }
}

/// Moves `withdraw_lamports` from a planet to the destination. Only the operator may do
/// so, and the planet has to hold more than it gives.
pub fn withdraw(ctx: &mut WithdrawAccounts, withdraw_lamports: u64) -> (result: Result<
    (),
    ErrorCode,
>)
    ensures
        applied(withdraw_outcome(old(ctx)@, withdraw_lamports as nat), result, final(ctx)@),
        result is Err ==> *final(ctx) == *old(ctx),
        final(ctx)@.total_lamports() == old(ctx)@.total_lamports(),
{
    if !ctx.manager.is_manager() {
        return Err(ErrorCode::AuthorizationFailure);
    }
    if !ctx.from_planet.is_active() {
        return Err(ErrorCode::AccountNotFound);
    }
    if ctx.from_planet.lamports <= withdraw_lamports {
        return Err(ErrorCode::InsufficientFunds);
    }
    if !ctx.destination.has_room_for(withdraw_lamports) {
        return Err(ErrorCode::ArithmeticOverflow);
    }
    ctx.destination.credit(withdraw_lamports);
    ctx.from_planet.debit(withdraw_lamports);
    Ok(())
}

/// A deposit creates and destroys no lamports: the accounts hold together what they held
/// before. What the depositor pays, the deposit and the fee, is what the system gains; the
/// universe keeps none of it, and the planet gains the deposit.
pub proof fn lemma_new_comet_conserves(pre: CreateCometView, deposit: nat)
    requires
        new_comet_outcome(pre, deposit) is Ok,
    ensures
        new_comet_outcome(pre, deposit)->Ok_0.total_lamports() == pre.total_lamports(),
        new_comet_outcome(pre, deposit)->Ok_0.system_lamports() == pre.system_lamports()
            + pre.universe.data.cfe + deposit,
        new_comet_outcome(pre, deposit)->Ok_0.creator.lamports + pre.universe.data.cfe + deposit
            == pre.creator.lamports,
        new_comet_outcome(pre, deposit)->Ok_0.universe.lamports == pre.universe.lamports,
        new_comet_outcome(pre, deposit)->Ok_0.planet.lamports == pre.planet.lamports + deposit,
        new_comet_outcome(pre, deposit)->Ok_0.planet.data.visits == pre.planet.data.visits + 1,
{
}

/// A hop between planets creates and destroys no lamports, and no visit counter goes
/// down.
pub proof fn lemma_planet_hop_conserves(pre: PlanetHopView, amount: nat)
    requires
        planet_hop_outcome(pre, amount) is Ok,
    ensures
        planet_hop_outcome(pre, amount)->Ok_0.total_lamports() == pre.total_lamports(),
        planet_hop_outcome(pre, amount)->Ok_0.to_planet.lamports + planet_hop_outcome(
            pre,
            amount,
        )->Ok_0.from_planet.lamports == pre.to_planet.lamports + pre.from_planet.lamports,
        planet_hop_outcome(pre, amount)->Ok_0.to_planet.data.visits == pre.to_planet.data.visits
            + 1,
        planet_hop_outcome(pre, amount)->Ok_0.from_planet.data.visits
            == pre.from_planet.data.visits,
{
}

/// A withdrawal creates and destroys no lamports: what the planet gives, the destination
/// gets. The planet's record stays as it is.
pub proof fn lemma_withdraw_conserves(pre: WithdrawAccountsView, amount: nat)
    requires
        withdraw_outcome(pre, amount) is Ok,
    ensures
        withdraw_outcome(pre, amount)->Ok_0.total_lamports() == pre.total_lamports(),
        withdraw_outcome(pre, amount)->Ok_0.system_lamports() + amount == pre.system_lamports(),
        withdraw_outcome(pre, amount)->Ok_0.destination.lamports == pre.destination.lamports
            + amount,
        withdraw_outcome(pre, amount)->Ok_0.from_planet.data == pre.from_planet.data,
{
}

/// A planet gives only less than it holds: where the caller is the operator, the planet
/// exists and the destination can take the amount, a withdrawal of all that the planet
/// holds, or of more, is rejected with `InsufficientFunds`, and a withdrawal of less
/// succeeds and leaves the planet the rest.
pub proof fn lemma_withdraw_boundary(pre: WithdrawAccountsView, amount: nat)
    requires
        pre.manager.is_manager(),
        pre.from_planet.is_active(),
        pre.destination.lamports + amount <= u64::MAX,
    ensures
        pre.from_planet.lamports <= amount ==> withdraw_outcome(pre, amount) == Err::<
            WithdrawAccountsView,
            ErrorCode,
        >(ErrorCode::InsufficientFunds),
        pre.from_planet.lamports > amount ==> withdraw_outcome(pre, amount) is Ok
            && withdraw_outcome(pre, amount)->Ok_0.from_planet.lamports + amount
            == pre.from_planet.lamports,
{
}

} // verus!
