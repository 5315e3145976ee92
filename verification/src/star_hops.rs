//! The hops over stars: a deposit leaves a planet split over two or three stars, and a
//! later call joins the stars at another planet and closes them.

use vstd::prelude::*;
use crate::accounts_comet::{
    exploded, funded, ignited, residual, StarHopThreeEnd, StarHopThreeEndView, StarHopThreeStart,
    StarHopThreeStartView, StarHopTwoEnd, StarHopTwoEndView, StarHopTwoStart, StarHopTwoStartView,
};
use crate::accounts_planet::arrived;
use crate::errors::{applied, ErrorCode};
use crate::split::{
    get_random_percent, lemma_split_three_exact, lemma_split_two_exact, percent_at, split_three,
    split_three_of, split_two, split_two_of,
};

verus! {

/// What the start of a hop over two stars does to the accounts `pre`: `deposit` lamports
/// leave the planet at the time `now` for the stars `star_one` and `star_two`.
///
/// It is rejected with `AuthorizationFailure` where the caller is not the operator; else
/// with `AccountNotFound` where the planet does not exist; else with
/// `NonUniqueSplitTargets` where the two ids are the same; else with
/// `DuplicateRegistration` where an account offered for a star is not vacant; else with
/// `InsufficientFunds` where the planet holds less than `deposit`; else with
/// `ArithmeticOverflow` where a star's account cannot take its share. Else the planet
/// loses `deposit`, and each star is created for the caller with its share of
/// [`split_two_of`], by the percentage of [`percent_at`].
pub open spec fn star_hop_two_start_outcome(
    pre: StarHopTwoStartView,
    star_one: Seq<char>,
    star_two: Seq<char>,
    deposit: nat,
    now: int,
) -> Result<StarHopTwoStartView, ErrorCode> {
    let (one, two) = split_two_of(deposit, percent_at(now));
    if !pre.manager.is_manager() {
        Err(ErrorCode::AuthorizationFailure)
    } else if !pre.from_planet.is_active() {
        Err(ErrorCode::AccountNotFound)
    } else if star_one == star_two {
        Err(ErrorCode::NonUniqueSplitTargets)
    } else if !pre.star_one.is_vacant() || !pre.star_two.is_vacant() {
        Err(ErrorCode::DuplicateRegistration)
    } else if pre.from_planet.lamports < deposit {
        Err(ErrorCode::InsufficientFunds)
    } else if pre.star_one.lamports + one > u64::MAX || pre.star_two.lamports + two > u64::MAX {
        Err(ErrorCode::ArithmeticOverflow)
    } else {
        Ok(
            StarHopTwoStartView {
                from_planet: pre.from_planet.debited(deposit),
                star_one: ignited(pre.star_one, star_one, one, pre.manager.key),
                star_two: ignited(pre.star_two, star_two, two, pre.manager.key),
                manager: pre.manager,
            },
        )
    }
}

/// Starts a hop over two stars at the time `unix_timestamp`: `deposit` lamports leave the
/// planet, split over the new stars `star_one` and `star_two`. Only the operator may do
/// so. It is never rejected with `SplitConservationMismatch`: the shares add up.
pub fn star_hop_two_start(
    ctx: &mut StarHopTwoStart,
    star_one: String,
    star_two: String,
    deposit: u64,
    unix_timestamp: i64,
) -> (result: Result<(), ErrorCode>)
    ensures
        applied(
            star_hop_two_start_outcome(
                old(ctx)@,
                star_one@,
                star_two@,
                deposit as nat,
                unix_timestamp as int,
            ),
            result,
            final(ctx)@,
        ),
        result is Err ==> *final(ctx) == *old(ctx),
        final(ctx)@.total_lamports() == old(ctx)@.total_lamports(),
        result is Ok ==> final(ctx).star_one.data.amount + final(ctx).star_two.data.amount
            == deposit,
        result is Ok ==> funded(final(ctx).star_one@) && funded(final(ctx).star_two@),
        result != Err::<(), ErrorCode>(ErrorCode::SplitConservationMismatch),
{
    if !ctx.manager.is_manager() {
        return Err(ErrorCode::AuthorizationFailure);
    }
    if !ctx.from_planet.is_active() {
        return Err(ErrorCode::AccountNotFound);
    }
    if star_one == star_two {
        return Err(ErrorCode::NonUniqueSplitTargets);
    }
    if !ctx.star_one.is_vacant() || !ctx.star_two.is_vacant() {
        return Err(ErrorCode::DuplicateRegistration);
    }
    if ctx.from_planet.lamports < deposit {
        return Err(ErrorCode::InsufficientFunds);
    }
    let percent: u64 = get_random_percent(unix_timestamp);
    let (one, two) = split_two(deposit, percent);
    // The shares add up by construction; the guard stands before the moves all the same.
    if one + two != deposit {
        return Err(ErrorCode::SplitConservationMismatch);
    }
    if !ctx.star_one.has_room_for(one) || !ctx.star_two.has_room_for(two) {
        return Err(ErrorCode::ArithmeticOverflow);
    }
    ctx.star_one.ignite(star_one, one, ctx.manager.key);
    ctx.star_two.ignite(star_two, two, ctx.manager.key);
    ctx.from_planet.debit(deposit);
    Ok(())
}

/// What the end of a hop over two stars does to the accounts `pre`, where the caller
/// states that the stars carry `deposit` lamports together.
///
/// It is rejected with `AuthorizationFailure` where the caller is not the operator; else
/// with `AccountNotFound` where the planet or one of the stars does not exist; else with
/// `AuthorizationFailure` where a star was not created by the caller; else with
/// `SplitConservationMismatch` where the stars do not carry `deposit` together; else with
/// `InsufficientFunds` where a star's account holds less than the star carries; else with
/// `ArithmeticOverflow` where the planet cannot take `deposit` or the caller cannot take
/// what is left. Else the planet gains `deposit` and counts a visit, the caller gets what
/// the stars' accounts hold beyond `deposit`, and both stars explode.
pub open spec fn star_hop_two_end_outcome(pre: StarHopTwoEndView, deposit: nat) -> Result<
    StarHopTwoEndView,
    ErrorCode,
> {
    if !pre.manager.is_manager() {
        Err(ErrorCode::AuthorizationFailure)
    } else if !pre.to_planet.is_active() || !pre.star_one.is_active() || !pre.star_two.is_active() {
        Err(ErrorCode::AccountNotFound)
    } else if pre.star_one.data.manager != pre.manager.key || pre.star_two.data.manager
        != pre.manager.key {
        Err(ErrorCode::AuthorizationFailure)
    } else if pre.star_one.data.amount + pre.star_two.data.amount != deposit {
        Err(ErrorCode::SplitConservationMismatch)
    } else if !funded(pre.star_one) || !funded(pre.star_two) {
        Err(ErrorCode::InsufficientFunds)
    } else if pre.to_planet.lamports + deposit > u64::MAX || pre.to_planet.data.visits + 1
        > u64::MAX || pre.manager.lamports + residual(pre.star_one) + residual(pre.star_two)
        > u64::MAX {
        Err(ErrorCode::ArithmeticOverflow)
    } else {
        Ok(
            StarHopTwoEndView {
                to_planet: arrived(pre.to_planet, deposit),
                star_one: exploded(),
                star_two: exploded(),
                manager: pre.manager.credited(residual(pre.star_one) + residual(pre.star_two)),
            },
        )
    }
}

/// Ends a hop over two stars: what the stars carry, `deposit` lamports together, arrives
/// at the planet, and the stars explode. Only the operator who created the stars may do
/// so.
pub fn star_hop_two_end(ctx: &mut StarHopTwoEnd, deposit: u64) -> (result: Result<(), ErrorCode>)
    ensures
        applied(star_hop_two_end_outcome(old(ctx)@, deposit as nat), result, final(ctx)@),
        result is Err ==> *final(ctx) == *old(ctx),
        final(ctx)@.total_lamports() == old(ctx)@.total_lamports(),
        result is Ok ==> final(ctx).star_one@ == exploded() && final(ctx).star_two@ == exploded(),
{
    if !ctx.manager.is_manager() {
        return Err(ErrorCode::AuthorizationFailure);
    }
    if !ctx.to_planet.is_active() || !ctx.star_one.is_active() || !ctx.star_two.is_active() {
        return Err(ErrorCode::AccountNotFound);
    }
    if !ctx.star_one.is_managed_by(&ctx.manager.key) || !ctx.star_two.is_managed_by(
        &ctx.manager.key,
    ) {
        return Err(ErrorCode::AuthorizationFailure);
    }
    let one: u64 = ctx.star_one.data.amount;
    let two: u64 = ctx.star_two.data.amount;
    if one > deposit || two != deposit - one {
        return Err(ErrorCode::SplitConservationMismatch);
    }
    if !ctx.star_one.is_funded() || !ctx.star_two.is_funded() {
        return Err(ErrorCode::InsufficientFunds);
    }
    let left_one: u64 = ctx.star_one.lamports - one;
    let left_two: u64 = ctx.star_two.lamports - two;
    if !ctx.to_planet.can_take(deposit) || !ctx.manager.has_room_for(left_one) || left_two
        > u64::MAX - ctx.manager.lamports - left_one {
        return Err(ErrorCode::ArithmeticOverflow);
    }
    ctx.to_planet.arrive(deposit);
    ctx.manager.credit(left_one);
    ctx.manager.credit(left_two);
    ctx.star_one.explode();
    ctx.star_two.explode();
    Ok(())
}

/// What the start of a hop over three stars does to the accounts `pre`: `deposit`
/// lamports leave the planet at the time `now` for the stars `star_one`, `star_two` and
/// `star_three`.
///
/// It is rejected as the start of a hop over two stars is, with `NonUniqueSplitTargets`
/// where any two of the three ids are the same. Else the planet loses `deposit`, and each
/// star is created for the caller with its share of [`split_three_of`], by the percentage
/// of [`percent_at`].
pub open spec fn star_hop_three_start_outcome(
    pre: StarHopThreeStartView,
    star_one: Seq<char>,
    star_two: Seq<char>,
    star_three: Seq<char>,
    deposit: nat,
    now: int,
) -> Result<StarHopThreeStartView, ErrorCode> {
    let (one, two, three) = split_three_of(deposit, percent_at(now));
    if !pre.manager.is_manager() {
        Err(ErrorCode::AuthorizationFailure)
    } else if !pre.from_planet.is_active() {
        Err(ErrorCode::AccountNotFound)
    } else if star_one == star_two || star_two == star_three || star_one == star_three {
        Err(ErrorCode::NonUniqueSplitTargets)
    } else if !pre.star_one.is_vacant() || !pre.star_two.is_vacant() || !pre.star_three.is_vacant() {
        Err(ErrorCode::DuplicateRegistration)
    } else if pre.from_planet.lamports < deposit {
        Err(ErrorCode::InsufficientFunds)
    } else if pre.star_one.lamports + one > u64::MAX || pre.star_two.lamports + two > u64::MAX
        || pre.star_three.lamports + three > u64::MAX {
        Err(ErrorCode::ArithmeticOverflow)
    } else {
        Ok(
            StarHopThreeStartView {
                from_planet: pre.from_planet.debited(deposit),
                star_one: ignited(pre.star_one, star_one, one, pre.manager.key),
                star_two: ignited(pre.star_two, star_two, two, pre.manager.key),
                star_three: ignited(pre.star_three, star_three, three, pre.manager.key),
                manager: pre.manager,
            },
        )
    }
}

/// Starts a hop over three stars at the time `unix_timestamp`: `deposit` lamports leave
/// the planet, split over the new stars `star_one`, `star_two` and `star_three`. Only the
/// operator may do so. It is never rejected with `SplitConservationMismatch`: the shares
/// add up.
pub fn star_hop_three_start(
    ctx: &mut StarHopThreeStart,
    star_one: String,
    star_two: String,
    star_three: String,
    deposit: u64,
    unix_timestamp: i64,
) -> (result: Result<(), ErrorCode>)
    ensures
        applied(
            star_hop_three_start_outcome(
                old(ctx)@,
                star_one@,
                star_two@,
                star_three@,
                deposit as nat,
                unix_timestamp as int,
            ),
            result,
            final(ctx)@,
        ),
        result is Err ==> *final(ctx) == *old(ctx),
        final(ctx)@.total_lamports() == old(ctx)@.total_lamports(),
        result is Ok ==> final(ctx).star_one.data.amount + final(ctx).star_two.data.amount
            + final(ctx).star_three.data.amount == deposit,
        result is Ok ==> funded(final(ctx).star_one@) && funded(final(ctx).star_two@) && funded(
            final(ctx).star_three@,
        ),
        result != Err::<(), ErrorCode>(ErrorCode::SplitConservationMismatch),
{
    if !ctx.manager.is_manager() {
        return Err(ErrorCode::AuthorizationFailure);
    }
    if !ctx.from_planet.is_active() {
        return Err(ErrorCode::AccountNotFound);
    }
    if star_one == star_two || star_two == star_three || star_one == star_three {
        return Err(ErrorCode::NonUniqueSplitTargets);
    }
    if !ctx.star_one.is_vacant() || !ctx.star_two.is_vacant() || !ctx.star_three.is_vacant() {
        return Err(ErrorCode::DuplicateRegistration);
    }
    if ctx.from_planet.lamports < deposit {
        return Err(ErrorCode::InsufficientFunds);
    }
    let percent: u64 = get_random_percent(unix_timestamp);
    let (one, two, three) = split_three(deposit, percent);
    // The shares add up by construction; the guard stands before the moves all the same.
    if one + two + three != deposit {
        return Err(ErrorCode::SplitConservationMismatch);
    }
    if !ctx.star_one.has_room_for(one) || !ctx.star_two.has_room_for(two)
        || !ctx.star_three.has_room_for(three) {
        return Err(ErrorCode::ArithmeticOverflow);
    }
    ctx.star_one.ignite(star_one, one, ctx.manager.key);
    ctx.star_two.ignite(star_two, two, ctx.manager.key);
    ctx.star_three.ignite(star_three, three, ctx.manager.key);
    ctx.from_planet.debit(deposit);
    Ok(())
}

/// What the end of a hop over three stars does to the accounts `pre`, where the caller
/// states that the stars carry `deposit` lamports together. It is the end of a hop over
/// two stars, with one star more.
pub open spec fn star_hop_three_end_outcome(pre: StarHopThreeEndView, deposit: nat) -> Result<
    StarHopThreeEndView,
    ErrorCode,
> {
    if !pre.manager.is_manager() {
        Err(ErrorCode::AuthorizationFailure)
    } else if !pre.to_planet.is_active() || !pre.star_one.is_active() || !pre.star_two.is_active()
        || !pre.star_three.is_active() {
        Err(ErrorCode::AccountNotFound)
    } else if pre.star_one.data.manager != pre.manager.key || pre.star_two.data.manager
        != pre.manager.key || pre.star_three.data.manager != pre.manager.key {
        Err(ErrorCode::AuthorizationFailure)
    } else if pre.star_one.data.amount + pre.star_two.data.amount + pre.star_three.data.amount
        != deposit {
        Err(ErrorCode::SplitConservationMismatch)
    } else if !funded(pre.star_one) || !funded(pre.star_two) || !funded(pre.star_three) {
        Err(ErrorCode::InsufficientFunds)
    } else if pre.to_planet.lamports + deposit > u64::MAX || pre.to_planet.data.visits + 1
        > u64::MAX || pre.manager.lamports + residual(pre.star_one) + residual(pre.star_two)
        + residual(pre.star_three) > u64::MAX {
        Err(ErrorCode::ArithmeticOverflow)
    } else {
        Ok(
            StarHopThreeEndView {
                to_planet: arrived(pre.to_planet, deposit),
                star_one: exploded(),
                star_two: exploded(),
                star_three: exploded(),
                manager: pre.manager.credited(
                    residual(pre.star_one) + residual(pre.star_two) + residual(pre.star_three),
                ),
            },
        )
    }
}

/// Ends a hop over three stars: what the stars carry, `deposit` lamports together,
/// arrives at the planet, and the stars explode. Only the operator who created the stars
/// may do so.
pub fn star_hop_three_end(ctx: &mut StarHopThreeEnd, deposit: u64) -> (result: Result<
    (),
    ErrorCode,
>)
    ensures
        applied(star_hop_three_end_outcome(old(ctx)@, deposit as nat), result, final(ctx)@),
        result is Err ==> *final(ctx) == *old(ctx),
        final(ctx)@.total_lamports() == old(ctx)@.total_lamports(),
        result is Ok ==> final(ctx).star_one@ == exploded() && final(ctx).star_two@ == exploded()
            && final(ctx).star_three@ == exploded(),
{
    if !ctx.manager.is_manager() {
        return Err(ErrorCode::AuthorizationFailure);
    }
    if !ctx.to_planet.is_active() || !ctx.star_one.is_active() || !ctx.star_two.is_active()
        || !ctx.star_three.is_active() {
        return Err(ErrorCode::AccountNotFound);
    }
    if !ctx.star_one.is_managed_by(&ctx.manager.key) || !ctx.star_two.is_managed_by(
        &ctx.manager.key,
    ) || !ctx.star_three.is_managed_by(&ctx.manager.key) {
        return Err(ErrorCode::AuthorizationFailure);
    }
    let one: u64 = ctx.star_one.data.amount;
    let two: u64 = ctx.star_two.data.amount;
    let three: u64 = ctx.star_three.data.amount;
    if one > deposit || two > deposit - one || three != deposit - one - two {
        return Err(ErrorCode::SplitConservationMismatch);
    }
    if !ctx.star_one.is_funded() || !ctx.star_two.is_funded() || !ctx.star_three.is_funded() {
        return Err(ErrorCode::InsufficientFunds);
    }
    let left_one: u64 = ctx.star_one.lamports - one;
    let left_two: u64 = ctx.star_two.lamports - two;
    let left_three: u64 = ctx.star_three.lamports - three;
    if !ctx.to_planet.can_take(deposit) || !ctx.manager.has_room_for(left_one) || left_two
        > u64::MAX - ctx.manager.lamports - left_one || left_three > u64::MAX
        - ctx.manager.lamports - left_one - left_two {
        return Err(ErrorCode::ArithmeticOverflow);
    }
    ctx.to_planet.arrive(deposit);
    ctx.manager.credit(left_one);
    ctx.manager.credit(left_two);
    ctx.manager.credit(left_three);
    ctx.star_one.explode();
    ctx.star_two.explode();
    ctx.star_three.explode();
    Ok(())
}

/// The start of a hop over two stars creates and destroys no lamports: what leaves the
/// planet is what the two stars carry and what their accounts gain.
pub proof fn lemma_star_hop_two_start_conserves(
    pre: StarHopTwoStartView,
    star_one: Seq<char>,
    star_two: Seq<char>,
    deposit: nat,
    now: int,
)
    requires
        star_hop_two_start_outcome(pre, star_one, star_two, deposit, now) is Ok,
    ensures
        ({
            let post = star_hop_two_start_outcome(pre, star_one, star_two, deposit, now)->Ok_0;
            &&& post.total_lamports() == pre.total_lamports()
            &&& post.from_planet.lamports + deposit == pre.from_planet.lamports
            &&& post.star_one.data.amount + post.star_two.data.amount == deposit
            &&& post.star_one.lamports == pre.star_one.lamports + post.star_one.data.amount
            &&& post.star_two.lamports == pre.star_two.lamports + post.star_two.data.amount
            &&& post.from_planet.data.visits == pre.from_planet.data.visits
        }),
{
    lemma_split_two_exact(deposit, percent_at(now));
}

/// The start of a hop over three stars creates and destroys no lamports: what leaves the
/// planet is what the three stars carry and what their accounts gain.
pub proof fn lemma_star_hop_three_start_conserves(
    pre: StarHopThreeStartView,
    star_one: Seq<char>,
    star_two: Seq<char>,
    star_three: Seq<char>,
    deposit: nat,
    now: int,
)
    requires
        star_hop_three_start_outcome(pre, star_one, star_two, star_three, deposit, now) is Ok,
    ensures
        ({
            let post = star_hop_three_start_outcome(
                pre,
                star_one,
                star_two,
                star_three,
                deposit,
                now,
            )->Ok_0;
            &&& post.total_lamports() == pre.total_lamports()
            &&& post.from_planet.lamports + deposit == pre.from_planet.lamports
            &&& post.star_one.data.amount + post.star_two.data.amount + post.star_three.data.amount
                == deposit
            &&& post.star_one.lamports == pre.star_one.lamports + post.star_one.data.amount
            &&& post.star_two.lamports == pre.star_two.lamports + post.star_two.data.amount
            &&& post.star_three.lamports == pre.star_three.lamports + post.star_three.data.amount
            &&& post.from_planet.data.visits == pre.from_planet.data.visits
        }),
{
    lemma_split_three_exact(deposit, percent_at(now));
}

/// The end of a hop over two stars creates and destroys no lamports: the planet gains
/// `deposit`, the caller gains the rest of what the stars' accounts held, and the stars
/// are left closed, with no lamports and no record.
pub proof fn lemma_star_hop_two_end_conserves(pre: StarHopTwoEndView, deposit: nat)
    requires
        star_hop_two_end_outcome(pre, deposit) is Ok,
    ensures
        ({
            let post = star_hop_two_end_outcome(pre, deposit)->Ok_0;
            &&& post.total_lamports() == pre.total_lamports()
            &&& post.to_planet.lamports == pre.to_planet.lamports + deposit
            &&& post.to_planet.data.visits == pre.to_planet.data.visits + 1
            &&& post.manager.lamports + deposit == pre.manager.lamports + pre.star_one.lamports
                + pre.star_two.lamports
            &&& post.star_one == exploded()
            &&& post.star_two == exploded()
        }),
{
}

/// The end of a hop over three stars creates and destroys no lamports: the planet gains
/// `deposit`, the caller gains the rest of what the stars' accounts held, and the stars
/// are left closed, with no lamports and no record.
pub proof fn lemma_star_hop_three_end_conserves(pre: StarHopThreeEndView, deposit: nat)
    requires
        star_hop_three_end_outcome(pre, deposit) is Ok,
    ensures
        ({
            let post = star_hop_three_end_outcome(pre, deposit)->Ok_0;
            &&& post.total_lamports() == pre.total_lamports()
            &&& post.to_planet.lamports == pre.to_planet.lamports + deposit
            &&& post.to_planet.data.visits == pre.to_planet.data.visits + 1
            &&& post.manager.lamports + deposit == pre.manager.lamports + pre.star_one.lamports
                + pre.star_two.lamports + pre.star_three.lamports
            &&& post.star_one == exploded()
            &&& post.star_two == exploded()
            &&& post.star_three == exploded()
        }),
{
}

/// A star is used once. A star's account that is not active, as every star's account is
/// after the end of its hop, cannot end a hop: the call is rejected, with
/// `AccountNotFound` where the caller is the operator. Nor can a star be created in an
/// account that is not vacant: the call is rejected, with `DuplicateRegistration`
/// where it would else have succeeded.
pub proof fn lemma_star_is_used_once(
    end_two: StarHopTwoEndView,
    end_three: StarHopThreeEndView,
    start_two: StarHopTwoStartView,
    start_three: StarHopThreeStartView,
    star_one: Seq<char>,
    star_two: Seq<char>,
    star_three: Seq<char>,
    deposit: nat,
    now: int,
)
    ensures
        exploded().is_closed() && exploded().lamports == 0 && exploded().data.amount == 0,
        !end_two.star_one.is_active() || !end_two.star_two.is_active() ==> {
            &&& star_hop_two_end_outcome(end_two, deposit) is Err
            &&& end_two.manager.is_manager() ==> star_hop_two_end_outcome(end_two, deposit) == Err::<
                StarHopTwoEndView,
                ErrorCode,
            >(ErrorCode::AccountNotFound)
        },
        !end_three.star_one.is_active() || !end_three.star_two.is_active()
            || !end_three.star_three.is_active() ==> {
            &&& star_hop_three_end_outcome(end_three, deposit) is Err
            &&& end_three.manager.is_manager() ==> star_hop_three_end_outcome(end_three, deposit)
                == Err::<StarHopThreeEndView, ErrorCode>(ErrorCode::AccountNotFound)
        },
        !start_two.star_one.is_vacant() || !start_two.star_two.is_vacant() ==> {
            &&& star_hop_two_start_outcome(start_two, star_one, star_two, deposit, now) is Err
            &&& start_two.manager.is_manager() && start_two.from_planet.is_active() && star_one
                != star_two ==> star_hop_two_start_outcome(
                start_two,
                star_one,
                star_two,
                deposit,
                now,
            ) == Err::<StarHopTwoStartView, ErrorCode>(ErrorCode::DuplicateRegistration)
        },
        !start_three.star_one.is_vacant() || !start_three.star_two.is_vacant()
            || !start_three.star_three.is_vacant() ==> {
            &&& star_hop_three_start_outcome(
                start_three,
                star_one,
                star_two,
                star_three,
                deposit,
                now,
            ) is Err
            &&& start_three.manager.is_manager() && start_three.from_planet.is_active() && star_one
                != star_two && star_two != star_three && star_one != star_three
                ==> star_hop_three_start_outcome(
                start_three,
                star_one,
                star_two,
                star_three,
                deposit,
                now,
            ) == Err::<StarHopThreeStartView, ErrorCode>(ErrorCode::DuplicateRegistration)
        },
{
}

/// What the start of a hop over two stars sends out, its end brings in: the stars that
/// the start created end their hop at any planet that exists and can take the deposit,
/// for the same caller and the same deposit, where the caller's balance can take what the
/// stars' accounts held before. The planet then gains exactly the deposit.
pub proof fn lemma_star_hop_two_arrives(
    pre: StarHopTwoStartView,
    star_one: Seq<char>,
    star_two: Seq<char>,
    deposit: nat,
    now: int,
    end: StarHopTwoEndView,
)
    requires
        star_hop_two_start_outcome(pre, star_one, star_two, deposit, now) is Ok,
        end.star_one == star_hop_two_start_outcome(pre, star_one, star_two, deposit, now)->Ok_0.star_one,
        end.star_two == star_hop_two_start_outcome(pre, star_one, star_two, deposit, now)->Ok_0.star_two,
        end.manager.key == pre.manager.key,
        end.to_planet.is_active(),
        end.to_planet.lamports + deposit <= u64::MAX,
        end.to_planet.data.visits + 1 <= u64::MAX,
        end.manager.lamports + pre.star_one.lamports + pre.star_two.lamports <= u64::MAX,
    ensures
        star_hop_two_end_outcome(end, deposit) is Ok,
        star_hop_two_end_outcome(end, deposit)->Ok_0.to_planet.lamports == end.to_planet.lamports
            + deposit,
{
    lemma_split_two_exact(deposit, percent_at(now));
}

/// What the start of a hop over three stars sends out, its end brings in: see
/// [`lemma_star_hop_two_arrives`].
pub proof fn lemma_star_hop_three_arrives(
    pre: StarHopThreeStartView,
    star_one: Seq<char>,
    star_two: Seq<char>,
    star_three: Seq<char>,
    deposit: nat,
    now: int,
    end: StarHopThreeEndView,
)
    requires
        star_hop_three_start_outcome(pre, star_one, star_two, star_three, deposit, now) is Ok,
        end.star_one == star_hop_three_start_outcome(
            pre,
            star_one,
            star_two,
            star_three,
            deposit,
            now,
        )->Ok_0.star_one,
        end.star_two == star_hop_three_start_outcome(
            pre,
            star_one,
            star_two,
            star_three,
            deposit,
            now,
        )->Ok_0.star_two,
        end.star_three == star_hop_three_start_outcome(
            pre,
            star_one,
            star_two,
            star_three,
            deposit,
            now,
        )->Ok_0.star_three,
        end.manager.key == pre.manager.key,
        end.to_planet.is_active(),
        end.to_planet.lamports + deposit <= u64::MAX,
        end.to_planet.data.visits + 1 <= u64::MAX,
        end.manager.lamports + pre.star_one.lamports + pre.star_two.lamports
            + pre.star_three.lamports <= u64::MAX,
    ensures
        star_hop_three_end_outcome(end, deposit) is Ok,
        star_hop_three_end_outcome(end, deposit)->Ok_0.to_planet.lamports
            == end.to_planet.lamports + deposit,
{
    lemma_split_three_exact(deposit, percent_at(now));
}

} // verus!
