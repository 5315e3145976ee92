//! The split of a deposit over two or three stars, by a percentage taken from the
//! ledger's clock.

use vstd::prelude::*;
use crate::variables::{MAX_SPLIT_PERCENT, MIN_SPLIT_PERCENT};

verus! {

/// The last two decimal digits of a timestamp, read as a number.
pub open spec fn last_two_digits(unix_timestamp: int) -> nat {
    if unix_timestamp < 0 {
        ((-unix_timestamp) % 100) as nat
    } else {
        (unix_timestamp % 100) as nat
    }
}

/// `raw`, moved into the range from 10 to 90 where it lies outside.
pub open spec fn clamp_percent(raw: nat) -> nat {
    if raw < MIN_SPLIT_PERCENT {
        MIN_SPLIT_PERCENT as nat
    } else if raw > MAX_SPLIT_PERCENT {
        MAX_SPLIT_PERCENT as nat
    } else {
        raw
    }
}

/// The percentage by which a deposit is split at the time `unix_timestamp`.
pub open spec fn percent_at(unix_timestamp: int) -> nat {
    clamp_percent(last_two_digits(unix_timestamp))
}

/// The percentage by which a deposit is split at the time `unix_timestamp`: the last two
/// digits of the timestamp, but no less than 10 and no more than 90.
///
/// The clock is all that the percentage depends on: who knows the time of a split knows
/// its shares. The split hides a path from a casual reader of the ledger, not from one
/// who watches the clock.
pub fn get_random_percent(unix_timestamp: i64) -> (percent: u64)
    ensures
        percent == percent_at(unix_timestamp as int),
        10 <= percent <= 90,
{
    let digits: i64 = unix_timestamp % 100;
    let raw: u64 = if digits < 0 {
        (-digits) as u64
    } else {
        digits as u64
    };
    if raw < MIN_SPLIT_PERCENT {
        MIN_SPLIT_PERCENT
    } else if raw > MAX_SPLIT_PERCENT {
        MAX_SPLIT_PERCENT
    } else {
        raw
    }
}

/// The percentage of a split lies between 10 and 90, whatever the time. The last two
/// digits are kept where they lie in that range.
pub proof fn lemma_percent_within(unix_timestamp: int)
    ensures
        10 <= percent_at(unix_timestamp) <= 90,
        10 <= last_two_digits(unix_timestamp) <= 90 ==> percent_at(unix_timestamp)
            == last_two_digits(unix_timestamp),
        last_two_digits(unix_timestamp) < 10 ==> percent_at(unix_timestamp) == 10,
        last_two_digits(unix_timestamp) > 90 ==> percent_at(unix_timestamp) == 90,
{
}

/// The part of `amount` that `percent` hundredths of it come to, rounded down.
pub open spec fn share_of(amount: nat, percent: nat) -> nat {
    amount * percent / 100
}

/// The two shares of `deposit`: `percent` hundredths of it, rounded down, and the rest.
pub open spec fn split_two_of(deposit: nat, percent: nat) -> (nat, nat) {
    let one = share_of(deposit, percent);
    (one, (deposit - one) as nat)
}

/// The second percentage of a three-way split: what the first leaves of a hundred.
pub open spec fn second_percent(percent: nat) -> nat {
    (100 - percent) as nat
}

/// The two sides into which a three-way split first parts `deposit`.
pub open spec fn sides_of(deposit: nat, percent: nat) -> (nat, nat) {
    split_two_of(deposit, percent)
}

/// The three shares of `deposit`. The deposit is parted in two sides as in
/// [`split_two_of`]. The side that is strictly larger is parted again, by
/// [`second_percent`], into the share of the star on its own side and that of the third
/// star; the other side goes whole to its star. Where the sides are equal the second
/// side is the one parted.
pub open spec fn split_three_of(deposit: nat, percent: nat) -> (nat, nat, nat) {
    let (side_one, side_two) = sides_of(deposit, percent);
    if side_one > side_two {
        let (one, three) = split_two_of(side_one, second_percent(percent));
        (one, side_two, three)
    } else {
        let (two, three) = split_two_of(side_two, second_percent(percent));
        (side_one, two, three)
    }
}

/// A share never exceeds the amount it is taken from.
pub proof fn lemma_share_within(amount: nat, percent: nat)
    requires
        percent <= 100,
    ensures
        share_of(amount, percent) <= amount,
{
    assert(amount * percent <= amount * 100) by (nonlinear_arith)
        requires
            percent <= 100,
    ;
}

/// The two shares of a split add up to the deposit, whatever the deposit and the
/// percentage.
pub proof fn lemma_split_two_exact(deposit: nat, percent: nat)
    requires
        percent <= 100,
    ensures
        split_two_of(deposit, percent).0 + split_two_of(deposit, percent).1 == deposit,
        split_two_of(deposit, percent).0 <= deposit,
        split_two_of(deposit, percent).1 <= deposit,
{
    lemma_share_within(deposit, percent);
}

/// The three shares of a split add up to the deposit, and the two shares taken from the
/// larger side add up to that side.
pub proof fn lemma_split_three_exact(deposit: nat, percent: nat)
    requires
        percent <= 100,
    ensures
        split_three_of(deposit, percent).0 + split_three_of(deposit, percent).1 + split_three_of(
            deposit,
            percent,
        ).2 == deposit,
        sides_of(deposit, percent).0 > sides_of(deposit, percent).1 ==> {
            &&& split_three_of(deposit, percent).0 + split_three_of(deposit, percent).2
                == sides_of(deposit, percent).0
            &&& split_three_of(deposit, percent).1 == sides_of(deposit, percent).1
        },
        sides_of(deposit, percent).0 <= sides_of(deposit, percent).1 ==> {
            &&& split_three_of(deposit, percent).1 + split_three_of(deposit, percent).2
                == sides_of(deposit, percent).1
            &&& split_three_of(deposit, percent).0 == sides_of(deposit, percent).0
        },
{
    lemma_split_two_exact(deposit, percent);
    let (side_one, side_two) = sides_of(deposit, percent);
    lemma_split_two_exact(side_one, second_percent(percent));
    lemma_split_two_exact(side_two, second_percent(percent));
}

/// `percent` hundredths of `amount`, rounded down.
pub fn share(amount: u64, percent: u64) -> (part: u64)
    requires
        percent <= 100,
    ensures
        part == share_of(amount as nat, percent as nat),
        part <= amount,
{
    proof {
        lemma_share_within(amount as nat, percent as nat);
    }
    let product: u128 = (amount as u128) * (percent as u128);
    (product / 100) as u64
}

/// Parts `deposit` in two: `percent` hundredths of it, rounded down, and the rest. The two
/// shares add up to `deposit`.
pub fn split_two(deposit: u64, percent: u64) -> (shares: (u64, u64))
    requires
        percent <= 100,
    ensures
        (shares.0 as nat, shares.1 as nat) == split_two_of(deposit as nat, percent as nat),
        shares.0 + shares.1 == deposit,
{
    let one: u64 = share(deposit, percent);
    (one, deposit - one)
}

/// Parts `deposit` in three, as [`split_three_of`] says. The three shares add up to
/// `deposit`.
pub fn split_three(deposit: u64, percent: u64) -> (shares: (u64, u64, u64))
    requires
        percent <= 100,
    ensures
        (shares.0 as nat, shares.1 as nat, shares.2 as nat) == split_three_of(
            deposit as nat,
            percent as nat,
        ),
        shares.0 + shares.1 + shares.2 == deposit,
{
    let (side_one, side_two) = split_two(deposit, percent);
    let second: u64 = 100 - percent;
    if side_one > side_two {
        let (one, three) = split_two(side_one, second);
        (one, side_two, three)
    } else {
        let (two, three) = split_two(side_two, second);
        (side_one, two, three)
    }
}

} // verus!
