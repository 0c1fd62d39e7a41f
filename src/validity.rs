//! Remaining validity of a certificate, derived from the signed difference
//! between the evaluation instant and the certificate's `valid_to`.

use vstd::prelude::*;

verus! {

pub const SECONDS_PER_DAY: i64 = 86400;

/// A time difference as whole days plus leftover seconds: the seconds part
/// strictly shorter than a day, and of the same sign as the days where both
/// are non-zero.
pub open spec fn diff_well_formed(days: int, secs: int) -> bool {
    &&& -86400 < secs < 86400
    &&& days > 0 ==> secs >= 0
    &&& days < 0 ==> secs <= 0
}

/// The difference in seconds (positive: `valid_to` lies in the future).
pub open spec fn diff_seconds(days: int, secs: int) -> int {
    days * 86400 + secs
}

/// Days whose hour count still fits an `i32`.
pub open spec fn days_in_range(days: int) -> bool {
    -89478485 <= days <= 89478485
}

/// Validity facts of a certificate, all taken at one evaluation instant.
#[derive(Clone, Copy, Debug, PartialEq, Eq, Structural)]
pub struct Validity {
    /// Whole days left (negative: elapsed since expiry).
    pub days: i32,
    /// `days * 24`, without sub-day precision.
    pub hours: i32,
    /// `valid_to` lies strictly before the evaluation instant.
    pub is_expired: bool,
}

/// The validity facts for the difference `days`/`secs` from the evaluation
/// instant to `valid_to`.
pub open spec fn validity_of(days: i32, secs: i32) -> Validity {
    Validity {
        days,
        hours: (days * 24) as i32,
        is_expired: diff_seconds(days as int, secs as int) < 0,
    }
}

/// Validity derived from the difference `days`/`secs` from now to `valid_to`.
pub fn validity_from_diff(days: i32, secs: i32) -> (r: Validity)
    requires
        days_in_range(days as int),
    ensures
        r == validity_of(days, secs),
        r.hours == days * 24,
{
    let total: i64 = (days as i64) * SECONDS_PER_DAY + (secs as i64);
    Validity { days, hours: days * 24, is_expired: total < 0 }
}

/// A certificate whose `valid_to` lies at least one whole day in the past is
/// expired and has a negative day count. (Within its first day after expiry
/// the whole-day count is still zero.)
pub proof fn lemma_past_is_expired(days: i32, secs: i32)
    requires
        diff_well_formed(days as int, secs as int),
        days_in_range(days as int),
        diff_seconds(days as int, secs as int) <= -86400,
    ensures
        validity_of(days, secs).is_expired,
        validity_of(days, secs).days < 0,
{
}

/// A certificate whose `valid_to` lies at least one whole day in the future is
/// not expired and has a positive day count. (Within its last day the
/// whole-day count is already zero.)
pub proof fn lemma_future_is_valid(days: i32, secs: i32)
    requires
        diff_well_formed(days as int, secs as int),
        days_in_range(days as int),
        diff_seconds(days as int, secs as int) >= 86400,
    ensures
        !validity_of(days, secs).is_expired,
        validity_of(days, secs).days > 0,
{
}

/// The hour count is exactly twenty-four times the day count.
pub proof fn lemma_hours_are_days_times_24(days: i32, secs: i32)
    requires
        days_in_range(days as int),
    ensures
        validity_of(days, secs).hours == validity_of(days, secs).days * 24,
{
}

/// Expiry is exactly "`valid_to` lies before the evaluation instant"; an
/// expired certificate never has a positive day count, and a valid one never
/// a negative one (the whole-day count rounds toward zero).
pub proof fn lemma_expiry_follows_valid_to(days: i32, secs: i32)
    requires
        diff_well_formed(days as int, secs as int),
    ensures
        validity_of(days, secs).is_expired <==> diff_seconds(days as int, secs as int) < 0,
        validity_of(days, secs).is_expired ==> validity_of(days, secs).days <= 0,
        !validity_of(days, secs).is_expired ==> validity_of(days, secs).days >= 0,
{
}

/// The hour count has no sub-day part: it is a whole multiple of 24.
pub proof fn lemma_hours_are_whole_days(days: i32, secs: i32)
    requires
        days_in_range(days as int),
    ensures
        validity_of(days, secs).hours % 24 == 0,
{
    assert((days * 24) % 24 == 0) by (nonlinear_arith);
}

} // verus!
