//! Whole-minute time arithmetic on Unix timestamps.
//!
//! Every instant is a number of seconds since the Unix epoch, as an external
//! clock reports it. Ballot windows are gated at minute granularity: two
//! instants within the same minute are indistinguishable to the comparisons
//! below.

use radix_common::time::Instant;
use vstd::prelude::*;

verus! {

/// Seconds in one minute.
pub const SECONDS_PER_MINUTE: i64 = 60;

/// The index of the whole minute that contains second `t` (floor division,
/// also before the epoch).
pub open spec fn minute_of(t: int) -> int {
    t / 60
}

/// The first second of the minute that contains second `t`.
pub open spec fn rounded_to_minutes(t: int) -> int {
    minute_of(t) * 60
}

/// At minute precision, `now` lies strictly before `end`.
pub open spec fn strictly_before(now: int, end: int) -> bool {
    minute_of(now) < minute_of(end)
}

/// At minute precision, `now` has reached `end`.
pub open spec fn at_or_after(now: int, end: int) -> bool {
    minute_of(now) >= minute_of(end)
}

/// The instant `minutes` whole minutes after `start`, where both the offset
/// in seconds and the sum fit in an `i64`.
pub open spec fn spec_add_minutes(start: int, minutes: int) -> Option<int> {
    if i64::MIN <= minutes * 60 <= i64::MAX && i64::MIN <= start + minutes * 60 <= i64::MAX {
        Some(start + minutes * 60)
    } else {
        None
    }
}

/// The end of a window of `duration` minutes opened at `now`: the start of
/// the current minute plus the duration, where that can be represented.
pub open spec fn spec_end_time(now: int, duration: int) -> Option<int> {
    if rounded_to_minutes(now) >= i64::MIN {
        spec_add_minutes(rounded_to_minutes(now), duration)
    } else {
        None
    }
}

/// Computes the minute that contains second `t`.
pub fn minute_index(t: i64) -> (m: i64)
    ensures
        m == minute_of(t as int),
{
    let q: i64 = t / SECONDS_PER_MINUTE;
    let r: i64 = t % SECONDS_PER_MINUTE;
    if r < 0 {
        q - 1
    } else {
        q
    }
}

/// Rounds `t` down to the start of its minute. The result is `None` only
/// within the first minute above `i64::MIN`, whose start is out of range.
pub fn round_to_minutes(t: i64) -> (r: Option<i64>)
    ensures
        r matches Some(s) ==> s == rounded_to_minutes(t as int),
        r is None <==> rounded_to_minutes(t as int) < i64::MIN,
{
    let m: i64 = minute_index(t);
    m.checked_mul(SECONDS_PER_MINUTE)
}

/// Whether `now` lies strictly before `end` at minute precision.
pub fn is_strictly_before(now: i64, end: i64) -> (b: bool)
    ensures
        b == strictly_before(now as int, end as int),
{
    minute_index(now) < minute_index(end)
}

/// Whether `now` has reached `end` at minute precision.
pub fn is_at_or_after(now: i64, end: i64) -> (b: bool)
    ensures
        b == at_or_after(now as int, end as int),
{
    minute_index(now) >= minute_index(end)
}

/// Calls `radix_common::time::Instant::add_minutes` on the instant at second
/// `start`. The outside function multiplies the minutes by sixty and adds the
/// product to the instant's seconds, both with overflow checks, and yields
/// nothing when either check fails.
#[verifier::external_body]
fn instant_add_minutes(start: i64, minutes: i64) -> (end: Option<i64>)
    ensures
        end matches Some(e) ==> spec_add_minutes(start as int, minutes as int) == Some(e as int),
        end is None ==> spec_add_minutes(start as int, minutes as int) is None,
{
    match (Instant { seconds_since_unix_epoch: start }).add_minutes(minutes) {
        Some(t) => Some(t.seconds_since_unix_epoch),
        None => None,
    }
}

/// Computes the end of a window of `duration` minutes opened at `now`.
pub fn end_time(now: i64, duration: i64) -> (end: Option<i64>)
    ensures
        end matches Some(e) ==> spec_end_time(now as int, duration as int) == Some(e as int),
        end is None ==> spec_end_time(now as int, duration as int) is None,
{
    match round_to_minutes(now) {
        Some(start) => instant_add_minutes(start, duration),
        None => None,
    }
}

} // verus!
