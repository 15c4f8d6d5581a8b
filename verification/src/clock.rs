//! The wall clock, as the engine stamps its frames with it.

use vstd::prelude::*;

verus! {

/// Milliseconds since the Unix epoch of a moment given in whole seconds and
/// nanoseconds of the running second. A moment before the epoch counts as 0,
/// one too late for 64 bits as the largest value.
pub open spec fn millis_of(seconds: i64, nanos: i32) -> u64 {
    if seconds < 0 || nanos < 0 {
        0
    } else if seconds * 1000 + nanos / 1_000_000 > u64::MAX {
        u64::MAX
    } else {
        (seconds * 1000 + nanos / 1_000_000) as u64
    }
}

/// Reads the system clock with `std::time::SystemTime::now` and converts the
/// moment with `prost_types::Timestamp::from`. Hands out the seconds since
/// the Unix epoch and the nanoseconds of the running second. Only the range
/// of the nanoseconds is claimed.
#[verifier::external_body]
fn wall_clock() -> (moment: (i64, i32))
    ensures
        0 <= moment.1 < 1_000_000_000,
{
    let stamp = prost_types::Timestamp::from(std::time::SystemTime::now());
    (stamp.seconds, stamp.nanos)
}

/// Milliseconds since the Unix epoch of a moment.
pub fn to_millis(seconds: i64, nanos: i32) -> (millis: u64)
    ensures
        millis == millis_of(seconds, nanos),
{
    if seconds < 0 || nanos < 0 {
        return 0;
    }
    let whole: u64 = seconds as u64;
    let part: u64 = (nanos / 1_000_000) as u64;
    match whole.checked_mul(1000) {
        Some(ms) => match ms.checked_add(part) {
            Some(total) => total,
            None => u64::MAX,
        },
        None => u64::MAX,
    }
}

/// The present moment in milliseconds since the Unix epoch. Every call may
/// give another value.
pub fn now_millis() -> u64 {
    let (seconds, nanos) = wall_clock();
    to_millis(seconds, nanos)
}

} // verus!
