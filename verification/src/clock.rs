//! The present time, in whole seconds since the Unix epoch.

use vstd::prelude::*;

verus! {

/// Calls `chrono::Utc::now` and takes the timestamp of what it returns.
///
/// Nothing is assumed of the value: it differs from call to call. `Utc::now`
/// does not return where the system clock is set before the epoch.
#[verifier::external_body]
fn unix_seconds() -> i64 {
    chrono::Utc::now().timestamp()
}

/// The timestamp that stands for a count of seconds since the epoch: the
/// count itself where it is a machine integer, the nearest machine integer
/// where it is not.
pub open spec fn timestamp_of(seconds: int) -> int {
    if seconds < 0 {
        0
    } else if seconds <= usize::MAX {
        seconds
    } else {
        usize::MAX as int
    }
}

/// Turns a count of seconds since the epoch into a timestamp.
pub fn timestamp(seconds: i64) -> (t: usize)
    ensures
        t == timestamp_of(seconds as int),
{
    if seconds < 0 {
        0
    } else if seconds as u64 <= usize::MAX as u64 {
        seconds as usize
    } else {
        usize::MAX
    }
}

/// The present time as a timestamp. Two calls may differ.
pub fn now() -> (t: usize)
    ensures
        // The clock gives a count of seconds in 64 bits, and the result is the
        // timestamp that stands for it.
        exists|seconds: int|
            i64::MIN <= seconds <= i64::MAX && t == #[trigger] timestamp_of(seconds),
        // So no reading is past the largest count that the clock can give.
        t <= i64::MAX,
{
    let seconds = unix_seconds();
    let t = timestamp(seconds);
    assert(t == timestamp_of(seconds as int));
    t
}

} // verus!
