//! Timestamps.

use std::time::SystemTime;
use vstd::prelude::*;

verus! {

/// A timestamp in whole nanoseconds: zero before the epoch, and reduced to 64 bits after it.
pub open spec fn timestamp(elapsed: Option<u128>) -> u64 {
    match elapsed {
        Some(nanos) => (nanos % 0x1_0000_0000_0000_0000) as u64,
        None => 0,
    }
}

/// Whether this can be the time since the epoch: 64 bits of seconds hold it.
pub open spec fn is_elapsed(elapsed: Option<u128>) -> bool {
    elapsed matches Some(nanos) ==> nanos < 0x1_0000_0000_0000_0000 * 1_000_000_000
}

/// Calls `SystemTime::elapsed` on the Unix epoch, and hands the time that has passed over in
/// nanoseconds, or `None` where the clock stands before the epoch. The answer rests on the time of
/// the call; what holds of each is that a `Duration` can hold it.
#[verifier::external_body]
fn elapsed_since_epoch() -> (elapsed: Option<u128>)
    ensures
        is_elapsed(elapsed),
{
    match SystemTime::UNIX_EPOCH.elapsed() {
        Ok(duration) => Some(duration.as_nanos()),
        Err(_) => None,
    }
}

/// Reduces the time since the epoch to a 64-bit timestamp.
pub fn timestamp_ns(elapsed: Option<u128>) -> (ns: u64)
    ensures
        ns == timestamp(elapsed),
        elapsed matches Some(nanos) ==> (nanos <= u64::MAX ==> ns == nanos),
        elapsed is None ==> ns == 0,
{
    match elapsed {
        Some(nanos) => (nanos % 0x1_0000_0000_0000_0000) as u64,
        None => 0,
    }
}

/// The current time in nanoseconds since the Unix epoch. Which time that is rests on the clock.
pub fn unix_time_ns() -> (ns: u64)
    ensures
        exists|elapsed: Option<u128>| #[trigger] is_elapsed(elapsed) && ns == timestamp(elapsed),
{
    timestamp_ns(elapsed_since_epoch())
}

/// A timestamp is the time itself while 64 bits hold it, and after that each time that they run out
/// it starts again from zero. Before the epoch it is zero.
pub proof fn timestamps_count_the_nanoseconds(nanos: u128)
    ensures
        nanos <= 0xffff_ffff_ffff_ffff ==> timestamp(Some(nanos)) == nanos,
        nanos > 0xffff_ffff_ffff_ffff ==> timestamp(Some(nanos)) == timestamp(
            Some((nanos - 0x1_0000_0000_0000_0000) as u128),
        ),
        timestamp(None) == 0,
{
}

} // verus!
