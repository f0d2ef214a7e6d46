//! The system clock.
//!
//! The clock is read in one place. What a reading, or the lack of one, means
//! is decided by whoever asked: a token is issued as of the reading, and a
//! token is checked only against a reading that exists.

use vstd::prelude::*;

verus! {

/// `std::time::SystemTime::now`, measured from `UNIX_EPOCH` by
/// `duration_since` and split by `Duration::as_secs` and
/// `Duration::subsec_nanos`. `None` where the clock is set before the epoch.
/// Nothing is claimed about the reading: two calls may differ in any way.
#[verifier::external_body]
pub(crate) fn system_time() -> (r: Option<(u64, u32)>) {
    std::time::SystemTime::now().duration_since(std::time::UNIX_EPOCH).ok().map(
        |d| (d.as_secs(), d.subsec_nanos()),
    )
}

/// The whole seconds of a clock reading.
pub open spec fn seconds_of(time: Option<(u64, u32)>) -> Option<u64> {
    match time {
        Some(t) => Some(t.0),
        None => None,
    }
}

/// The instant a clock reading stands for when something is issued. A clock
/// set before the epoch reads as the epoch itself, so that what is issued by
/// such a clock has long expired for everyone whose clock is right.
pub open spec fn reading(clock: Option<u64>) -> u64 {
    match clock {
        Some(secs) => secs,
        None => 0,
    }
}

/// The whole seconds of a clock reading.
pub fn seconds(time: Option<(u64, u32)>) -> (clock: Option<u64>)
    ensures
        clock == seconds_of(time),
{
    match time {
        Some(t) => Some(t.0),
        None => None,
    }
}

/// The instant a clock reading stands for when something is issued.
pub fn clock_reading(clock: Option<u64>) -> (now: u64)
    ensures
        now == reading(clock),
{
    match clock {
        Some(secs) => secs,
        None => 0,
    }
}

/// The clock's reading in seconds since the epoch, if it has one.
pub(crate) fn clock_seconds() -> (clock: Option<u64>) {
    seconds(system_time())
}

/// The instant at which something is issued now, as far as the clock can
/// tell.
pub(crate) fn now_seconds() -> (now: u64) {
    clock_reading(clock_seconds())
}

} // verus!
