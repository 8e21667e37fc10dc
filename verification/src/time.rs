//! Timestamps and timing thresholds.
//!
//! A timestamp is a number of seconds (for example since the Unix epoch);
//! the state machine only ever compares timestamps and takes differences,
//! so the choice of epoch is the caller's.

use vstd::prelude::*;

verus! {

/// Minimum silence (seconds) after the last vibration before a running
/// cycle is considered finished.
pub const DEBOUNCE_GAP_SECS: u64 = 10;

/// Minimum span (seconds) between cycle start and cycle end for the
/// activity to be treated as a genuine wash cycle rather than noise.
pub const MINIMUM_CYCLE_DURATION_SECS: u64 = 600;

/// Minimum spacing (seconds) between repeated "please unload" reminders.
pub const NAG_INTERVAL_SECS: u64 = 300;

/// Seconds elapsed from `earlier` to `now`; zero when the clock ran
/// backwards (a monotonic clock is assumed but not trusted absolutely).
pub open spec fn spec_elapsed(earlier: u64, now: u64) -> u64 {
    if now >= earlier {
        (now - earlier) as u64
    } else {
        0
    }
}

/// Executable twin of [`spec_elapsed`].
pub fn elapsed_secs(earlier: u64, now: u64) -> (r: u64)
    ensures
        r == spec_elapsed(earlier, now),
{
    if now >= earlier {
        now - earlier
    } else {
        0
    }
}

/// Whole minutes elapsed from `earlier` to `now`.
pub open spec fn spec_minutes_between(earlier: u64, now: u64) -> u64 {
    spec_elapsed(earlier, now) / 60
}

/// Executable twin of [`spec_minutes_between`].
pub fn minutes_between(earlier: u64, now: u64) -> (r: u64)
    ensures
        r == spec_minutes_between(earlier, now),
{
    elapsed_secs(earlier, now) / 60
}

} // verus!
