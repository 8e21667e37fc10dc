//! The notification sink and its mute window.

use vstd::prelude::*;

use crate::time::{elapsed_secs, spec_elapsed};

verus! {

/// A notification sink: takes a rendered alert, if any, and delivers it
/// best-effort. Suppressing delivery during a mute window, and resetting
/// that window, is entirely the sink's business — the state machine passes
/// every alert it decides on, unconditionally.
pub trait Alerter {
    /// Delivers `msg` if it is `Some`; no delivery confirmation is owed.
    fn send(&self, msg: &Option<String>);
}

/// Width of the mute window (seconds): eight hours.
pub const SNOOZE_WINDOW_SECS: u64 = 28800;

/// Whether delivery is muted at `now`: a snooze set at `snoozed_at`
/// suppresses delivery strictly less than the snooze window after it.
pub open spec fn spec_should_snooze(snoozed_at: Option<u64>, now: u64) -> bool {
    match snoozed_at {
        Some(at) => spec_elapsed(at, now) < SNOOZE_WINDOW_SECS,
        None => false,
    }
}

/// Executable twin of [`spec_should_snooze`].
pub fn should_snooze(snoozed_at: &Option<u64>, now: u64) -> (r: bool)
    ensures
        r == spec_should_snooze(*snoozed_at, now),
{
    match snoozed_at {
        Some(at) => elapsed_secs(*at, now) < SNOOZE_WINDOW_SECS,
        None => false,
    }
}

} // verus!
