//! The guarantees of the transition table, stated and proved once.
//!
//! Determinism and totality are already the contract of
//! [`State::decide`](crate::machine::State::decide): its result equals
//! [`spec_handle`] applied to `(state, record, event, now)`, so identical
//! inputs give identical outputs. The laws here state what the table does.

use vstd::prelude::*;

use crate::machine::{spec_handle, spec_idle, Alert, Appliance, Event, State};
use crate::time::{
    spec_elapsed, DEBOUNCE_GAP_SECS, MINIMUM_CYCLE_DURATION_SECS, NAG_INTERVAL_SECS,
};

verus! {

/// The state after a run of poll timeouts at the given times.
pub open spec fn run_timeouts(s: State, times: Seq<u64>) -> State
    decreases times.len(),
{
    if times.len() == 0 {
        s
    } else {
        run_timeouts(
            spec_handle(s, Event::TimedOut, times[0]).0,
            times.subrange(1, times.len() as int),
        )
    }
}

/// Every transition from a well-formed state is well-formed again: the cycle
/// record exists exactly while a cycle is open, whatever event arrives.
pub proof fn lemma_wf_preserved(s: State, event: Event, now: u64)
    requires
        s.wf(),
    ensures
        spec_handle(s, event, now).0.wf(),
{
}

/// A poll failure changes nothing: the error is surfaced to the caller, not
/// absorbed into the state, and no alert is owed.
pub proof fn lemma_poller_error_ignored(s: State, now: u64)
    ensures
        spec_handle(s, Event::PollerError, now) == (s, None::<Alert>),
{
}

/// While the debounce window of the last vibration is still open, a poll
/// timeout changes nothing: a running cycle stays running.
pub proof fn lemma_timeout_within_debounce_keeps_running(s: State, now: u64)
    requires
        s.wf(),
        s.state == Appliance::On,
        spec_elapsed(s.stop.unwrap(), now) <= DEBOUNCE_GAP_SECS,
    ensures
        spec_handle(s, Event::TimedOut, now) == (s, None::<Alert>),
{
}

/// From running, a whole run of poll timeouts that all fall within the
/// debounce window of the last vibration changes nothing, and no step of it
/// owes an alert.
pub proof fn lemma_run_within_debounce(s: State, times: Seq<u64>)
    requires
        s.wf(),
        s.state == Appliance::On,
        forall|i: int|
            0 <= i < times.len() ==> spec_elapsed(s.stop.unwrap(), #[trigger] times[i])
                <= DEBOUNCE_GAP_SECS,
    ensures
        run_timeouts(s, times) == s,
        forall|i: int|
            0 <= i < times.len() ==> spec_handle(s, Event::TimedOut, #[trigger] times[i]).1
                is None,
    decreases times.len(),
{
    if times.len() > 0 {
        lemma_timeout_within_debounce_keeps_running(s, times[0]);
        let rest = times.subrange(1, times.len() as int);
        assert forall|i: int|
            0 <= i < rest.len() implies spec_elapsed(s.stop.unwrap(), #[trigger] rest[i])
            <= DEBOUNCE_GAP_SECS by {
            assert(rest[i] == times[i + 1]);
        }
        lemma_run_within_debounce(s, rest);
    }
}

/// From idle, a vibration at `t0` opens a cycle, and any run of poll
/// timeouts that all fall within the debounce window of `t0` leaves the
/// machine running that same cycle, with no alert owed at any step.
pub proof fn lemma_activity_then_quick_timeouts_stay_running(t0: u64, times: Seq<u64>)
    requires
        forall|i: int|
            0 <= i < times.len() ==> spec_elapsed(t0, #[trigger] times[i]) <= DEBOUNCE_GAP_SECS,
    ensures
        ({
            let s1 = spec_handle(spec_idle(), Event::Vibrated, t0).0;
            s1 == (State {
                state: Appliance::On,
                start: Some(t0),
                stop: Some(t0),
                last_msg: None,
            }) && run_timeouts(s1, times) == s1 && forall|i: int|
                0 <= i < times.len() ==> spec_handle(s1, Event::TimedOut, #[trigger] times[i]).1
                    is None
        }),
{
    let s1 = spec_handle(spec_idle(), Event::Vibrated, t0).0;
    lemma_run_within_debounce(s1, times);
}

/// A running cycle shorter than the minimum duration that falls silent past
/// the debounce gap is discarded as noise: back to idle, record cleared, and
/// no alert is owed.
pub proof fn lemma_short_cycle_discarded(s: State, now: u64)
    requires
        s.wf(),
        s.state == Appliance::On,
        spec_elapsed(s.stop.unwrap(), now) > DEBOUNCE_GAP_SECS,
        spec_elapsed(s.start.unwrap(), now) <= MINIMUM_CYCLE_DURATION_SECS,
    ensures
        spec_handle(s, Event::TimedOut, now) == (spec_idle(), None::<Alert>),
{
}

/// A running cycle is silent until it finishes: an alert is owed only by the
/// step that moves the machine to awaiting unload, which needs both the
/// debounce gap and the minimum cycle duration to have passed. Together with
/// [`lemma_short_cycle_discarded`], a cycle discarded as noise never emits.
pub proof fn lemma_running_alerts_only_on_finish(s: State, event: Event, now: u64)
    requires
        s.wf(),
        s.state == Appliance::On,
    ensures
        spec_handle(s, event, now).1 is Some ==> spec_handle(s, event, now).0.state
            == Appliance::WaitingForUnload,
        spec_handle(s, event, now).1 is Some ==> spec_elapsed(s.stop.unwrap(), now)
            > DEBOUNCE_GAP_SECS && spec_elapsed(s.start.unwrap(), now)
            > MINIMUM_CYCLE_DURATION_SECS,
{
}

/// A running cycle longer than the minimum duration that falls silent past
/// the debounce gap finishes: the machine awaits unload, keeps the cycle
/// record, stamps the notification time, and owes exactly the "cycle
/// finished" alert for that cycle.
pub proof fn lemma_long_cycle_finishes(s: State, now: u64)
    requires
        s.wf(),
        s.state == Appliance::On,
        spec_elapsed(s.stop.unwrap(), now) > DEBOUNCE_GAP_SECS,
        spec_elapsed(s.start.unwrap(), now) > MINIMUM_CYCLE_DURATION_SECS,
    ensures
        spec_handle(s, Event::TimedOut, now).0 == (State {
            state: Appliance::WaitingForUnload,
            start: s.start,
            stop: s.stop,
            last_msg: Some(now),
        }),
        spec_handle(s, Event::TimedOut, now).1 == Some(
            Alert::LaundryDone { start: s.start.unwrap(), stop: s.stop.unwrap() },
        ),
{
}

/// Only the finishing step owes a "cycle finished" alert: from any
/// well-formed state, such an alert means the machine was running and the
/// step moved it to awaiting unload. A cycle therefore finishes, and
/// announces itself, at most once.
pub proof fn lemma_done_alert_only_on_finish(s: State, event: Event, now: u64)
    requires
        s.wf(),
    ensures
        (spec_handle(s, event, now).1 matches Some(Alert::LaundryDone { .. })) ==> s.state
            == Appliance::On && spec_handle(s, event, now).0.state == Appliance::WaitingForUnload,
{
}

/// While awaiting unload, a poll timeout owes a reminder exactly when more
/// than the nag interval has passed since the last alert; a reminder stamps
/// the time it went out, and otherwise nothing changes. Two reminders for
/// one cycle are therefore always more than the nag interval apart.
pub proof fn lemma_nag_cadence(s: State, now: u64)
    requires
        s.wf(),
        s.state == Appliance::WaitingForUnload,
    ensures
        spec_handle(s, Event::TimedOut, now).1 is Some <==> spec_elapsed(s.last_msg.unwrap(), now)
            > NAG_INTERVAL_SECS,
        spec_elapsed(s.last_msg.unwrap(), now) > NAG_INTERVAL_SECS ==> spec_handle(
            s,
            Event::TimedOut,
            now,
        ).0 == (State { last_msg: Some(now), ..s }),
        spec_elapsed(s.last_msg.unwrap(), now) <= NAG_INTERVAL_SECS ==> spec_handle(
            s,
            Event::TimedOut,
            now,
        ) == (s, None::<Alert>),
{
}

/// While awaiting unload, a whole run of poll timeouts that all fall within
/// the nag window of the last alert changes nothing, and no step of it owes
/// a reminder: no duplicate nags within the window.
pub proof fn lemma_no_duplicate_nags(s: State, times: Seq<u64>)
    requires
        s.wf(),
        s.state == Appliance::WaitingForUnload,
        forall|i: int|
            0 <= i < times.len() ==> spec_elapsed(s.last_msg.unwrap(), #[trigger] times[i])
                <= NAG_INTERVAL_SECS,
    ensures
        run_timeouts(s, times) == s,
        forall|i: int|
            0 <= i < times.len() ==> spec_handle(s, Event::TimedOut, #[trigger] times[i]).1
                is None,
    decreases times.len(),
{
    if times.len() > 0 {
        lemma_nag_cadence(s, times[0]);
        let rest = times.subrange(1, times.len() as int);
        assert forall|i: int|
            0 <= i < rest.len() implies spec_elapsed(s.last_msg.unwrap(), #[trigger] rest[i])
            <= NAG_INTERVAL_SECS by {
            assert(rest[i] == times[i + 1]);
        }
        lemma_no_duplicate_nags(s, rest);
    }
}

/// Any vibration while awaiting unload means the load was taken out: the
/// machine returns to idle with the record cleared and owes the "unloaded"
/// confirmation. A later vibration then opens a fresh cycle, not a
/// continuation of the old one.
pub proof fn lemma_unload_resets(s: State, now: u64, later: u64)
    requires
        s.wf(),
        s.state == Appliance::WaitingForUnload,
    ensures
        spec_handle(s, Event::Vibrated, now) == (spec_idle(), Some(Alert::FinallyUnloaded)),
        spec_handle(spec_handle(s, Event::Vibrated, now).0, Event::Vibrated, later).0 == (State {
            state: Appliance::On,
            start: Some(later),
            stop: Some(later),
            last_msg: None,
        }),
{
}

} // verus!
