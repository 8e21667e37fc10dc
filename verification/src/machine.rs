//! The appliance activity state machine.
//!
//! The machine consumes timestamped vibration events (or their absence, via
//! poll timeout) and decides state transitions and when an alert is owed.
//! The whole transition table is the spec function [`spec_handle`]; every
//! executable step is pinned to it.

use vstd::prelude::*;

use crate::alert::{
    done_message, finally_unloaded, laundry_done, nag_message, please_unload, unloaded_message,
};
use crate::time::{
    elapsed_secs, spec_elapsed, spec_minutes_between, DEBOUNCE_GAP_SECS,
    MINIMUM_CYCLE_DURATION_SECS, NAG_INTERVAL_SECS,
};

verus! {

/// What the appliance is believed to be doing.
#[derive(Clone, Copy, Debug, PartialEq, Eq, Structural)]
pub enum Appliance {
    /// A cycle is in progress.
    On,
    /// A cycle has finished and the load has not been taken out.
    WaitingForUnload,
    /// No active cycle.
    Off,
}

/// One observation from the vibration sensor poll.
#[derive(Clone, Copy, Debug, PartialEq, Eq, Structural)]
pub enum Event {
    /// A vibration edge fired within the poll interval.
    Vibrated,
    /// No edge within the poll interval.
    TimedOut,
    /// The poll itself failed; surfaced to the caller, never absorbed.
    PollerError,
}

/// An alert the machine decides to emit, before any rendering to text.
#[derive(Clone, Copy, Debug, PartialEq, Eq, Structural)]
pub enum Alert {
    /// A cycle finished: it started at `start` and last vibrated at `stop`.
    LaundryDone { start: u64, stop: u64 },
    /// The load is still sitting there: the cycle ended at `stop` and the
    /// reminder goes out at `now`.
    PleaseUnload { stop: u64, now: u64 },
    /// Vibration while waiting for unload: the load was taken out.
    FinallyUnloaded,
}

/// The appliance watcher: the current state and the live cycle record.
#[derive(Clone, Copy, Debug, PartialEq, Eq)]
pub struct State {
    /// What the appliance is doing.
    pub state: Appliance,
    /// When the open cycle started; `Some` exactly while a cycle is open.
    pub start: Option<u64>,
    /// The most recent vibration of the open cycle; drives the debounce.
    pub stop: Option<u64>,
    /// When the latest alert for this cycle went out; drives the nag cadence.
    pub last_msg: Option<u64>,
}

/// What one event makes the machine do.
#[derive(Clone, Copy, Debug, PartialEq, Eq)]
pub struct Decision {
    /// The machine's state after the event.
    pub next_state: State,
    /// The alert owed for the event, if any.
    pub alert: Option<Alert>,
}

/// The idle machine: no cycle open, no record.
pub open spec fn spec_idle() -> State {
    State { state: Appliance::Off, start: None, stop: None, last_msg: None }
}

impl State {
    /// Well-formedness: the cycle record is present exactly while a cycle is
    /// open, and a notification time is recorded exactly while an unload is
    /// awaited.
    pub open spec fn wf(self) -> bool {
        match self.state {
            Appliance::Off => self.start is None && self.stop is None && self.last_msg is None,
            Appliance::On => self.start is Some && self.stop is Some && self.last_msg is None,
            Appliance::WaitingForUnload => self.start is Some && self.stop is Some
                && self.last_msg is Some,
        }
    }
}

/// The transition table: from a well-formed state and one event observed at
/// `now`, the next state and the alert owed. Total and deterministic: it is
/// a function of `(state, record, event, now)` alone.
pub open spec fn spec_handle(s: State, event: Event, now: u64) -> (State, Option<Alert>) {
    match (s.state, event) {
        (Appliance::Off, Event::Vibrated) => (
            State { state: Appliance::On, start: Some(now), stop: Some(now), last_msg: None },
            None,
        ),
        (Appliance::On, Event::Vibrated) => (State { stop: Some(now), ..s }, None),
        (Appliance::On, Event::TimedOut) => {
            if spec_elapsed(s.stop.unwrap(), now) > DEBOUNCE_GAP_SECS {
                if spec_elapsed(s.start.unwrap(), now) > MINIMUM_CYCLE_DURATION_SECS {
                    (
                        State { state: Appliance::WaitingForUnload, last_msg: Some(now), ..s },
                        Some(Alert::LaundryDone { start: s.start.unwrap(), stop: s.stop.unwrap() }),
                    )
                } else {
                    // Too short to be a real load of laundry: discard as noise.
                    (spec_idle(), None)
                }
            } else {
                (s, None)
            }
        },
        (Appliance::WaitingForUnload, Event::TimedOut) => {
            if spec_elapsed(s.last_msg.unwrap(), now) > NAG_INTERVAL_SECS {
                (
                    State { last_msg: Some(now), ..s },
                    Some(Alert::PleaseUnload { stop: s.stop.unwrap(), now }),
                )
            } else {
                (s, None)
            }
        },
        (Appliance::WaitingForUnload, Event::Vibrated) => (
            spec_idle(),
            Some(Alert::FinallyUnloaded),
        ),
        _ => (s, None),
    }
}

impl State {
    /// A fresh watcher: idle, with no cycle record.
    pub fn new() -> (s: State)
        ensures
            s == spec_idle(),
            s.wf(),
    {
        State { state: Appliance::Off, start: None, stop: None, last_msg: None }
    }

    /// Whether the cycle record matches the state, decided executably.
    pub fn is_wf(&self) -> (b: bool)
        ensures
            b == self.wf(),
    {
        match self.state {
            Appliance::Off => self.start.is_none() && self.stop.is_none()
                && self.last_msg.is_none(),
            Appliance::On => self.start.is_some() && self.stop.is_some()
                && self.last_msg.is_none(),
            Appliance::WaitingForUnload => self.start.is_some() && self.stop.is_some()
                && self.last_msg.is_some(),
        }
    }

    /// Applies the transition table once, without rendering any message.
    pub fn decide(&self, event: Event, now: u64) -> (d: Decision)
        requires
            self.wf(),
        ensures
            d.next_state == spec_handle(*self, event, now).0,
            d.alert == spec_handle(*self, event, now).1,
            d.next_state.wf(),
    {
        match (self.state, event) {
            (Appliance::Off, Event::Vibrated) => Decision {
                next_state: State {
                    state: Appliance::On,
                    start: Some(now),
                    stop: Some(now),
                    last_msg: None,
                },
                alert: None,
            },
            (Appliance::On, Event::Vibrated) => Decision {
                next_state: State { stop: Some(now), ..*self },
                alert: None,
            },
            (Appliance::On, Event::TimedOut) => {
                let start = self.start.unwrap();
                let stop = self.stop.unwrap();
                if elapsed_secs(stop, now) > DEBOUNCE_GAP_SECS {
                    if elapsed_secs(start, now) > MINIMUM_CYCLE_DURATION_SECS {
                        Decision {
                            next_state: State {
                                state: Appliance::WaitingForUnload,
                                last_msg: Some(now),
                                ..*self
                            },
                            alert: Some(Alert::LaundryDone { start, stop }),
                        }
                    } else {
                        Decision { next_state: State::new(), alert: None }
                    }
                } else {
                    Decision { next_state: *self, alert: None }
                }
            },
            (Appliance::WaitingForUnload, Event::TimedOut) => {
                if elapsed_secs(self.last_msg.unwrap(), now) > NAG_INTERVAL_SECS {
                    Decision {
                        next_state: State { last_msg: Some(now), ..*self },
                        alert: Some(Alert::PleaseUnload { stop: self.stop.unwrap(), now }),
                    }
                } else {
                    Decision { next_state: *self, alert: None }
                }
            },
            (Appliance::WaitingForUnload, Event::Vibrated) => Decision {
                next_state: State::new(),
                alert: Some(Alert::FinallyUnloaded),
            },
            _ => Decision { next_state: *self, alert: None },
        }
    }

    /// Consumes one event: updates the machine per the transition table and
    /// renders the alert owed, if any, to its message text.
    pub fn handle_event(&mut self, event: Event, now: u64) -> (alert: Option<String>)
        requires
            old(self).wf(),
        ensures
            *final(self) == spec_handle(*old(self), event, now).0,
            final(self).wf(),
            (match spec_handle(*old(self), event, now).1 {
                None => alert is None,
                Some(a) => alert is Some && match a {
                    Alert::LaundryDone { start, stop } => (exists|clock: Seq<char>|
                        alert.unwrap()@ == done_message(
                            clock,
                            spec_minutes_between(start, stop) as nat,
                        )),
                    Alert::PleaseUnload { stop, now: sent } => alert.unwrap()@ == nag_message(
                        spec_minutes_between(stop, sent) as nat,
                    ),
                    Alert::FinallyUnloaded => alert.unwrap()@ == unloaded_message(),
                },
            }),
    {
        let d = self.decide(event, now);
        *self = d.next_state;
        match d.alert {
            None => None,
            Some(Alert::LaundryDone { start, stop }) => laundry_done(start, stop),
            Some(Alert::PleaseUnload { stop, now: sent }) => please_unload(sent, &Some(stop)),
            Some(Alert::FinallyUnloaded) => finally_unloaded(),
        }
    }
}

} // verus!
