//! Watches a laundry appliance through a vibration sensor's event stream and
//! decides when to announce that a cycle finished, that the load is still
//! sitting there, and that it was finally taken out.
//!
//! The heart is the appliance activity state machine in [`machine`]: it
//! consumes timestamped `Vibrated` / `TimedOut` observations, debounces the
//! intermittent vibration of a running appliance, filters short bursts of
//! noise against a minimum cycle duration, and paces repeated reminders.
//! [`alert`] renders the machine's decisions as message texts, [`time`]
//! holds the timing thresholds, [`alerter`] is the delivery boundary, and
//! [`laws`] states and proves what the transition table guarantees.

pub mod alert;
pub mod alerter;
pub mod laws;
pub mod machine;
pub mod time;
