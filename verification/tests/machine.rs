use laundry::machine::{Alert, Appliance, Decision, Event, State};

fn idle() -> State {
    State { state: Appliance::Off, start: None, stop: None, last_msg: None }
}

#[test]
fn new_starts_idle() {
    let s = State::new();
    assert_eq!(s, idle());
    assert!(s.is_wf());
}

#[test]
fn activity_from_idle_starts_cycle() {
    let mut s = State::new();
    let alert = s.handle_event(Event::Vibrated, 100_000);
    assert_eq!(alert, None);
    assert_eq!(
        s,
        State {
            state: Appliance::On,
            start: Some(100_000),
            stop: Some(100_000),
            last_msg: None,
        }
    );
    assert!(s.is_wf());
}

#[test]
fn timeout_from_idle_is_ignored() {
    let mut s = State::new();
    let alert = s.handle_event(Event::TimedOut, 100_000);
    assert_eq!(alert, None);
    assert_eq!(s, idle());
}

#[test]
fn activity_while_running_records_latest_vibration() {
    let mut s = State::new();
    s.handle_event(Event::Vibrated, 100_000);
    let alert = s.handle_event(Event::Vibrated, 100_720);
    assert_eq!(alert, None);
    assert_eq!(s.state, Appliance::On);
    assert_eq!(s.start, Some(100_000));
    assert_eq!(s.stop, Some(100_720));
}

#[test]
fn timeouts_within_debounce_keep_running() {
    let mut s = State::new();
    s.handle_event(Event::Vibrated, 100_000);
    let running = s;
    for k in 1..=10u64 {
        let alert = s.handle_event(Event::TimedOut, 100_000 + k);
        assert_eq!(alert, None);
        assert_eq!(s, running);
    }
}

#[test]
fn short_cycle_is_discarded_without_alert() {
    // A three-minute burst of vibration is below the ten-minute minimum.
    let mut s = State::new();
    assert_eq!(s.handle_event(Event::Vibrated, 100_000), None);
    assert_eq!(s.handle_event(Event::Vibrated, 100_180), None);
    // Silence for eleven seconds: past the debounce gap, below the minimum.
    let alert = s.handle_event(Event::TimedOut, 100_191);
    assert_eq!(alert, None);
    assert_eq!(s, idle());
}

#[test]
fn long_cycle_finishes_with_one_alert() {
    let mut s = State::new();
    assert_eq!(s.handle_event(Event::Vibrated, 100_000), None);
    assert_eq!(s.handle_event(Event::Vibrated, 100_720), None);
    // Timeouts every second; within the debounce gap nothing happens.
    for k in 1..=10u64 {
        assert_eq!(s.handle_event(Event::TimedOut, 100_720 + k), None);
        assert_eq!(s.state, Appliance::On);
    }
    // Eleven seconds of silence: the cycle is over and one alert is owed.
    let alert = s.handle_event(Event::TimedOut, 100_731);
    assert!(alert.is_some());
    assert_eq!(s.state, Appliance::WaitingForUnload);
    assert_eq!(s.start, Some(100_000));
    assert_eq!(s.stop, Some(100_720));
    assert_eq!(s.last_msg, Some(100_731));
}

#[test]
fn nags_respect_the_interval() {
    // Awaiting unload since 100_731, last alert sent then.
    let mut s = State {
        state: Appliance::WaitingForUnload,
        start: Some(100_000),
        stop: Some(100_720),
        last_msg: Some(100_731),
    };
    assert!(s.is_wf());
    // Four minutes later: inside the five-minute nag interval, no alert.
    let before = s;
    assert_eq!(s.handle_event(Event::TimedOut, 100_731 + 240), None);
    assert_eq!(s, before);
    // Six minutes later: past the interval, a reminder goes out.
    let alert = s.handle_event(Event::TimedOut, 100_731 + 360);
    assert!(alert.is_some());
    assert_eq!(s.last_msg, Some(100_731 + 360));
    assert_eq!(s.state, Appliance::WaitingForUnload);
}

#[test]
fn activity_while_waiting_resets_to_idle() {
    let mut s = State {
        state: Appliance::WaitingForUnload,
        start: Some(100_000),
        stop: Some(100_720),
        last_msg: Some(100_731),
    };
    let alert = s.handle_event(Event::Vibrated, 101_000);
    assert!(alert.is_some());
    assert_eq!(s, idle());
    // A later vibration opens a fresh cycle, not a continuation.
    assert_eq!(s.handle_event(Event::Vibrated, 102_000), None);
    assert_eq!(
        s,
        State {
            state: Appliance::On,
            start: Some(102_000),
            stop: Some(102_000),
            last_msg: None,
        }
    );
}

#[test]
fn poller_error_changes_nothing() {
    let mut s = State::new();
    s.handle_event(Event::Vibrated, 100_000);
    let before = s;
    let alert = s.handle_event(Event::PollerError, 100_005);
    assert_eq!(alert, None);
    assert_eq!(s, before);
}

#[test]
fn decide_is_deterministic() {
    let s = State {
        state: Appliance::On,
        start: Some(100_000),
        stop: Some(100_720),
        last_msg: None,
    };
    let d1 = s.decide(Event::TimedOut, 100_731);
    let d2 = s.decide(Event::TimedOut, 100_731);
    assert_eq!(d1, d2);
    assert_eq!(
        d1,
        Decision {
            next_state: State {
                state: Appliance::WaitingForUnload,
                start: Some(100_000),
                stop: Some(100_720),
                last_msg: Some(100_731),
            },
            alert: Some(Alert::LaundryDone { start: 100_000, stop: 100_720 }),
        }
    );
}

#[test]
fn decide_covers_every_event() {
    // Every (state, event) pair has a defined next state.
    let states = [
        idle(),
        State { state: Appliance::On, start: Some(5), stop: Some(5), last_msg: None },
        State {
            state: Appliance::WaitingForUnload,
            start: Some(5),
            stop: Some(9),
            last_msg: Some(30),
        },
    ];
    let events = [Event::Vibrated, Event::TimedOut, Event::PollerError];
    for s in states.iter() {
        for e in events.iter() {
            let d = s.decide(*e, 60);
            assert!(d.next_state.is_wf());
        }
    }
}

#[test]
fn backwards_clock_counts_as_zero_elapsed() {
    // `now` earlier than the recorded timestamps is treated as zero elapsed:
    // the cycle neither finishes nor is discarded.
    let mut s = State::new();
    s.handle_event(Event::Vibrated, 100_000);
    let before = s;
    let alert = s.handle_event(Event::TimedOut, 99_000);
    assert_eq!(alert, None);
    assert_eq!(s, before);
}

#[test]
fn is_wf_rejects_a_broken_record() {
    let s = State { state: Appliance::On, start: None, stop: None, last_msg: None };
    assert!(!s.is_wf());
    let s = State { state: Appliance::Off, start: Some(1), stop: None, last_msg: None };
    assert!(!s.is_wf());
    let s = State {
        state: Appliance::WaitingForUnload,
        start: Some(1),
        stop: Some(2),
        last_msg: None,
    };
    assert!(!s.is_wf());
}
