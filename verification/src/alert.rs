//! The three canonical alert texts.
//!
//! These are pure data transformations: given timestamps they produce the
//! message bodies for "cycle finished", "please unload" and "unloaded".
//! Only the rendering of a timestamp as local clock text is left to an
//! outside crate; everything around it is verified character for character.

use vstd::prelude::*;

use crate::time::{minutes_between, spec_minutes_between};
use chrono::TimeZone;

verus! {

/// The character for a single decimal digit.
pub open spec fn digit_char(d: nat) -> char {
    if d == 0 {
        '0'
    } else if d == 1 {
        '1'
    } else if d == 2 {
        '2'
    } else if d == 3 {
        '3'
    } else if d == 4 {
        '4'
    } else if d == 5 {
        '5'
    } else if d == 6 {
        '6'
    } else if d == 7 {
        '7'
    } else if d == 8 {
        '8'
    } else {
        '9'
    }
}

/// The decimal digits of `n`, most significant first.
pub open spec fn spec_digits(n: nat) -> Seq<char>
    decreases n,
{
    if n < 10 {
        seq![digit_char(n)]
    } else {
        spec_digits(n / 10).push(digit_char(n % 10))
    }
}

/// A one-character string for the decimal digit `d`.
fn digit_str(d: u64) -> (s: &'static str)
    requires
        d < 10,
    ensures
        s@ == seq![digit_char(d as nat)],
{
    proof {
        reveal_strlit("0");
        reveal_strlit("1");
        reveal_strlit("2");
        reveal_strlit("3");
        reveal_strlit("4");
        reveal_strlit("5");
        reveal_strlit("6");
        reveal_strlit("7");
        reveal_strlit("8");
        reveal_strlit("9");
    }
    let s: &'static str = if d == 0 {
        "0"
    } else if d == 1 {
        "1"
    } else if d == 2 {
        "2"
    } else if d == 3 {
        "3"
    } else if d == 4 {
        "4"
    } else if d == 5 {
        "5"
    } else if d == 6 {
        "6"
    } else if d == 7 {
        "7"
    } else if d == 8 {
        "8"
    } else {
        "9"
    };
    proof {
        assert(s@ =~= seq![digit_char(d as nat)]);
    }
    s
}

/// Appends the decimal digits of `n` to `s`.
fn push_digits(s: &mut String, n: u64)
    ensures
        final(s)@ == old(s)@ + spec_digits(n as nat),
    decreases n,
{
    let ghost before = s@;
    if n >= 10 {
        push_digits(s, n / 10);
    }
    s.append(digit_str(n % 10));
    proof {
        assert(s@ =~= before + spec_digits(n as nat));
    }
}

/// `n` rendered in decimal.
pub fn u64_to_string(n: u64) -> (s: String)
    ensures
        s@ == spec_digits(n as nat),
{
    let mut s = String::new();
    push_digits(&mut s, n);
    proof {
        assert(s@ =~= spec_digits(n as nat));
    }
    s
}

/// The body of the "cycle finished" alert, for a given start-of-cycle clock
/// text and cycle length in minutes.
pub open spec fn done_message(clock: Seq<char>, minutes: nat) -> Seq<char> {
    "@everyone Your laundry is done! It started at "@ + clock + " and ran for "@ + spec_digits(
        minutes,
    ) + " minutes."@
}

/// The body of the "please unload" reminder, for a given wait in minutes.
pub open spec fn nag_message(minutes: nat) -> Seq<char> {
    "@everyone, hey seriously, your laundry is done... its been sitting there for "@ + spec_digits(
        minutes,
    ) + " minutes"@
}

/// The body of the "unloaded" confirmation.
pub open spec fn unloaded_message() -> Seq<char> {
    "Alright boss, looks like you unloaded the laundry, back to the wall, my watch continues..."@
}

/// The "cycle finished" text for an already formatted start time and a cycle
/// length in minutes.
pub fn laundry_done_text(clock: &str, minutes: u64) -> (r: String)
    ensures
        r@ == done_message(clock@, minutes as nat),
{
    let mut s = String::from_str("@everyone Your laundry is done! It started at ");
    s.append(clock);
    s.append(" and ran for ");
    push_digits(&mut s, minutes);
    s.append(" minutes.");
    s
}

/// Relies on chrono's `TimeZone::timestamp_opt` and `DateTime::format`:
/// renders the instant `secs` seconds after the Unix epoch as clock text
/// ("%-l:%M %P", e.g. "3:05 pm") in the machine's local time zone, or an
/// empty string when `secs` is out of chrono's range. The local time zone
/// is ambient state, so nothing is assumed of the text.
#[verifier::external_body]
fn format_clock_time(secs: u64) -> String {
    match chrono::Local.timestamp_opt(secs as i64, 0).single() {
        Some(dt) => format!("{}", dt.format("%-l:%M %P")),
        None => String::new(),
    }
}

/// The "cycle finished" alert for a cycle that started at `start` and last
/// vibrated at `stop`: always a message, stating the start as local clock
/// text and the cycle length in whole minutes.
pub fn laundry_done(start: u64, stop: u64) -> (r: Option<String>)
    ensures
        r is Some,
        exists|clock: Seq<char>|
            r.unwrap()@ == done_message(clock, spec_minutes_between(start, stop) as nat),
{
    let clock = format_clock_time(start);
    let minutes = minutes_between(start, stop);
    let text = laundry_done_text(clock.as_str(), minutes);
    proof {
        assert(text@ == done_message(clock@, spec_minutes_between(start, stop) as nat));
    }
    Some(text)
}

/// The "please unload" reminder at `current_time` for a cycle whose last
/// vibration was at `stop`: a message stating the wait in whole minutes,
/// or `None` when no cycle-end time is known.
pub fn please_unload(current_time: u64, stop: &Option<u64>) -> (r: Option<String>)
    ensures
        r is Some <==> stop is Some,
        stop is Some ==> r.unwrap()@ == nag_message(
            spec_minutes_between(stop.unwrap(), current_time) as nat,
        ),
{
    match stop {
        Some(stop_time) => {
            let minutes = minutes_between(*stop_time, current_time);
            let mut s = String::from_str(
                "@everyone, hey seriously, your laundry is done... its been sitting there for ",
            );
            push_digits(&mut s, minutes);
            s.append(" minutes");
            Some(s)
        },
        None => None,
    }
}

/// The "unloaded" confirmation: always the same fixed message.
pub fn finally_unloaded() -> (r: Option<String>)
    ensures
        r is Some,
        r.unwrap()@ == unloaded_message(),
{
    Some(
        String::from_str(
            "Alright boss, looks like you unloaded the laundry, back to the wall, my watch continues...",
        ),
    )
}

} // verus!
