//! Human-readable rendering of an elapsed time.

use crate::decimal::{decimal, u64_to_string};
use std::time::Duration;
use vstd::prelude::*;
use vstd::string::StringExecFns;

verus! {

pub const MILLISECONDS_PER_SECOND: u64 = 1_000;

pub const SECONDS_PER_MINUTE: u64 = 60;

pub const MINUTES_PER_HOUR: u64 = 60;

pub const HOURS_PER_DAY: u64 = 24;

pub const SECONDS_PER_HOUR: u64 = 3_600;

pub const SECONDS_PER_DAY: u64 = 86_400;

/// The whole seconds that a `Duration` holds.
pub uninterp spec fn duration_seconds(duration: Duration) -> nat;

/// The part of a `Duration` below one second, in nanoseconds.
pub uninterp spec fn duration_subsec_nanos(duration: Duration) -> nat;

/// `Duration::as_secs` returns the whole seconds of the duration.
pub assume_specification[ Duration::as_secs ](duration: &Duration) -> (seconds: u64)
    ensures
        seconds == duration_seconds(*duration),
;

/// `Duration::subsec_millis` returns the fractional part of the duration in
/// whole milliseconds, which is always below one thousand.
pub assume_specification[ Duration::subsec_millis ](duration: &Duration) -> (millis: u32)
    ensures
        millis == duration_subsec_nanos(*duration) / 1_000_000,
        millis < 1_000,
;

/// `Duration::from_secs` makes a duration of that many whole seconds and no
/// fractional part.
pub assume_specification[ Duration::from_secs ](seconds: u64) -> (duration: Duration)
    ensures
        duration_seconds(duration) == seconds,
        duration_subsec_nanos(duration) == 0,
;

/// A clone of a `Duration` is the same duration.
pub assume_specification[ <Duration as Clone>::clone ](duration: &Duration) -> (copy: Duration)
    ensures
        copy == *duration,
;

/// The text for an elapsed time of `seconds` whole seconds and `millis`
/// further milliseconds.
///
/// The coarsest unit that the time reaches decides the form: milliseconds
/// below one second, seconds below one minute, minutes and seconds below one
/// hour, hours, minutes and seconds below one day, and days, hours and
/// minutes from there on. Every number is a truncated quotient or remainder.
pub open spec fn elapsed_text(seconds: nat, millis: nat) -> Seq<char> {
    let minutes = seconds / 60;
    let hours = minutes / 60;
    let days = seconds / 86_400;
    if seconds * 1_000 + millis < 1_000 {
        decimal(seconds * 1_000 + millis) + seq!['m', 's']
    } else if seconds < 60 {
        decimal(seconds) + seq!['s']
    } else if seconds < 3_600 {
        decimal(minutes) + seq!['m', ' '] + decimal(seconds % 60) + seq!['s']
    } else if seconds < 86_400 {
        decimal(hours) + seq!['h', ' '] + decimal(minutes % 60) + seq!['m', ' '] + decimal(
            seconds % 60,
        ) + seq!['s']
    } else {
        decimal(days) + seq!['d', ' '] + decimal(hours % 24) + seq!['h', ' '] + decimal(
            minutes % 60,
        ) + seq!['m']
    }
}

/// Renders an elapsed time given as whole seconds and further milliseconds.
pub fn format_elapsed(seconds: u64, millis: u32) -> (text: String)
    ensures
        text@ == elapsed_text(seconds as nat, millis as nat),
{
    proof {
        reveal_strlit("ms");
        reveal_strlit("s");
        reveal_strlit("m ");
        reveal_strlit("h ");
        reveal_strlit("d ");
        reveal_strlit("m");
    }
    let minutes: u64 = seconds / SECONDS_PER_MINUTE;
    let hours: u64 = minutes / MINUTES_PER_HOUR;
    let days: u64 = seconds / SECONDS_PER_DAY;
    if seconds == 0 && millis < 1_000 {
        let mut text = u64_to_string(millis as u64);
        text.append("ms");
        assert(text@ =~= elapsed_text(seconds as nat, millis as nat));
        return text;
    }
    if seconds < SECONDS_PER_MINUTE {
        let mut text = u64_to_string(seconds);
        text.append("s");
        assert(text@ =~= elapsed_text(seconds as nat, millis as nat));
        return text;
    }
    if seconds < SECONDS_PER_HOUR {
        let mut text = u64_to_string(minutes);
        text.append("m ");
        text.append(u64_to_string(seconds % SECONDS_PER_MINUTE).as_str());
        text.append("s");
        assert(text@ =~= elapsed_text(seconds as nat, millis as nat));
        return text;
    }
    if seconds < SECONDS_PER_DAY {
        let mut text = u64_to_string(hours);
        text.append("h ");
        text.append(u64_to_string(minutes % MINUTES_PER_HOUR).as_str());
        text.append("m ");
        text.append(u64_to_string(seconds % SECONDS_PER_MINUTE).as_str());
        text.append("s");
        assert(text@ =~= elapsed_text(seconds as nat, millis as nat));
        return text;
    }
    let mut text = u64_to_string(days);
    text.append("d ");
    text.append(u64_to_string(hours % HOURS_PER_DAY).as_str());
    text.append("h ");
    text.append(u64_to_string(minutes % MINUTES_PER_HOUR).as_str());
    text.append("m");
    assert(text@ =~= elapsed_text(seconds as nat, millis as nat));
    text
}

/// Renders the elapsed time `duration` for a reader.
pub fn duration_format(duration: &Duration) -> (text: String)
    ensures
        text@ == elapsed_text(
            duration_seconds(*duration),
            duration_subsec_nanos(*duration) / 1_000_000,
        ),
{
    format_elapsed(duration.as_secs(), duration.subsec_millis())
}

} // verus!
