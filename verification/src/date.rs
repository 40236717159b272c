//! Modification times and the calendar date shown for them.

use crate::text::opt_text;
use std::fmt::Write;
use vstd::prelude::*;

verus! {

/// An instant as seconds since 1970-01-01 00:00:00 UTC, leap seconds not
/// counted, and nanoseconds past that second.
#[derive(Clone, Copy, Debug, PartialEq, Eq)]
pub struct Timestamp {
    pub secs: i64,
    pub nanos: u32,
}

/// The UTC calendar date and time of an instant as chrono writes it with a
/// strftime pattern. `None` where chrono has no date for the instant (`secs`
/// beyond the years it can represent, or `nanos` that name no moment within
/// the second) or cannot write it with the pattern.
pub uninterp spec fn utc_text(secs: int, nanos: int, pattern: Seq<char>) -> Option<Seq<char>>;

/// Calls `chrono::DateTime::from_timestamp` and, where that gives a date,
/// `DateTime::format` with the pattern, and collects what the result
/// displays.
///
/// Trusted: the outcome is the one that `utc_text` names for the same three
/// values, `None` standing for no date and for an error while displaying.
/// Nothing else is claimed of the text.
#[verifier::external_body]
fn format_utc(secs: i64, nanos: u32, pattern: &str) -> (r: Option<String>)
    ensures
        opt_text(r) == utc_text(secs as int, nanos as int, pattern@),
{
    match chrono::DateTime::from_timestamp(secs, nanos) {
        Some(date) => {
            let mut text = String::new();
            match write!(text, "{}", date.format(pattern)) {
                Ok(()) => Some(text),
                Err(_) => None,
            }
        },
        None => None,
    }
}

/// The pattern of the modified column: short weekday, short month, day of
/// the month without padding, year, with one space between each two, as in
/// `Fri Jan 5 2024`.
pub open spec fn date_pattern() -> Seq<char> {
    "%a %b %-d %Y"@
}

/// The text of the modified column for what chrono made of a timestamp: the
/// date where there is one, nothing otherwise.
pub open spec fn date_or_blank_text(formatted: Option<Seq<char>>) -> Seq<char> {
    match formatted {
        Some(text) => text,
        None => Seq::empty(),
    }
}

/// The text of the modified column for an entry's modification time: blank
/// where the filesystem reported none or the calendar has no date for it.
pub open spec fn modified_text(stamp: Option<Timestamp>) -> Seq<char> {
    match stamp {
        Some(t) => date_or_blank_text(utc_text(t.secs as int, t.nanos as int, date_pattern())),
        None => Seq::empty(),
    }
}

/// Turns a formatted date, or the lack of one, into the modified column.
pub fn date_or_blank(formatted: Option<String>) -> (r: String)
    ensures
        r@ == date_or_blank_text(opt_text(formatted)),
{
    match formatted {
        Some(text) => text,
        None => String::new(),
    }
}

/// Writes the modified column for an entry's modification time.
pub fn modified_string(stamp: Option<Timestamp>) -> (r: String)
    ensures
        r@ == modified_text(stamp),
{
    match stamp {
        Some(t) => date_or_blank(format_utc(t.secs, t.nanos, "%a %b %-d %Y")),
        None => String::new(),
    }
}

} // verus!
