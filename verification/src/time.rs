//! Points in time (UTC): when pastes, sessions and keys were created, and the
//! template filters that show them.
use vstd::prelude::*;

use crate::text::{digits, owned};

verus! {

/// A UTC instant: seconds since the Unix epoch and the nanoseconds past that
/// second (up to 1,999,999,999 during a leap second).
#[derive(Debug, Clone, Copy, PartialEq, Eq, Structural)]
pub struct Timestamp {
    pub seconds: i64,
    pub nanos: u32,
}

/// Whether `t` is an instant that a `DateTime<Utc>` can hold: its sub-second
/// part is below two seconds and `DateTime::from_timestamp` accepts it.
pub open spec fn is_instant(t: Timestamp) -> bool {
    t.nanos < 2_000_000_000 && utc_representable(t.seconds, t.nanos)
}

/// Whether `a` is at or after `b`, the order of `chrono::DateTime`.
pub open spec fn at_or_after(a: Timestamp, b: Timestamp) -> bool {
    a.seconds > b.seconds || (a.seconds == b.seconds && a.nanos >= b.nanos)
}

/// Whether `a` is at or after `b`.
pub fn is_at_or_after(a: Timestamp, b: Timestamp) -> (r: bool)
    ensures
        r == at_or_after(a, b),
{
    a.seconds > b.seconds || (a.seconds == b.seconds && a.nanos >= b.nanos)
}

/// The current instant.
///
/// Calls `chrono::Utc::now()`; since the value depends on the clock, states
/// only what holds of every `DateTime<Utc>`: the range of the sub-second part
/// that chrono documents, and that `DateTime::from_timestamp` gives it back
/// from its seconds and nanoseconds (the round trip chrono documents).
#[verifier::external_body]
pub fn now() -> (t: Timestamp)
    ensures
        t.nanos < 2_000_000_000,
        utc_representable(t.seconds, t.nanos),
{
    let dt = chrono::Utc::now();
    Timestamp { seconds: dt.timestamp(), nanos: dt.timestamp_subsec_nanos() }
}

/// What chrono's parser for `DateTime<Utc>` reads from a text, as seconds
/// and nanoseconds.
pub uninterp spec fn utc_datetime(text: Seq<char>) -> Option<(i64, u32)>;

/// Reads a date and time (RFC 3339 and the forms chrono accepts for
/// `DateTime<Utc>`).
///
/// Calls `text.parse::<chrono::DateTime<chrono::Utc>>()`; the contract names
/// its result `utc_datetime`, and states of a parsed instant what holds of
/// every `DateTime<Utc>`: the sub-second part is below two seconds, and
/// `DateTime::from_timestamp` gives it back from its seconds and nanoseconds
/// (the round trip chrono documents).
#[verifier::external_body]
pub fn parse_datetime(text: &str) -> (t: Option<Timestamp>)
    ensures
        match utc_datetime(text@) {
            Some(p) => t == Some(Timestamp { seconds: p.0, nanos: p.1 }),
            None => t is None,
        },
        t matches Some(ts) ==> ts.nanos < 2_000_000_000 && utc_representable(ts.seconds, ts.nanos),
{
    text.parse::<chrono::DateTime<chrono::Utc>>().ok().map(
        |dt| Timestamp { seconds: dt.timestamp(), nanos: dt.timestamp_subsec_nanos() },
    )
}

/// Whether `chrono::DateTime::from_timestamp(seconds, nanos)` gives an
/// instant (it gives `None` for out-of-range seconds or an invalid
/// nanosecond part).
pub uninterp spec fn utc_representable(seconds: i64, nanos: u32) -> bool;

/// A unit that chrono-humanize counts in, in the plural.
pub open spec fn humanized_unit(u: Seq<char>) -> bool {
    ||| u == "seconds"@
    ||| u == "minutes"@
    ||| u == "hours"@
    ||| u == "days"@
    ||| u == "weeks"@
    ||| u == "months"@
    ||| u == "years"@
}

/// A rough time span as chrono-humanize words it: "a minute", "an hour",
/// "a day", "a week", "a month", "a year", "eternity", or a count of at
/// least two and a unit, such as "3 days".
pub open spec fn humanized_span(p: Seq<char>) -> bool {
    ||| p == "a minute"@
    ||| p == "an hour"@
    ||| p == "a day"@
    ||| p == "a week"@
    ||| p == "a month"@
    ||| p == "a year"@
    ||| p == "eternity"@
    ||| exists|n: nat, u: Seq<char>|
        n >= 2 && humanized_unit(u) && p == digits(n) + " "@ + u
}

/// A phrase that chrono-humanize writes for an instant: "now", a span and
/// " ago", or "in " and a span.
pub open spec fn humanized_phrase(w: Seq<char>) -> bool {
    ||| w == "now"@
    ||| exists|p: Seq<char>| humanized_span(p) && (w == p + " ago"@ || w == "in "@ + p)
}

/// How long ago (or how far ahead) an instant is, in words, such as
/// "2 hours ago".
///
/// Calls `chrono::DateTime::from_timestamp` and then
/// `chrono_humanize::HumanTime::from(dt).to_string()`. The contract names
/// when the instant can be represented `utc_representable`, and states the
/// shape of every phrase that chrono-humanize's rough English text takes
/// (never empty); which phrase comes depends on the current time and is not
/// stated.
#[verifier::external_body]
pub fn humanize(t: Timestamp) -> (text: Option<String>)
    ensures
        text is Some <==> utc_representable(t.seconds, t.nanos),
        text matches Some(w) ==> w@.len() > 0 && humanized_phrase(w@),
{
    chrono::DateTime::from_timestamp(t.seconds, t.nanos).map(
        |dt| chrono_humanize::HumanTime::from(dt).to_string(),
    )
}

/// The part of a template value that the filters read.
pub enum TemplateValue {
    Text(String),
    Other,
}

/// Why a filter refused a value.
#[derive(Debug, Clone, Copy, PartialEq, Eq, Structural)]
pub enum FilterError {
    NotAString,
    BadDatetime,
}

impl FilterError {
    /// The message a template shows for the refusal.
    pub fn message(&self) -> (m: String)
        ensures
            m@ == match self {
                FilterError::NotAString => "Not a string."@,
                FilterError::BadDatetime => "Couldn't parse datetime string."@,
            },
    {
        proof {
            reveal_strlit("Not a string.");
            reveal_strlit("Couldn't parse datetime string.");
        }
        match self {
            FilterError::NotAString => owned("Not a string."),
            FilterError::BadDatetime => owned("Couldn't parse datetime string."),
        }
    }
}

/// The `timestamp` filter: the Unix time, in seconds, of a date text.
pub fn timestamp_filter(value: &TemplateValue) -> (r: Result<i64, FilterError>)
    ensures
        match value {
            TemplateValue::Text(t) => match utc_datetime(t@) {
                Some(p) => r == Ok::<i64, FilterError>(p.0),
                None => r == Err::<i64, FilterError>(FilterError::BadDatetime),
            },
            TemplateValue::Other => r == Err::<i64, FilterError>(FilterError::NotAString),
        },
{
    match value {
        TemplateValue::Text(text) => match parse_datetime(text.as_str()) {
            Some(t) => Ok(t.seconds),
            None => Err(FilterError::BadDatetime),
        },
        TemplateValue::Other => Err(FilterError::NotAString),
    }
}

/// The `humanize` filter: a date text as a relative time in words.
///
/// Which words come depends on the current time and is not stated; a text
/// that parses always gets some.
pub fn humanize_filter(value: &TemplateValue) -> (r: Result<String, FilterError>)
    ensures
        match value {
            TemplateValue::Text(t) => match utc_datetime(t@) {
                Some(_) => r matches Ok(w) && w@.len() > 0 && humanized_phrase(w@),
                None => r == Err::<String, FilterError>(FilterError::BadDatetime),
            },
            TemplateValue::Other => r == Err::<String, FilterError>(FilterError::NotAString),
        },
{
    match value {
        TemplateValue::Text(text) => match parse_datetime(text.as_str()) {
            Some(t) => match humanize(t) {
                Some(words) => Ok(words),
                None => Err(FilterError::BadDatetime),
            },
            None => Err(FilterError::BadDatetime),
        },
        TemplateValue::Other => Err(FilterError::NotAString),
    }
}

} // verus!
