//! Plain calendar values for task due dates.
//!
//! A due date entered in the task form is parsed from TOML date-time text and
//! then carried around as the plain values below, so that every field a task
//! stores is ordinary data the rest of the crate can reason about.

use vstd::prelude::*;

verus! {

/// A calendar date as written in the entered text: year, month and day.
#[derive(Clone, Copy, Debug, PartialEq, Eq)]
pub struct CalendarDate {
    pub year: u16,
    pub month: u8,
    pub day: u8,
}

/// A time of day as written in the entered text. Seconds and fractional
/// seconds are optional in the text, so they stay optional here.
#[derive(Clone, Copy, Debug, PartialEq, Eq)]
pub struct ClockTime {
    pub hour: u8,
    pub minute: u8,
    pub second: Option<u8>,
    pub nanosecond: Option<u32>,
}

/// A time-zone offset: UTC, or a signed number of minutes east of UTC.
#[derive(Clone, Copy, Debug, PartialEq, Eq)]
pub enum TimeOffset {
    Utc,
    Minutes(i16),
}

/// A parsed due date. TOML date-time text may carry a date, a time of day,
/// and an offset, each optionally; absent parts stay `None`.
#[derive(Clone, Copy, Debug, PartialEq, Eq)]
pub struct DueDate {
    pub date: Option<CalendarDate>,
    pub time: Option<ClockTime>,
    pub offset: Option<TimeOffset>,
}

/// The due date, if any, denoted by a piece of date text: `Some` exactly when
/// the text is well-formed TOML date-time text, and then the plain values it
/// denotes. Parsing is a function of the characters alone.
pub uninterp spec fn parsed_due_date(s: Seq<char>) -> Option<DueDate>;

/// Relies on `toml::value::Datetime::from_str`: parsing TOML date-time text
/// is deterministic, depends on the characters alone, and reports failure
/// through its `Result`. The parsed parts are moved field by field into the
/// plain values above.
#[verifier::external_body]
pub(crate) fn parse_due_date(s: &String) -> (r: Option<DueDate>)
    ensures
        r == parsed_due_date(s@),
{
    let d: toml::value::Datetime = match s.parse() { Ok(d) => d, Err(_) => return None };
    let date = d.date.map(|x| CalendarDate { year: x.year, month: x.month, day: x.day });
    let time = d.time.map(|x| ClockTime {
        hour: x.hour, minute: x.minute, second: x.second, nanosecond: x.nanosecond,
    });
    let offset = d.offset.map(|x| match x {
        toml::value::Offset::Z => TimeOffset::Utc,
        toml::value::Offset::Custom { minutes } => TimeOffset::Minutes(minutes),
    });
    Some(DueDate { date, time, offset })
}

} // verus!
