//! Points in time, as the directory stores them and as a listing shows them.

use std::fmt::Write;
use vstd::prelude::*;

verus! {

/// How a listing writes a time: day, month and two-digit year, then the time of day.
pub const TIMESTAMP_FORMAT: &'static str = "%d/%m/%y %H:%M:%S";

/// What `chrono` writes for the UTC time `micros` microseconds after the Unix epoch under
/// the format `format`; nothing where it has no such time or cannot write it so.
pub uninterp spec fn timestamp_text(micros: i64, format: Seq<char>) -> Option<Seq<char>>;

/// Calls `chrono::DateTime::from_timestamp_micros`, and on the time it gives
/// `NaiveDateTime::format`. The contract claims only that the text is the one named by
/// [`timestamp_text`]: `chrono` computes it from the two arguments alone, without a locale
/// or a time zone. `None` stands for a time outside the calendar's range and for a format
/// that cannot be written.
#[verifier::external_body]
fn format_timestamp(micros: i64, format: &str) -> (r: Option<String>)
    ensures
        match r {
            Some(text) => timestamp_text(micros, format@) == Some(text@),
            None => timestamp_text(micros, format@) is None,
        },
{
    let time = chrono::DateTime::from_timestamp_micros(micros)?;
    let mut text = String::new();
    match write!(text, "{}", time.naive_utc().format(format)) {
        Ok(()) => Some(text),
        Err(_) => None,
    }
}

/// A point in time that a listing can show, to the microsecond.
#[derive(Clone, Copy, Debug)]
pub struct Timestamp {
    micros: i64,
}

impl View for Timestamp {
    type V = i64;

    /// Microseconds since the Unix epoch, UTC.
    closed spec fn view(&self) -> i64 {
        self.micros
    }
}

impl Timestamp {
    #[verifier::type_invariant]
    spec fn shown(self) -> bool {
        timestamp_text(self.micros, TIMESTAMP_FORMAT@) is Some
    }

    /// The time `micros` microseconds after the Unix epoch, where a listing can show it.
    pub fn from_micros(micros: i64) -> (r: Option<Timestamp>)
        ensures
            r is Some == timestamp_text(micros, TIMESTAMP_FORMAT@) is Some,
            r matches Some(time) ==> time@ == micros,
    {
        match format_timestamp(micros, TIMESTAMP_FORMAT) {
            Some(_) => Some(Timestamp { micros }),
            None => None,
        }
    }

    /// Microseconds since the Unix epoch, UTC.
    pub fn micros(&self) -> (r: i64)
        ensures
            r == self@,
    {
        self.micros
    }

    /// The time as a listing shows it.
    pub fn text(&self) -> (r: String)
        ensures
            timestamp_text(self@, TIMESTAMP_FORMAT@) == Some(r@),
    {
        proof {
            use_type_invariant(self);
        }
        match format_timestamp(self.micros, TIMESTAMP_FORMAT) {
            Some(text) => text,
            None => String::new(),
        }
    }
}

} // verus!
