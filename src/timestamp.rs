//! A date and time as plain numbers, and how it is read from text.
use vstd::prelude::*;

use chrono::{Datelike, Timelike};

verus! {

/// A calendar date and a time of day, without a time zone.
#[derive(Clone, Copy, Debug, PartialEq, Eq, Structural)]
pub struct Timestamp {
    pub year: i32,
    /// 1 (January) to 12.
    pub month: u32,
    /// 1 to 31.
    pub day: u32,
    /// 0 to 23.
    pub hour: u32,
    /// 0 to 59.
    pub minute: u32,
    /// 0 to 59.
    pub second: u32,
}

impl Timestamp {
    /// Every component lies in its range.
    pub open spec fn is_valid(self) -> bool {
        &&& 1 <= self.month <= 12
        &&& 1 <= self.day <= 31
        &&& self.hour <= 23
        &&& self.minute <= 59
        &&& self.second <= 59
    }

    /// Year, month, day, hour, minute and second.
    pub open spec fn fields(self) -> (int, int, int, int, int, int) {
        (
            self.year as int,
            self.month as int,
            self.day as int,
            self.hour as int,
            self.minute as int,
            self.second as int,
        )
    }
}

/// The year, month, day, hour, minute and second that chrono reads from `text`
/// by the strftime `format`, or `None` where the text does not match it.
pub uninterp spec fn parsed_date_time(text: Seq<char>, format: Seq<char>) -> Option<
    (int, int, int, int, int, int),
>;

/// Relies on chrono::NaiveDateTime::parse_from_str to read `text` by `format`,
/// and on chrono's Datelike and Timelike accessors, documented to give a month
/// from 1 to 12, a day from 1 to 31, an hour from 0 to 23, and a minute and a
/// second from 0 to 59.
#[verifier::external_body]
pub(crate) fn parse_date_time(text: &str, format: &str) -> (r: Result<
    Timestamp,
    chrono::ParseError,
>)
    ensures
        match r {
            Ok(t) => parsed_date_time(text@, format@) == Some(t.fields()) && t.is_valid(),
            Err(_) => parsed_date_time(text@, format@) is None,
        },
{
    match chrono::NaiveDateTime::parse_from_str(text, format) {
        Ok(t) => Ok(Timestamp {
            year: t.year(),
            month: t.month(),
            day: t.day(),
            hour: t.hour(),
            minute: t.minute(),
            second: t.second(),
        }),
        Err(e) => Err(e),
    }
}

} // verus!
