//! Czas puts a date and time into words: `2020-01-01 01:23:45` becomes, in Polish,
//! `pierwszego stycznia dwa tysiące dwudziestego roku o pierwszej dwadzieścia trzy
//! i czterdzieści pięć sekund`.
//!
//! The [`ToLocalizedText`] trait can be implemented for other languages or formats;
//! [`Czas`] implements it in Polish.
use vstd::prelude::*;
use vstd::string::*;

pub use crate::errors::CzasError;
pub use crate::mapping::polish::{
    date_to_polish_genitive, hours_to_polish_locative, minutes_to_polish_nominative,
    month_to_polish_genitive, seconds_to_polish_nominative, year_to_polish_genetive,
};
pub use crate::timestamp::Timestamp;

use crate::errors::phrase_result;
use crate::mapping::polish::{
    day_text, hour_text, minutes_text, month_text, seconds_text, year_text,
};
use crate::timestamp::{parse_date_time, parsed_date_time};

pub mod errors;
pub mod mapping;
pub mod timestamp;

verus! {

/// Puts a date and time into words.
pub trait ToLocalizedText {
    /// The text for `timestamp`, or an error where a component is out of range.
    fn from_naive_date_time(timestamp: Timestamp) -> Result<String, CzasError>;

    /// The text for a date and time written `YYYY-MM-DD HH:MM:SS`, or an error
    /// where it cannot be read or a component is out of range.
    fn from_string(timestamp: &str) -> Result<String, CzasError>;
}

/// The format in which [`ToLocalizedText::from_string`] reads a date and time.
pub open spec fn date_time_format() -> Seq<char> {
    "%Y-%m-%d %H:%M:%S"@
}

/// The sentence made of the phrases for each component: day, month, year, "roku o"
/// and the hour; then the minute, and "i" with the seconds, each only where its
/// phrase is not empty.
pub open spec fn sentence(
    day: Seq<char>,
    month: Seq<char>,
    year: Seq<char>,
    hour: Seq<char>,
    minute: Seq<char>,
    second: Seq<char>,
) -> Seq<char> {
    let base = day + " "@ + month + " "@ + year + " roku o "@ + hour;
    let with_minute = if minute.len() == 0 {
        base
    } else {
        base + " "@ + minute
    };
    if second.len() == 0 {
        with_minute
    } else {
        with_minute + " i "@ + second
    }
}

/// The Polish sentence for a date and time, or `None` where the month, the day,
/// the minute or the second is out of range.
pub open spec fn date_time_text(
    year: int,
    month: int,
    day: int,
    hour: int,
    minute: int,
    second: int,
) -> Option<Seq<char>> {
    match (day_text(day), month_text(month), minutes_text(minute), seconds_text(second)) {
        (Some(d), Some(m), Some(mi), Some(s)) => Some(
            sentence(d, m, year_text(year), hour_text(hour), mi, s),
        ),
        _ => None,
    }
}

/// The Polish sentence for `t`.
pub open spec fn timestamp_text(t: Timestamp) -> Option<Seq<char>> {
    date_time_text(
        t.year as int,
        t.month as int,
        t.day as int,
        t.hour as int,
        t.minute as int,
        t.second as int,
    )
}

/// [`ToLocalizedText`] in Polish.
pub struct Czas {}

impl ToLocalizedText for Czas {
    /// The Polish sentence for `timestamp`; the out-of-range error where the month,
    /// the day, the minute or the second is out of range (an hour wraps modulo 24).
    fn from_naive_date_time(timestamp: Timestamp) -> (r: Result<String, CzasError>)
        ensures
            phrase_result(r, timestamp_text(timestamp)),
    {
        let second = match seconds_to_polish_nominative(timestamp.second) {
            Ok(s) => s,
            Err(e) => return Err(e),
        };
        let minute = match minutes_to_polish_nominative(timestamp.minute) {
            Ok(s) => s,
            Err(e) => return Err(e),
        };
        let hour = match hours_to_polish_locative(timestamp.hour) {
            Ok(s) => s,
            Err(e) => return Err(e),
        };
        let day = match date_to_polish_genitive(timestamp.day) {
            Ok(s) => s,
            Err(e) => return Err(e),
        };
        let month = match month_to_polish_genitive(timestamp.month) {
            Ok(s) => s,
            Err(e) => return Err(e),
        };
        let year = year_to_polish_genetive(timestamp.year);

        let mut text = day;
        text.append(" ");
        text.append(month.as_str());
        text.append(" ");
        text.append(year.as_str());
        text.append(" roku o ");
        text.append(hour.as_str());
        if !minute.as_str().is_empty() {
            text.append(" ");
            text.append(minute.as_str());
        }
        if !second.as_str().is_empty() {
            text.append(" i ");
            text.append(second.as_str());
        }
        Ok(text)
    }

    /// The Polish sentence for the date and time that `timestamp` holds in the
    /// format `YYYY-MM-DD HH:MM:SS`; chrono's error where it cannot be read.
    fn from_string(timestamp: &str) -> (r: Result<String, CzasError>)
        ensures
            match parsed_date_time(timestamp@, date_time_format()) {
                Some(f) => r is Ok && phrase_result(r, date_time_text(f.0, f.1, f.2, f.3, f.4, f.5)),
                None => r is Err && r->Err_0 is ChronoError,
            },
    {
        match parse_date_time(timestamp, "%Y-%m-%d %H:%M:%S") {
            Ok(t) => Self::from_naive_date_time(t),
            Err(e) => Err(CzasError::ChronoError(e)),
        }
    }
}

/// A date and time has a sentence exactly when its month, day, minute and second
/// are in range; otherwise there is no sentence, not even a part of one.
pub proof fn lemma_no_partial_sentence(t: Timestamp)
    ensures
        timestamp_text(t) is Some <==> (1 <= t.month <= 12 && 1 <= t.day <= 31 && t.minute <= 59
            && t.second <= 59),
{
}

} // verus!
