//! Converters for the components of a date and time, grouped by language.
use vstd::prelude::*;

use crate::errors::{phrase_result, CzasError};
use crate::mapping::polish::{day_text, hour_text, minutes_text, month_text};

pub mod polish;
pub mod words;

verus! {

/// Converts a second or minute value, 0 to 59, to a bare Polish numeral in the
/// nominative ("dwadzieścia jeden"); zero gives the empty string.
pub fn seconds_or_minutes_to_polish_nominative(seconds_or_minutes: u32) -> (r: Result<
    String,
    CzasError,
>)
    ensures
        phrase_result(r, minutes_text(seconds_or_minutes as int)),
{
    polish::minutes_to_polish_nominative(seconds_or_minutes)
}

/// Converts an hour value to the Polish locative; see
/// [`polish::hours_to_polish_locative`].
pub fn hours_to_polish_locative(hours: u32) -> (r: Result<String, CzasError>)
    ensures
        phrase_result(r, Some(hour_text(hours as int))),
{
    polish::hours_to_polish_locative(hours)
}

/// Converts a day of the month, 1 to 31, to the Polish genitive.
pub fn date_to_polish_genitive(date: u32) -> (r: Result<String, CzasError>)
    ensures
        phrase_result(r, day_text(date as int)),
{
    polish::date_to_polish_genitive(date)
}

/// Converts a month, 1 to 12, to the Polish genitive.
pub fn month_to_polish_genitive(month: u32) -> (r: Result<String, CzasError>)
    ensures
        phrase_result(r, month_text(month as int)),
{
    polish::month_to_polish_genitive(month)
}

} // verus!
