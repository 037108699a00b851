//! Polish phrases for each component of a date and time.
use vstd::prelude::*;
use vstd::string::*;

use crate::errors::{phrase_result, CzasError};
use crate::mapping::words::{
    cardinal_literal, cardinal_phrase, cardinal_text, lemma_cardinal_literal_nonempty, hour_locative_literal, hour_locative_word, hundreds_literal,
    hundreds_word, join, join_words, month_genitive_literal, month_genitive_word,
    ordinal_genitive_phrase, ordinal_genitive_text, spaced, thousands_literal, thousands_word,
};

verus! {

/// The noun "second" in agreement with the count `n`: singular after one, the
/// paucal plural after a count whose last digit is 2 to 4 (but not 12 to 14), the
/// genitive plural otherwise.
pub open spec fn second_noun(n: int) -> Seq<char> {
    if n == 1 {
        "sekunda"@
    } else if 2 <= n % 10 <= 4 && !(12 <= n <= 14) {
        "sekundy"@
    } else {
        "sekund"@
    }
}

/// A count of seconds, 0 to 59, as numeral and noun; zero is the empty phrase.
pub open spec fn seconds_text(n: int) -> Option<Seq<char>> {
    if 0 <= n <= 59 {
        if n == 0 {
            Some(Seq::empty())
        } else {
            Some(cardinal_text(n) + " "@ + second_noun(n))
        }
    } else {
        None
    }
}

/// A minute, 0 to 59, as a bare numeral; zero is the empty phrase.
pub open spec fn minutes_text(n: int) -> Option<Seq<char>> {
    if 0 <= n <= 59 {
        Some(cardinal_text(n))
    } else {
        None
    }
}

/// An hour in the locative case ("at ..."), taken modulo 24: midnight for 0.
pub open spec fn hour_text(n: int) -> Seq<char> {
    let k = n % 24;
    if k <= 20 {
        hour_locative_literal(k)
    } else {
        hour_locative_literal(20) + " "@ + hour_locative_literal(k - 20)
    }
}

/// A day of the month, 1 to 31, as an ordinal in the genitive case.
pub open spec fn day_text(n: int) -> Option<Seq<char>> {
    if 1 <= n <= 31 {
        Some(ordinal_genitive_text(n))
    } else {
        None
    }
}

/// A month, 1 to 12, by its name in the genitive case.
pub open spec fn month_text(n: int) -> Option<Seq<char>> {
    if 1 <= n <= 12 {
        Some(month_genitive_literal(n))
    } else {
        None
    }
}

/// A year as thousands, hundreds, and an ordinal in the genitive case for the
/// last two digits, each left out where it is zero. A digit of thousands beyond
/// nine is left out too, and a year that is not positive is the empty phrase.
pub open spec fn year_text(year: int) -> Seq<char> {
    if year <= 0 {
        Seq::empty()
    } else {
        join_words(
            join_words(thousands_literal(year / 1000), hundreds_literal(year % 1000 / 100)),
            ordinal_genitive_text(year % 100),
        )
    }
}

/// Looks up [`second_noun`].
fn second_noun_word(n: u32) -> (r: &'static str)
    ensures
        r@ == second_noun(n as int),
{
    if n == 1 {
        "sekunda"
    } else if 2 <= n % 10 && n % 10 <= 4 && !(12 <= n && n <= 14) {
        "sekundy"
    } else {
        "sekund"
    }
}

/// Converts a second value to the Polish nominative, with the noun in agreement
/// ("jeden sekunda", "trzy sekundy", "pięć sekund"); zero gives the empty string.
pub fn seconds_to_polish_nominative(seconds: u32) -> (r: Result<String, CzasError>)
    ensures
        phrase_result(r, seconds_text(seconds as int)),
{
    if seconds > 59 {
        Err(CzasError::Error)
    } else if seconds == 0 {
        Ok(String::new())
    } else {
        let numeral = cardinal_phrase(seconds);
        Ok(spaced(numeral.as_str(), second_noun_word(seconds)))
    }
}

/// Converts a minute value to the Polish nominative ("jeden", "dziewiętnaście");
/// zero gives the empty string.
pub fn minutes_to_polish_nominative(minutes: u32) -> (r: Result<String, CzasError>)
    ensures
        phrase_result(r, minutes_text(minutes as int)),
{
    if minutes > 59 {
        Err(CzasError::Error)
    } else {
        Ok(cardinal_phrase(minutes))
    }
}

/// Converts an hour value to the Polish locative ("pierwszej", "północy" for
/// midnight). An hour from 24 on is taken modulo 24, so this never fails.
pub fn hours_to_polish_locative(hours: u32) -> (r: Result<String, CzasError>)
    ensures
        phrase_result(r, Some(hour_text(hours as int))),
{
    let k = hours % 24;
    if k <= 20 {
        Ok(String::from_str(hour_locative_word(k)))
    } else {
        Ok(spaced(hour_locative_word(20), hour_locative_word(k - 20)))
    }
}

/// Converts a day of the month, 1 to 31, to the Polish genitive ("pierwszego").
pub fn date_to_polish_genitive(date: u32) -> (r: Result<String, CzasError>)
    ensures
        phrase_result(r, day_text(date as int)),
{
    if date < 1 || date > 31 {
        Err(CzasError::Error)
    } else {
        Ok(ordinal_genitive_phrase(date))
    }
}

/// Converts a month, 1 to 12, to the Polish genitive ("stycznia").
pub fn month_to_polish_genitive(month: u32) -> (r: Result<String, CzasError>)
    ensures
        phrase_result(r, month_text(month as int)),
{
    if month < 1 || month > 12 {
        Err(CzasError::Error)
    } else {
        Ok(String::from_str(month_genitive_word(month)))
    }
}

/// The whole thousands of a year; empty below one thousand and from ten thousand on.
fn millenium_to_polish_mianownik(year: u32) -> (r: &'static str)
    ensures
        r@ == thousands_literal(year as int / 1000),
{
    let k = year / 1000;
    if 1 <= k && k <= 9 {
        thousands_word(k)
    } else {
        proof {
            reveal_strlit("");
        }
        ""
    }
}

/// The whole hundreds of a year below its thousands; empty where that digit is zero.
fn century_to_polish_mianownik(year: u32) -> (r: &'static str)
    ensures
        r@ == hundreds_literal(year as int % 1000 / 100),
{
    let k = year % 1000 / 100;
    if k == 0 {
        proof {
            reveal_strlit("");
        }
        ""
    } else {
        hundreds_word(k)
    }
}

/// Converts a year to the Polish genitive ("dwa tysiące dwudziestego drugiego").
/// Zero or a negative year gives the empty string.
pub fn year_to_polish_genetive(year: i32) -> (r: String)
    ensures
        r@ == year_text(year as int),
{
    if year <= 0 {
        return String::new();
    }
    let y = year as u32;
    let head = join(String::from_str(millenium_to_polish_mianownik(y)), century_to_polish_mianownik(y));
    join(head, ordinal_genitive_phrase(y % 100).as_str())
}

/// For a minute or a second from 0 to 59 the bare numeral always exists, is empty
/// exactly at zero, and for 21, 31, 41 and 51 is the round ten followed by " jeden".
pub proof fn lemma_bare_numeral(n: int)
    requires
        0 <= n <= 59,
    ensures
        minutes_text(n) is Some,
        (minutes_text(n)->Some_0.len() == 0) <==> n == 0,
        n > 20 && n % 10 == 1 ==> minutes_text(n)->Some_0 == cardinal_literal(n - 1) + " jeden"@,
{
    if n != 0 {
        if n <= 20 || n % 10 == 0 {
            lemma_cardinal_literal_nonempty(n);
        } else {
            lemma_cardinal_literal_nonempty(n - n % 10);
        }
    }
    if n > 20 && n % 10 == 1 {
        reveal_strlit(" ");
        reveal_strlit("jeden");
        reveal_strlit(" jeden");
        assert(cardinal_text(n) =~= cardinal_literal(n - 1) + " jeden"@);
    }
}

/// Every hour has a phrase: midnight is "północy", and an hour from 24 on reads as
/// the same hour modulo 24.
pub proof fn lemma_hour_wraps(k: int)
    requires
        k >= 0,
    ensures
        hour_text(0) == "północy"@,
        hour_text(k + 24) == hour_text(k),
{
}

/// Every day from 1 to 31 has a phrase, and no other day has one.
pub proof fn lemma_day_range(d: int)
    ensures
        day_text(d) is Some <==> 1 <= d <= 31,
{
}

/// A month outside 1 to 12 has no phrase; a month inside it has its name from the
/// fixed table.
pub proof fn lemma_month_table(m: int)
    ensures
        !(1 <= m <= 12) ==> month_text(m) is None,
        1 <= m <= 12 ==> month_text(m) == Some(month_genitive_literal(m)),
{
}

} // verus!
