//! Literal word tables for Polish numerals and the decade rule that composes them.
use vstd::prelude::*;
use vstd::string::*;

verus! {

/// Cardinal numerals in the nominative case: 1 to 20 and the round tens up to 50.
pub open spec fn cardinal_literal(n: int) -> Seq<char> {
    if n == 1 {
        "jeden"@
    } else if n == 2 {
        "dwa"@
    } else if n == 3 {
        "trzy"@
    } else if n == 4 {
        "cztery"@
    } else if n == 5 {
        "pięć"@
    } else if n == 6 {
        "sześć"@
    } else if n == 7 {
        "siedem"@
    } else if n == 8 {
        "osiem"@
    } else if n == 9 {
        "dziewięć"@
    } else if n == 10 {
        "dziesięć"@
    } else if n == 11 {
        "jedenaście"@
    } else if n == 12 {
        "dwanaście"@
    } else if n == 13 {
        "trzynaście"@
    } else if n == 14 {
        "czternaście"@
    } else if n == 15 {
        "piętnaście"@
    } else if n == 16 {
        "szesnaście"@
    } else if n == 17 {
        "siedemnaście"@
    } else if n == 18 {
        "osiemnaście"@
    } else if n == 19 {
        "dziewiętnaście"@
    } else if n == 20 {
        "dwadzieścia"@
    } else if n == 30 {
        "trzydzieści"@
    } else if n == 40 {
        "czterdzieści"@
    } else if n == 50 {
        "pięćdziesiąt"@
    } else {
        Seq::empty()
    }
}

/// Looks up [`cardinal_literal`].
pub(crate) fn cardinal_word(n: u32) -> (r: &'static str)
    requires
        1 <= n <= 20 || n == 30 || n == 40 || n == 50,
    ensures
        r@ == cardinal_literal(n as int),
{
    match n {
        1 => "jeden",
        2 => "dwa",
        3 => "trzy",
        4 => "cztery",
        5 => "pięć",
        6 => "sześć",
        7 => "siedem",
        8 => "osiem",
        9 => "dziewięć",
        10 => "dziesięć",
        11 => "jedenaście",
        12 => "dwanaście",
        13 => "trzynaście",
        14 => "czternaście",
        15 => "piętnaście",
        16 => "szesnaście",
        17 => "siedemnaście",
        18 => "osiemnaście",
        19 => "dziewiętnaście",
        20 => "dwadzieścia",
        30 => "trzydzieści",
        40 => "czterdzieści",
        _ => "pięćdziesiąt",
    }
}

/// No entry of the cardinal table is empty.
pub(crate) proof fn lemma_cardinal_literal_nonempty(n: int)
    requires
        1 <= n <= 20 || n == 30 || n == 40 || n == 50,
    ensures
        cardinal_literal(n).len() > 0,
{
    reveal_strlit("jeden");
    reveal_strlit("dwa");
    reveal_strlit("trzy");
    reveal_strlit("cztery");
    reveal_strlit("pięć");
    reveal_strlit("sześć");
    reveal_strlit("siedem");
    reveal_strlit("osiem");
    reveal_strlit("dziewięć");
    reveal_strlit("dziesięć");
    reveal_strlit("jedenaście");
    reveal_strlit("dwanaście");
    reveal_strlit("trzynaście");
    reveal_strlit("czternaście");
    reveal_strlit("piętnaście");
    reveal_strlit("szesnaście");
    reveal_strlit("siedemnaście");
    reveal_strlit("osiemnaście");
    reveal_strlit("dziewiętnaście");
    reveal_strlit("dwadzieścia");
    reveal_strlit("trzydzieści");
    reveal_strlit("czterdzieści");
    reveal_strlit("pięćdziesiąt");
}

/// Ordinal numerals in the genitive case: 1 to 20 and the round tens up to 90.
pub open spec fn ordinal_genitive_literal(n: int) -> Seq<char> {
    if n == 1 {
        "pierwszego"@
    } else if n == 2 {
        "drugiego"@
    } else if n == 3 {
        "trzeciego"@
    } else if n == 4 {
        "czwartego"@
    } else if n == 5 {
        "piątego"@
    } else if n == 6 {
        "szóstego"@
    } else if n == 7 {
        "siódmego"@
    } else if n == 8 {
        "ósmego"@
    } else if n == 9 {
        "dziewiątego"@
    } else if n == 10 {
        "dziesiątego"@
    } else if n == 11 {
        "jedenastego"@
    } else if n == 12 {
        "dwunastego"@
    } else if n == 13 {
        "trzynastego"@
    } else if n == 14 {
        "czternastego"@
    } else if n == 15 {
        "piętnastego"@
    } else if n == 16 {
        "szesnastego"@
    } else if n == 17 {
        "siedemnastego"@
    } else if n == 18 {
        "osiemnastego"@
    } else if n == 19 {
        "dziewiętnastego"@
    } else if n == 20 {
        "dwudziestego"@
    } else if n == 30 {
        "trzydziestego"@
    } else if n == 40 {
        "czterdziestego"@
    } else if n == 50 {
        "pięćdziesiątego"@
    } else if n == 60 {
        "sześćdziesiątego"@
    } else if n == 70 {
        "siedemdziesiątego"@
    } else if n == 80 {
        "osiemdziesiątego"@
    } else if n == 90 {
        "dziewięćdziesiątego"@
    } else {
        Seq::empty()
    }
}

/// Looks up [`ordinal_genitive_literal`].
pub(crate) fn ordinal_genitive_word(n: u32) -> (r: &'static str)
    requires
        1 <= n <= 20 || (20 <= n <= 90 && n % 10 == 0),
    ensures
        r@ == ordinal_genitive_literal(n as int),
{
    match n {
        1 => "pierwszego",
        2 => "drugiego",
        3 => "trzeciego",
        4 => "czwartego",
        5 => "piątego",
        6 => "szóstego",
        7 => "siódmego",
        8 => "ósmego",
        9 => "dziewiątego",
        10 => "dziesiątego",
        11 => "jedenastego",
        12 => "dwunastego",
        13 => "trzynastego",
        14 => "czternastego",
        15 => "piętnastego",
        16 => "szesnastego",
        17 => "siedemnastego",
        18 => "osiemnastego",
        19 => "dziewiętnastego",
        20 => "dwudziestego",
        30 => "trzydziestego",
        40 => "czterdziestego",
        50 => "pięćdziesiątego",
        60 => "sześćdziesiątego",
        70 => "siedemdziesiątego",
        80 => "osiemdziesiątego",
        _ => "dziewięćdziesiątego",
    }
}

/// Hours in the locative case, 0 (midnight) to 20.
pub open spec fn hour_locative_literal(n: int) -> Seq<char> {
    if n == 0 {
        "północy"@
    } else if n == 1 {
        "pierwszej"@
    } else if n == 2 {
        "drugiej"@
    } else if n == 3 {
        "trzeciej"@
    } else if n == 4 {
        "czwartej"@
    } else if n == 5 {
        "piątej"@
    } else if n == 6 {
        "szóstej"@
    } else if n == 7 {
        "siódmej"@
    } else if n == 8 {
        "ósmej"@
    } else if n == 9 {
        "dziewiątej"@
    } else if n == 10 {
        "dziesiątej"@
    } else if n == 11 {
        "jedenastej"@
    } else if n == 12 {
        "dwunastej"@
    } else if n == 13 {
        "trzynastej"@
    } else if n == 14 {
        "czternastej"@
    } else if n == 15 {
        "piętnastej"@
    } else if n == 16 {
        "szesnastej"@
    } else if n == 17 {
        "siedemnastej"@
    } else if n == 18 {
        "osiemnastej"@
    } else if n == 19 {
        "dziewiętnastej"@
    } else if n == 20 {
        "dwudziestej"@
    } else {
        Seq::empty()
    }
}

/// Looks up [`hour_locative_literal`].
pub(crate) fn hour_locative_word(n: u32) -> (r: &'static str)
    requires
        n <= 20,
    ensures
        r@ == hour_locative_literal(n as int),
{
    match n {
        0 => "północy",
        1 => "pierwszej",
        2 => "drugiej",
        3 => "trzeciej",
        4 => "czwartej",
        5 => "piątej",
        6 => "szóstej",
        7 => "siódmej",
        8 => "ósmej",
        9 => "dziewiątej",
        10 => "dziesiątej",
        11 => "jedenastej",
        12 => "dwunastej",
        13 => "trzynastej",
        14 => "czternastej",
        15 => "piętnastej",
        16 => "szesnastej",
        17 => "siedemnastej",
        18 => "osiemnastej",
        19 => "dziewiętnastej",
        _ => "dwudziestej",
    }
}

/// Month names in the genitive case, 1 (January) to 12.
pub open spec fn month_genitive_literal(n: int) -> Seq<char> {
    if n == 1 {
        "stycznia"@
    } else if n == 2 {
        "lutego"@
    } else if n == 3 {
        "marca"@
    } else if n == 4 {
        "kwietnia"@
    } else if n == 5 {
        "maja"@
    } else if n == 6 {
        "czerwca"@
    } else if n == 7 {
        "lipca"@
    } else if n == 8 {
        "sierpnia"@
    } else if n == 9 {
        "września"@
    } else if n == 10 {
        "października"@
    } else if n == 11 {
        "listopada"@
    } else if n == 12 {
        "grudnia"@
    } else {
        Seq::empty()
    }
}

/// Looks up [`month_genitive_literal`].
pub(crate) fn month_genitive_word(n: u32) -> (r: &'static str)
    requires
        1 <= n <= 12,
    ensures
        r@ == month_genitive_literal(n as int),
{
    match n {
        1 => "stycznia",
        2 => "lutego",
        3 => "marca",
        4 => "kwietnia",
        5 => "maja",
        6 => "czerwca",
        7 => "lipca",
        8 => "sierpnia",
        9 => "września",
        10 => "października",
        11 => "listopada",
        _ => "grudnia",
    }
}

/// Whole thousands in the nominative case, 1 to 9 thousand.
pub open spec fn thousands_literal(n: int) -> Seq<char> {
    if n == 1 {
        "tysiąc"@
    } else if n == 2 {
        "dwa tysiące"@
    } else if n == 3 {
        "trzy tysiące"@
    } else if n == 4 {
        "cztery tysiące"@
    } else if n == 5 {
        "pięć tysięcy"@
    } else if n == 6 {
        "sześć tysięcy"@
    } else if n == 7 {
        "siedem tysięcy"@
    } else if n == 8 {
        "osiem tysięcy"@
    } else if n == 9 {
        "dziewięć tysięcy"@
    } else {
        Seq::empty()
    }
}

/// Looks up [`thousands_literal`].
pub(crate) fn thousands_word(n: u32) -> (r: &'static str)
    requires
        1 <= n <= 9,
    ensures
        r@ == thousands_literal(n as int),
{
    match n {
        1 => "tysiąc",
        2 => "dwa tysiące",
        3 => "trzy tysiące",
        4 => "cztery tysiące",
        5 => "pięć tysięcy",
        6 => "sześć tysięcy",
        7 => "siedem tysięcy",
        8 => "osiem tysięcy",
        _ => "dziewięć tysięcy",
    }
}

/// Whole hundreds in the nominative case, 1 to 9 hundred.
pub open spec fn hundreds_literal(n: int) -> Seq<char> {
    if n == 1 {
        "sto"@
    } else if n == 2 {
        "dwieście"@
    } else if n == 3 {
        "trzysta"@
    } else if n == 4 {
        "czterysta"@
    } else if n == 5 {
        "pięćset"@
    } else if n == 6 {
        "sześćset"@
    } else if n == 7 {
        "siedemset"@
    } else if n == 8 {
        "osiemset"@
    } else if n == 9 {
        "dziewięćset"@
    } else {
        Seq::empty()
    }
}

/// Looks up [`hundreds_literal`].
pub(crate) fn hundreds_word(n: u32) -> (r: &'static str)
    requires
        1 <= n <= 9,
    ensures
        r@ == hundreds_literal(n as int),
{
    match n {
        1 => "sto",
        2 => "dwieście",
        3 => "trzysta",
        4 => "czterysta",
        5 => "pięćset",
        6 => "sześćset",
        7 => "siedemset",
        8 => "osiemset",
        _ => "dziewięćset",
    }
}

/// Two phrases joined by one space, where an empty phrase is left out.
pub open spec fn join_words(a: Seq<char>, b: Seq<char>) -> Seq<char> {
    if a.len() == 0 {
        b
    } else if b.len() == 0 {
        a
    } else {
        a + " "@ + b
    }
}

/// A number below one hundred spelled from a table that holds 1 to 20 and the round
/// tens: those come straight from the table, any other number is its round ten, a
/// space, and its last digit. Zero is the empty phrase.
pub open spec fn decade_text(table: spec_fn(int) -> Seq<char>, n: int) -> Seq<char> {
    if n == 0 {
        Seq::empty()
    } else if n <= 20 || n % 10 == 0 {
        table(n)
    } else {
        table(n - n % 10) + " "@ + table(n % 10)
    }
}

/// A cardinal numeral in the nominative case, 0 to 59; zero is the empty phrase.
pub open spec fn cardinal_text(n: int) -> Seq<char> {
    decade_text(|k: int| cardinal_literal(k), n)
}

/// An ordinal numeral in the genitive case, 0 to 99; zero is the empty phrase.
pub open spec fn ordinal_genitive_text(n: int) -> Seq<char> {
    decade_text(|k: int| ordinal_genitive_literal(k), n)
}

/// `a`, a space and `b`.
pub(crate) fn spaced(a: &str, b: &str) -> (r: String)
    ensures
        r@ == a@ + " "@ + b@,
{
    let mut r = String::from_str(a);
    r.append(" ");
    r.append(b);
    r
}

/// Appends `b` to `a` after one space, leaving out whichever of them is empty.
pub(crate) fn join(a: String, b: &str) -> (r: String)
    ensures
        r@ == join_words(a@, b@),
{
    if b.is_empty() {
        a
    } else if a.as_str().is_empty() {
        String::from_str(b)
    } else {
        spaced(a.as_str(), b)
    }
}

/// Spells [`cardinal_text`].
pub(crate) fn cardinal_phrase(n: u32) -> (r: String)
    requires
        n < 60,
    ensures
        r@ == cardinal_text(n as int),
{
    if n == 0 {
        String::new()
    } else if n <= 20 || n % 10 == 0 {
        String::from_str(cardinal_word(n))
    } else {
        spaced(cardinal_word(n - n % 10), cardinal_word(n % 10))
    }
}

/// Spells [`ordinal_genitive_text`].
pub(crate) fn ordinal_genitive_phrase(n: u32) -> (r: String)
    requires
        n < 100,
    ensures
        r@ == ordinal_genitive_text(n as int),
{
    if n == 0 {
        String::new()
    } else if n <= 20 || n % 10 == 0 {
        String::from_str(ordinal_genitive_word(n))
    } else {
        spaced(ordinal_genitive_word(n - n % 10), ordinal_genitive_word(n % 10))
    }
}

} // verus!
