use vstd::prelude::*;

verus! {

/// chrono's error for text that does not match a date and time format; carried
/// through unchanged.
#[verifier::external_type_specification]
#[verifier::external_body]
pub struct ExParseError(chrono::ParseError);

/// Why a date or time could not be put into words.
#[derive(Debug)]
pub enum CzasError {
    /// A component of the date or time lies outside its range.
    Error,
    /// The text could not be read as a date and time.
    ChronoError(chrono::ParseError),
}

/// Whether a converter's result is the phrase `t`, or the out-of-range error
/// where `t` is `None`.
pub open spec fn phrase_result(r: Result<String, CzasError>, t: Option<Seq<char>>) -> bool {
    match t {
        Some(w) => r is Ok && r->Ok_0@ == w,
        None => r is Err && r->Err_0 is Error,
    }
}

/// Every converter's result is fixed by its input: two results that meet the
/// contract for the same phrase (or for the same error) are the same text, or
/// both the out-of-range error.
pub proof fn lemma_conversion_is_pure(
    r1: Result<String, CzasError>,
    r2: Result<String, CzasError>,
    t: Option<Seq<char>>,
)
    requires
        phrase_result(r1, t),
        phrase_result(r2, t),
    ensures
        (r1 is Ok && r2 is Ok && r1->Ok_0@ == r2->Ok_0@) || (r1 is Err && r2 is Err
            && r1->Err_0 is Error && r2->Err_0 is Error),
{
}

} // verus!
