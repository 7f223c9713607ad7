//! Checks of words typed on the command line.

use crate::calendar::{full_day, full_day_of, parse_day_of, parsed_day, short_day, short_day_of, DATE_FORMAT};
use crate::text::{ascii_lowercase, lowered, str_eq};
use vstd::prelude::*;

verus! {

/// What is said of a word that names no priority.
pub const PRIORITY_HELP: &'static str = "Valid options are [\"high\", \"mid\", \"low\"]";

/// What is said of a word that names no date.
pub const DATE_HELP: &'static str = "Valid options are formatted as such: dd-mm-yyyy";

/// The words that name a priority.
pub open spec fn names_priority(word: Seq<char>) -> bool {
    word == "high"@ || word == "mid"@ || word == "low"@
}

/// The words that name a date: a date as day, month and year, or, in any
/// mix of upper and lower case, the short or the full name of a weekday.
pub open spec fn names_date(word: Seq<char>) -> bool {
    parsed_day(word, DATE_FORMAT@) is Some || short_day_of(lowered(word)) is Some || full_day_of(
        lowered(word),
    ) is Some
}

/// Accepts the words `high`, `mid` and `low`; refuses any other with a hint.
pub fn valid_priority(prio: String) -> (res: Result<(), String>)
    ensures
        names_priority(prio@) ==> res is Ok,
        !names_priority(prio@) ==> res is Err && res.unwrap_err()@ == PRIORITY_HELP@,
{
    let word = prio.as_str();
    if str_eq(word, "high") || str_eq(word, "mid") || str_eq(word, "low") {
        Ok(())
    } else {
        Err(PRIORITY_HELP.to_owned())
    }
}

/// Accepts a date as day, month and year, and the name of a weekday; refuses
/// any other word with a hint.
pub fn valid_date(date: String) -> (res: Result<(), String>)
    ensures
        names_date(date@) ==> res is Ok,
        !names_date(date@) ==> res is Err && res.unwrap_err()@ == DATE_HELP@,
{
    let lower_date = ascii_lowercase(date.as_str());
    if parse_day_of(date.as_str()).is_some() || short_day(lower_date.as_str()).is_some()
        || full_day(lower_date.as_str()).is_some() {
        Ok(())
    } else {
        Err(DATE_HELP.to_owned())
    }
}

} // verus!
