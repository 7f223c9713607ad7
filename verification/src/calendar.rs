//! Dates as day numbers: reading a date that a user typed, and writing one
//! for a listing. The calendar itself is `chrono`'s.

use crate::text::str_eq;
use crate::todo::Timestamp;
use vstd::prelude::*;

verus! {

/// The form in which dates are typed and shown: day, month, year.
pub const DATE_FORMAT: &'static str = "%d-%m-%Y";

/// The number of the last day that the calendar covers.
pub const MAX_DAY: i32 = 95_745_399;

/// The day number of the date that `chrono` reads from a text in a format;
/// none where it refuses the text.
pub uninterp spec fn parsed_day(text: Seq<char>, format: Seq<char>) -> Option<i32>;

/// The text that `chrono` writes for the date with a day number in a format;
/// none where there is no such date or the format cannot be used.
pub uninterp spec fn day_text(day: i32, format: Seq<char>) -> Option<Seq<char>>;

/// Calls `chrono::NaiveDate::parse_from_str` and hands back the date's day
/// number (`num_days_from_ce`), or nothing where the text was refused. The
/// result is taken to depend on the text and the format alone.
#[verifier::external_body]
fn parse_day(text: &str, format: &str) -> (day: Option<i32>)
    ensures
        day == parsed_day(text@, format@),
{
    match chrono::NaiveDate::parse_from_str(text, format) {
        Ok(date) => Some(chrono::Datelike::num_days_from_ce(&date)),
        Err(_) => None,
    }
}

/// Builds the date with `chrono::NaiveDate::from_num_days_from_ce_opt` and
/// writes it with `format` and `write_to`. Nothing comes back where the day
/// number is outside the calendar or the format is refused. The result is
/// taken to depend on the day number and the format alone.
#[verifier::external_body]
fn format_day(day: i32, format: &str) -> (text: Option<String>)
    ensures
        match day_text(day, format@) {
            Some(t) => text is Some && text.unwrap()@ == t,
            None => text is None,
        },
{
    let date = chrono::NaiveDate::from_num_days_from_ce_opt(day)?;
    let mut text = String::new();
    date.format(format).write_to(&mut text).ok()?;
    Some(text)
}

/// The day number of a date typed as day, month and year.
pub fn parse_day_of(text: &str) -> (day: Option<i32>)
    ensures
        day == parsed_day(text@, DATE_FORMAT@),
{
    parse_day(text, DATE_FORMAT)
}

/// What a listing shows for a date that may be absent: the date as day, month
/// and year, or `None` where there is no date or the calendar does not cover
/// it.
pub open spec fn date_label(date: Option<Timestamp>) -> Seq<char> {
    match date {
        Some(t) => match day_text(t.day, DATE_FORMAT@) {
            Some(text) => text,
            None => "None"@,
        },
        None => "None"@,
    }
}

pub fn date_to_label(date: Option<Timestamp>) -> (label: String)
    ensures
        label@ == date_label(date),
{
    match date {
        Some(t) => match format_day(t.day, DATE_FORMAT) {
            Some(text) => text,
            None => "None".to_owned(),
        },
        None => "None".to_owned(),
    }
}

/// The weekday that a short name stands for, counted from Monday as 0.
pub open spec fn short_day_of(word: Seq<char>) -> Option<int> {
    if word == "mon"@ {
        Some(0)
    } else if word == "tue"@ {
        Some(1)
    } else if word == "wed"@ {
        Some(2)
    } else if word == "thu"@ {
        Some(3)
    } else if word == "fri"@ {
        Some(4)
    } else if word == "sat"@ {
        Some(5)
    } else if word == "sun"@ {
        Some(6)
    } else {
        None
    }
}

/// The weekday that a full name stands for, counted from Monday as 0.
pub open spec fn full_day_of(word: Seq<char>) -> Option<int> {
    if word == "monday"@ {
        Some(0)
    } else if word == "tuesday"@ {
        Some(1)
    } else if word == "wednesday"@ {
        Some(2)
    } else if word == "thursday"@ {
        Some(3)
    } else if word == "friday"@ {
        Some(4)
    } else if word == "saturday"@ {
        Some(5)
    } else if word == "sunday"@ {
        Some(6)
    } else {
        None
    }
}

pub fn short_day(word: &str) -> (day: Option<u8>)
    ensures
        match short_day_of(word@) {
            Some(d) => day == Some(d as u8) && 0 <= d < 7,
            None => day is None,
        },
{
    if str_eq(word, "mon") {
        Some(0)
    } else if str_eq(word, "tue") {
        Some(1)
    } else if str_eq(word, "wed") {
        Some(2)
    } else if str_eq(word, "thu") {
        Some(3)
    } else if str_eq(word, "fri") {
        Some(4)
    } else if str_eq(word, "sat") {
        Some(5)
    } else if str_eq(word, "sun") {
        Some(6)
    } else {
        None
    }
}

pub fn full_day(word: &str) -> (day: Option<u8>)
    ensures
        match full_day_of(word@) {
            Some(d) => day == Some(d as u8) && 0 <= d < 7,
            None => day is None,
        },
{
    if str_eq(word, "monday") {
        Some(0)
    } else if str_eq(word, "tuesday") {
        Some(1)
    } else if str_eq(word, "wednesday") {
        Some(2)
    } else if str_eq(word, "thursday") {
        Some(3)
    } else if str_eq(word, "friday") {
        Some(4)
    } else if str_eq(word, "saturday") {
        Some(5)
    } else if str_eq(word, "sunday") {
        Some(6)
    } else {
        None
    }
}

/// The weekday of a day number, counted from Monday as 0: day 1 is a Monday.
pub open spec fn weekday_of(day: int) -> int {
    (day - 1) % 7
}

/// The first day, from `day` on, that falls on the weekday `goal`; none where
/// that day lies behind the last day of the calendar.
pub open spec fn next_weekday(day: int, goal: int) -> Option<int> {
    let ahead = (goal - weekday_of(day)) % 7;
    if day + ahead <= MAX_DAY {
        Some(day + ahead)
    } else {
        None
    }
}

/// The day that `next_weekday` gives falls on the weekday asked for, is not
/// before the day given, and no day between the two falls on that weekday.
pub proof fn lemma_next_weekday_is_first(day: int, goal: int)
    requires
        0 <= goal < 7,
        next_weekday(day, goal) is Some,
    ensures
        weekday_of(next_weekday(day, goal).unwrap()) == goal,
        day <= next_weekday(day, goal).unwrap() < day + 7,
        forall|d: int| day <= d < next_weekday(day, goal).unwrap() ==> weekday_of(d) != goal,
{
    let w = weekday_of(day);
    let q = (day - 1) / 7;
    vstd::arithmetic::div_mod::lemma_fundamental_div_mod(day - 1, 7);
    assert(day - 1 == q * 7 + w && 0 <= w < 7);
    let ahead = (goal - w) % 7;
    if goal >= w {
        vstd::arithmetic::div_mod::lemma_fundamental_div_mod_converse_mod(goal - w, 7, 0, goal - w);
        assert(ahead == goal - w);
        vstd::arithmetic::div_mod::lemma_fundamental_div_mod_converse_mod(
            day - 1 + ahead,
            7,
            q,
            goal,
        );
    } else {
        vstd::arithmetic::div_mod::lemma_fundamental_div_mod_converse_mod(
            goal - w,
            7,
            -1,
            goal - w + 7,
        );
        assert(ahead == goal - w + 7);
        vstd::arithmetic::div_mod::lemma_fundamental_div_mod_converse_mod(
            day - 1 + ahead,
            7,
            q + 1,
            goal,
        );
    }
    let first = day + ahead;
    assert(next_weekday(day, goal) == Some(first));
    assert forall|d: int| day <= d < first implies weekday_of(d) != goal by {
        let j = d - day;
        if w + j < 7 {
            vstd::arithmetic::div_mod::lemma_fundamental_div_mod_converse_mod(d - 1, 7, q, w + j);
        } else {
            vstd::arithmetic::div_mod::lemma_fundamental_div_mod_converse_mod(
                d - 1,
                7,
                q + 1,
                w + j - 7,
            );
        }
    }
}

/// The timestamp with the time of day of `curr` on the first day, from that of
/// `curr` on, that falls on the weekday `goal` (Monday is 0).
pub fn day_to_date(curr: &Timestamp, goal: u8) -> (found: Option<Timestamp>)
    requires
        goal < 7,
    ensures
        match next_weekday(curr.day as int, goal as int) {
            Some(day) => found == Some(Timestamp { day: day as i32, secs: curr.secs, nano: curr.nano }),
            None => found is None,
        },
{
    // 306783379 weeks lift every day number above zero.
    let lifted: i64 = curr.day as i64 - 1 + 2_147_483_653;
    let weekday: i64 = lifted % 7;
    proof {
        vstd::arithmetic::div_mod::lemma_mod_multiples_vanish(306_783_379, curr.day as int - 1, 7);
    }
    assert(weekday == weekday_of(curr.day as int));
    let ahead: i64 = (goal as i64 + 7 - weekday) % 7;
    proof {
        vstd::arithmetic::div_mod::lemma_mod_add_multiples_vanish(goal as int - weekday as int, 7);
    }
    assert(ahead == (goal as int - weekday_of(curr.day as int)) % 7);
    let day: i64 = curr.day as i64 + ahead;
    if day <= MAX_DAY as i64 {
        Some(Timestamp { day: day as i32, secs: curr.secs, nano: curr.nano })
    } else {
        None
    }
}

/// The timestamp that a typed date stands for at the moment `now`. A text
/// that begins with the short name of a weekday stands for the first such
/// day from today on (today where the calendar ends before it); any other
/// text is read as day, month and year. Both take the time of day of `now`.
/// A text that is neither stands for nothing.
pub open spec fn input_date(text: Seq<char>, now: Timestamp) -> Option<Timestamp> {
    if text.len() >= 3 && short_day_of(text.subrange(0, 3)) is Some {
        match next_weekday(now.day as int, short_day_of(text.subrange(0, 3)).unwrap()) {
            Some(day) => Some(Timestamp { day: day as i32, secs: now.secs, nano: now.nano }),
            None => Some(now),
        }
    } else {
        match parsed_day(text, DATE_FORMAT@) {
            Some(day) => Some(Timestamp { day: day, secs: now.secs, nano: now.nano }),
            None => None,
        }
    }
}

pub fn date_from_input(date: &str, now: Timestamp) -> (stamp: Option<Timestamp>)
    ensures
        stamp == input_date(date@, now),
{
    if date.unicode_len() >= 3 {
        if let Some(goal) = short_day(date.substring_char(0, 3)) {
            return match day_to_date(&now, goal) {
                Some(found) => Some(found),
                None => Some(now),
            };
        }
    }
    match parse_day_of(date) {
        Some(day) => Some(Timestamp { day, secs: now.secs, nano: now.nano }),
        None => None,
    }
}

} // verus!
