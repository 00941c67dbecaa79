//! Calendar dates, and the parsers that read one out of text.

use vstd::prelude::*;
use vstd::string::is_ascii_spec_bytes;
use vstd::utf8::is_ascii_chars;

use crate::metadata::text::{four_digit_year, parse_year};

verus! {

/// A day of the proleptic Gregorian calendar, without a time zone.
#[derive(Debug, Clone, Copy, PartialEq, Eq, Structural)]
pub struct CalendarDate {
    pub year: i32,
    /// Month of the year, from 1.
    pub month: u32,
    /// Day of the month, from 1.
    pub day: u32,
}

/// Whether a year has a 29th of February.
pub open spec fn is_leap_year(year: int) -> bool {
    year % 4 == 0 && (year % 100 != 0 || year % 400 == 0)
}

/// Number of days of a month.
pub open spec fn days_in_month(year: int, month: int) -> int
    recommends
        1 <= month <= 12,
{
    if month == 2 {
        if is_leap_year(year) {
            29
        } else {
            28
        }
    } else if month == 4 || month == 6 || month == 9 || month == 11 {
        30
    } else {
        31
    }
}

/// The first year that a date can have.
pub const MIN_YEAR: i32 = -262143;

/// The last year that a date can have.
pub const MAX_YEAR: i32 = 262142;

impl CalendarDate {
    /// The calendar has such a day, in a year that a date can have.
    pub open spec fn wf(self) -> bool {
        &&& MIN_YEAR <= self.year <= MAX_YEAR
        &&& 1 <= self.month <= 12
        &&& 1 <= self.day <= days_in_month(self.year as int, self.month as int)
    }

    /// The first day of a year.
    pub open spec fn year_start(year: int) -> CalendarDate
        recommends
            i32::MIN <= year <= i32::MAX,
    {
        CalendarDate { year: year as i32, month: 1, day: 1 }
    }

    /// The date with the given year, month and day, where there is one.
    pub fn from_ymd(year: i32, month: u32, day: u32) -> (r: Option<CalendarDate>)
        ensures
            r == (if (CalendarDate { year, month, day }).wf() {
                Some(CalendarDate { year, month, day })
            } else {
                None
            }),
    {
        calendar_day(year, month, day)
    }
}

/// What a parser of everyday language made of a text it accepted.
#[derive(Debug, Clone, Copy, PartialEq, Eq, Structural)]
pub enum HumanTime {
    /// A day, with or without a time of day.
    Day(CalendarDate),
    /// A time of day alone, which names no day.
    Time,
}

impl HumanTime {
    pub open spec fn wf(self) -> bool {
        match self {
            HumanTime::Day(d) => d.wf(),
            HumanTime::Time => true,
        }
    }

    /// The day that was named, if any.
    pub open spec fn spec_date(self) -> Option<CalendarDate> {
        match self {
            HumanTime::Day(d) => Some(d),
            HumanTime::Time => None,
        }
    }

    #[verifier::when_used_as_spec(spec_date)]
    pub fn date(self) -> (r: Option<CalendarDate>)
        ensures
            r == self.spec_date(),
    {
        match self {
            HumanTime::Day(d) => Some(d),
            HumanTime::Time => None,
        }
    }
}

/// `chrono::ParseError`, the reason why a text is no date. It is carried
/// through unread.
#[verifier::external_type_specification]
#[verifier::external_body]
pub struct ExDateParseError(chrono::ParseError);

/// The day, in its own offset, of the instant that an RFC 3339 text denotes;
/// `None` for text that is no RFC 3339 date and time.
pub uninterp spec fn rfc3339_day(text: Seq<char>) -> Option<CalendarDate>;

/// Parses with `chrono::DateTime::parse_from_rfc3339` and takes the day with
/// `date_naive()`, read through `Datelike::{year, month, day}`.
///
/// Trusted: that the outcome depends on the text alone, and that a date of
/// chrono is a day of the calendar.
#[verifier::external_body]
pub(crate) fn parse_rfc3339_day(text: &str) -> (r: Result<CalendarDate, chrono::ParseError>)
    ensures
        match r {
            Ok(d) => rfc3339_day(text@) == Some(d) && d.wf(),
            Err(_) => rfc3339_day(text@).is_none(),
        },
{
    let day = chrono::DateTime::parse_from_rfc3339(text)?.date_naive();
    Ok(CalendarDate {
        year: chrono::Datelike::year(&day),
        month: chrono::Datelike::month(&day),
        day: chrono::Datelike::day(&day),
    })
}

/// Whether a character writes a digit.
pub open spec fn is_digit(c: char) -> bool {
    '0' <= c && c <= '9'
}

/// Whether a character can stand in a date and time written in figures: a
/// digit, a hyphen, a colon, a plus sign, a full stop, a space, or one of the
/// capital letters `T` and `Z`.
pub open spec fn is_general_char(c: char) -> bool {
    is_digit(c) || c == '-' || c == ':' || c == '+' || c == '.' || c == ' ' || c == 'T' || c == 'Z'
}

/// The texts that the general parser is handed: those written with the
/// characters of a date and time in figures alone. Such a text names no
/// weekday, no unit of time and no timestamp.
pub open spec fn general_text(text: Seq<char>) -> bool {
    forall|i: int| 0 <= i < text.len() ==> is_general_char(#[trigger] text[i])
}

/// The text begins with the word "in", in small or capital letters.
pub open spec fn begins_with_in(text: Seq<char>) -> bool {
    text.len() >= 2 && (text[0] == 'i' || text[0] == 'I') && (text[1] == 'n' || text[1] == 'N')
}

/// The letters of the word "ago", small or capital, from index `i` on.
pub open spec fn ago_at(text: Seq<char>, i: int) -> bool
    recommends
        0 <= i,
        i + 3 <= text.len(),
{
    (text[i] == 'a' || text[i] == 'A') && (text[i + 1] == 'g' || text[i + 1] == 'G') && (text[i + 2] == 'o'
        || text[i + 2] == 'O')
}

/// The texts that the parser of everyday language is handed: those without
/// a colon that neither begin with "in" nor hold "ago". Such a text names
/// no time of day and no span of time counted from now.
pub open spec fn human_text(text: Seq<char>) -> bool {
    &&& forall|i: int| 0 <= i < text.len() ==> #[trigger] text[i] != ':'
    &&& !begins_with_in(text)
    &&& forall|i: int| 0 <= i && i + 3 <= text.len() ==> !#[trigger] ago_at(text, i)
}

/// Whether a text may be handed to the general parser.
pub fn is_general_text(text: &str) -> (r: bool)
    ensures
        r == general_text(text@),
{
    if !text.is_ascii() {
        proof {
            let i = choose|i: int| 0 <= i < text@.len() && !('\0' <= #[trigger] text@[i] <= '\u{7f}');
            assert(!is_general_char(text@[i]));
        }
        return false;
    }
    let bytes = text.as_bytes();
    proof {
        is_ascii_spec_bytes(text);
    }
    let mut i: usize = 0;
    while i < bytes.len()
        invariant
            i <= bytes.len(),
            is_ascii_chars(text@),
            bytes@ == Seq::new(text@.len(), |k: int| text@[k] as u8),
            forall|k: int| 0 <= k < i ==> is_general_char(#[trigger] text@[k]),
        decreases bytes.len() - i,
    {
        let b = bytes[i];
        let ghost c = text@[i as int];
        assert(b == c as u8 && '\0' <= c <= '\u{7f}');
        let fits = ('0' as u8 <= b && b <= '9' as u8) || b == '-' as u8 || b == ':' as u8 || b == '+' as u8 || b
            == '.' as u8 || b == ' ' as u8 || b == 'T' as u8 || b == 'Z' as u8;
        assert(fits == is_general_char(c));
        if !fits {
            return false;
        }
        i += 1;
    }
    true
}

/// Whether a text may be handed to the parser of everyday language.
pub fn is_human_text(text: &str) -> (r: bool)
    ensures
        r == human_text(text@),
{
    // How many characters came before this one, counted up to two, and
    // which they were.
    let mut seen: u8 = 0;
    let mut last: char = ' ';
    let mut before: char = ' ';
    for c in it: text.chars()
        invariant
            it.seq() == text@,
            seen <= 2,
            it.index() < 2 ==> seen == it.index(),
            it.index() >= 2 ==> seen == 2,
            seen >= 1 ==> last == text@[it.index() - 1],
            seen == 2 ==> before == text@[it.index() - 2],
            forall|k: int| 0 <= k < it.index() ==> #[trigger] text@[k] != ':',
            it.index() >= 2 ==> !begins_with_in(text@),
            forall|k: int| 0 <= k && k + 3 <= it.index() ==> !#[trigger] ago_at(text@, k),
    {
        if c == ':' {
            return false;
        }
        if seen == 1 && (last == 'i' || last == 'I') && (c == 'n' || c == 'N') {
            return false;
        }
        if seen == 2 && (before == 'a' || before == 'A') && (last == 'g' || last == 'G') && (c == 'o' || c
            == 'O') {
            assert(ago_at(text@, it.index() - 2));
            return false;
        }
        before = last;
        last = c;
        if seen < 2 {
            seen += 1;
        }
    }
    true
}

/// Asks `parse_datetime::parse_datetime` for an instant and takes its day
/// with `date_naive()`.
///
/// The parser stops the program on some texts: where a weekday is named and
/// the machine's time zone has no midnight today, and where a span of time
/// or a timestamp is too long for chrono. Each of these needs a weekday's
/// name, a unit of time or an `@` in the text, so a text in the characters of
/// a date in figures reaches none of them. What is left are chrono's parsing
/// functions, which return an error, and `from_local_datetime` on a fixed
/// offset, which returns no date where there is none. The instant that comes
/// back was made from a local date and time that chrono has, so `date_naive()`
/// finds its day.
///
/// The parser reads a time of day against the clock and the local time zone,
/// so nothing is claimed about which day comes back, only that it is a day of
/// the calendar, as every date of chrono is.
///
/// Trusted besides: the parser reads no text of exactly four digits, whatever
/// the clock shows. Each of its formats wants more than a year: a month and a
/// day after it, a colon within a time of day, or a hyphen after the year.
#[verifier::external_body]
pub(crate) fn parse_general_day(text: &str) -> (r: Option<CalendarDate>)
    requires
        general_text(text@),
    ensures
        r matches Some(d) ==> d.wf(),
        four_digit_year(text@) is Some ==> r is None,
{
    let day = parse_datetime::parse_datetime(text).ok()?.date_naive();
    Some(CalendarDate {
        year: chrono::Datelike::year(&day),
        month: chrono::Datelike::month(&day),
        day: chrono::Datelike::day(&day),
    })
}

/// Asks `human_date_parser::from_human_time` and keeps whether it found a day
/// (its `DateTime` and `Date` results, the former through `date_naive()`) or
/// a time of day alone.
///
/// The parser stops the program on some texts: where a day is named with a
/// time of day and the machine's time zone has no such local time, or two,
/// and where the spans of time of an "in ..." or "... ago" are too long for
/// chrono or lead out of its dates. A time of day needs a colon, the first
/// form begins with "in" and the second holds "ago", in the small letters
/// that the parser turns the text into before it reads it; the text has none
/// of them. What is left takes no span of time from the text: it reads the
/// clock, moves it by a unit of time or to a weekday, and calls chrono's
/// parsing, `from_ymd_opt` and `with_` functions, which return an error or
/// nothing.
///
/// The parser reads expressions such as "yesterday" against the clock, so
/// nothing is claimed about which day comes back, only that it is a day of
/// the calendar, as every date of chrono is.
///
/// Trusted besides: the parser reads no text of exactly four digits, whatever
/// the clock shows. Every form of its grammar begins with a word, or wants a
/// hyphen, a colon, a month's name or a unit of time after its first number.
#[verifier::external_body]
pub(crate) fn parse_human_time(text: &str) -> (r: Option<HumanTime>)
    requires
        human_text(text@),
    ensures
        r matches Some(h) ==> h.wf(),
        four_digit_year(text@) is Some ==> r is None,
{
    let day = match human_date_parser::from_human_time(text).ok()? {
        human_date_parser::ParseResult::DateTime(dt) => dt.date_naive(),
        human_date_parser::ParseResult::Date(d) => d,
        human_date_parser::ParseResult::Time(_) => return Some(HumanTime::Time),
    };
    Some(HumanTime::Day(CalendarDate {
        year: chrono::Datelike::year(&day),
        month: chrono::Datelike::month(&day),
        day: chrono::Datelike::day(&day),
    }))
}

/// Asks `chrono::NaiveDate::from_ymd_opt` for a date and reads back its year,
/// month and day.
///
/// Trusted: chrono has a date exactly for the days of the proleptic
/// Gregorian calendar in the years from -262143 to 262142, and the date it
/// makes has the year, month and day it was made from.
#[verifier::external_body]
pub(crate) fn calendar_day(year: i32, month: u32, day: u32) -> (r: Option<CalendarDate>)
    ensures
        r == (if (CalendarDate { year, month, day }).wf() {
            Some(CalendarDate { year, month, day })
        } else {
            None
        }),
{
    let date = chrono::NaiveDate::from_ymd_opt(year, month, day)?;
    Some(CalendarDate {
        year: chrono::Datelike::year(&date),
        month: chrono::Datelike::month(&date),
        day: chrono::Datelike::day(&date),
    })
}

/// The first of January of the year that a text of exactly four digits
/// writes.
pub open spec fn bare_year_day(text: Seq<char>) -> Option<CalendarDate> {
    match four_digit_year(text) {
        Some(year) => Some(CalendarDate::year_start(year)),
        None => None,
    }
}

/// Reads a text that is nothing but a year of four digits as the first day of
/// that year.
pub fn parse_bare_year(text: &str) -> (r: Option<CalendarDate>)
    ensures
        r == bare_year_day(text@),
{
    match parse_year(text) {
        Some(year) => CalendarDate::from_ymd(year, 1, 1),
        None => None,
    }
}

/// The publication date that three attempts at reading a text settle on, in
/// their order: the general parser's day; failing that, what the parser of
/// everyday language found, which is no date where it found a time of day;
/// failing that too, the text read as a bare year.
pub open spec fn settled_date(
    general: Option<CalendarDate>,
    human: Option<HumanTime>,
    bare_year: Option<CalendarDate>,
) -> Option<CalendarDate> {
    match general {
        Some(day) => Some(day),
        None => match human {
            Some(found) => found.spec_date(),
            None => bare_year,
        },
    }
}

/// Settles on a publication date, given what each attempt came to.
pub fn settle_date(
    general: Option<CalendarDate>,
    human: Option<HumanTime>,
    bare_year: Option<CalendarDate>,
) -> (r: Option<CalendarDate>)
    ensures
        r == settled_date(general, human, bare_year),
{
    match general {
        Some(day) => Some(day),
        None => match human {
            Some(found) => found.date(),
            None => bare_year,
        },
    }
}

/// What holds of every reading of a publication date out of a text, whatever
/// the clock shows: a day that is read is a day of the calendar; a text that
/// is nothing but a year of four digits is read as the first day of that
/// year; and a text that neither parser is handed is read as a bare year or
/// not at all.
pub open spec fn is_reading(text: Seq<char>, day: Option<CalendarDate>) -> bool {
    &&& day matches Some(d) ==> d.wf()
    &&& bare_year_day(text) is Some ==> day == bare_year_day(text)
    &&& !general_text(text) && !human_text(text) ==> day == bare_year_day(text)
}

/// Reads a publication date out of free text, each attempt made only where
/// the ones before it failed. Text that no attempt can read gives no date;
/// that is not an error.
///
/// A parser is handed only the texts on which it is known to return: the
/// general parser those of [`general_text`], the parser of everyday language
/// those of [`human_text`]. On any other text that attempt counts as failed,
/// so a text that neither parser is handed gives what the reading as a bare
/// year gives.
///
/// A text that is nothing but a year of four digits gives the first day of
/// that year: neither parser reads such a text. On other texts the parsers
/// decide, and they read against the clock, so the day is not a function of
/// the text. Whatever day comes back is a day of the calendar.
pub fn parse_publish_date(text: &str) -> (r: Option<CalendarDate>)
    ensures
        r matches Some(day) ==> day.wf(),
        bare_year_day(text@) is Some ==> r == bare_year_day(text@),
        !general_text(text@) && !human_text(text@) ==> r == bare_year_day(text@),
{
    let general = if is_general_text(text) {
        parse_general_day(text)
    } else {
        None
    };
    let human = if general.is_none() && is_human_text(text) {
        parse_human_time(text)
    } else {
        None
    };
    let bare_year = if general.is_none() && human.is_none() {
        parse_bare_year(text)
    } else {
        None
    };
    settle_date(general, human, bare_year)
}

} // verus!
