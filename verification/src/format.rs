//! The strings that the sign shows for a wall-clock reading.

use crate::timestamp::{day_number, hour_of, minute_of, seconds_in_range, weekday_of, Timestamp};
use vstd::prelude::*;

verus! {

/// How the time is to be written.
#[derive(Clone, Copy, Debug, PartialEq, Eq, Structural)]
pub struct RenderConfig {
    /// Write the hour from 00 to 23, without an AM or PM marker.
    pub use_24_hour: bool,
    /// Write the day of the week before the day of the month, in place of
    /// the month.
    pub show_day_of_week: bool,
}

/// The strings for one reading.
#[derive(Clone, Debug, PartialEq, Eq)]
pub struct TimeStrings {
    /// Hour and minute.
    pub time_string: String,
    /// "AM" or "PM"; absent when the hour is written from 00 to 23.
    pub meridiem_string: Option<String>,
    /// The day of the week or the month, and the day of the month.
    pub date_string: String,
}

/// The characters of a [`TimeStrings`].
pub struct TimeText {
    pub time: Seq<char>,
    pub meridiem: Option<Seq<char>>,
    pub date: Seq<char>,
}

impl View for TimeStrings {
    type V = TimeText;

    open spec fn view(&self) -> TimeText {
        TimeText {
            time: self.time_string@,
            meridiem: match self.meridiem_string {
                Some(m) => Some(m@),
                None => None,
            },
            date: self.date_string@,
        }
    }
}

/// The narrow space, U+2009, that separates the fields of the date.
pub open spec fn thin_space() -> char {
    '\u{2009}'
}

/// The character for the decimal digit `d`.
pub open spec fn digit(d: int) -> char
    recommends
        0 <= d <= 9,
{
    ((d + 48) as u8) as char
}

/// `n` as two decimal digits, with a leading zero below ten.
pub open spec fn two_digits(n: int) -> Seq<char>
    recommends
        0 <= n <= 99,
{
    seq![digit(n / 10), digit(n % 10)]
}

/// `n` in two characters, with a leading space below ten.
pub open spec fn space_padded(n: int) -> Seq<char>
    recommends
        0 <= n <= 99,
{
    seq![if n / 10 == 0 { ' ' } else { digit(n / 10) }, digit(n % 10)]
}

/// The hour on a twelve-hour dial: 12 for hours 0 and 12, else the hour
/// modulo twelve.
pub open spec fn dial_hour(hour: int) -> int {
    if hour % 12 == 0 {
        12
    } else {
        hour % 12
    }
}

/// "HH:MM" with the hour from 00 to 23.
pub open spec fn clock_24(hour: int, minute: int) -> Seq<char> {
    two_digits(hour) + seq![':'] + two_digits(minute)
}

/// "_H:MM" with the hour from 1 to 12, padded with a space.
pub open spec fn clock_12(hour: int, minute: int) -> Seq<char> {
    space_padded(dial_hour(hour)) + seq![':'] + two_digits(minute)
}

/// "AM" before noon, "PM" from noon on.
pub open spec fn meridiem(hour: int) -> Seq<char> {
    if hour < 12 {
        seq!['A', 'M']
    } else {
        seq!['P', 'M']
    }
}

/// The three-letter English name of the day of the week, Sunday = 0.
pub open spec fn weekday_name(weekday: int) -> Seq<char>
    recommends
        0 <= weekday <= 6,
{
    if weekday == 0 {
        seq!['S', 'u', 'n']
    } else if weekday == 1 {
        seq!['M', 'o', 'n']
    } else if weekday == 2 {
        seq!['T', 'u', 'e']
    } else if weekday == 3 {
        seq!['W', 'e', 'd']
    } else if weekday == 4 {
        seq!['T', 'h', 'u']
    } else if weekday == 5 {
        seq!['F', 'r', 'i']
    } else {
        seq!['S', 'a', 't']
    }
}

/// The three-letter English name of the month, January = 1.
pub open spec fn month_name(month: int) -> Seq<char>
    recommends
        1 <= month <= 12,
{
    if month == 1 {
        seq!['J', 'a', 'n']
    } else if month == 2 {
        seq!['F', 'e', 'b']
    } else if month == 3 {
        seq!['M', 'a', 'r']
    } else if month == 4 {
        seq!['A', 'p', 'r']
    } else if month == 5 {
        seq!['M', 'a', 'y']
    } else if month == 6 {
        seq!['J', 'u', 'n']
    } else if month == 7 {
        seq!['J', 'u', 'l']
    } else if month == 8 {
        seq!['A', 'u', 'g']
    } else if month == 9 {
        seq!['S', 'e', 'p']
    } else if month == 10 {
        seq!['O', 'c', 't']
    } else if month == 11 {
        seq!['N', 'o', 'v']
    } else {
        seq!['D', 'e', 'c']
    }
}

/// A space, the name of the day of the week, a narrow space and the day of
/// the month in two digits.
pub open spec fn weekday_date(weekday: int, day: int) -> Seq<char> {
    seq![' '] + weekday_name(weekday) + seq![thin_space()] + two_digits(day)
}

/// A space, the name of the month, a narrow space and the day of the month
/// in two digits.
pub open spec fn month_date(month: int, day: int) -> Seq<char> {
    seq![' '] + month_name(month) + seq![thin_space()] + two_digits(day)
}

/// The pattern for [`clock_24`].
pub open spec fn clock_24_pattern() -> Seq<char> {
    "%H:%M"@
}

/// The pattern for [`clock_12`].
pub open spec fn clock_12_pattern() -> Seq<char> {
    "%_I:%M"@
}

/// The pattern for [`meridiem`].
pub open spec fn meridiem_pattern() -> Seq<char> {
    "%p"@
}

/// The pattern for [`weekday_date`].
pub open spec fn weekday_date_pattern() -> Seq<char> {
    " %a\u{2009}%d"@
}

/// The pattern for [`month_date`].
pub open spec fn month_date_pattern() -> Seq<char> {
    " %b\u{2009}%d"@
}

/// Whether `pattern` is one of the five patterns that this crate formats with.
pub open spec fn known_pattern(pattern: Seq<char>) -> bool {
    ||| pattern == clock_24_pattern()
    ||| pattern == clock_12_pattern()
    ||| pattern == meridiem_pattern()
    ||| pattern == weekday_date_pattern()
    ||| pattern == month_date_pattern()
}

/// What a known pattern stands for, given the fields of a reading.
pub open spec fn pattern_text(
    pattern: Seq<char>,
    hour: int,
    minute: int,
    weekday: int,
    month: int,
    day: int,
) -> Seq<char>
    recommends
        known_pattern(pattern),
{
    if pattern == clock_24_pattern() {
        clock_24(hour, minute)
    } else if pattern == clock_12_pattern() {
        clock_12(hour, minute)
    } else if pattern == meridiem_pattern() {
        meridiem(hour)
    } else if pattern == weekday_date_pattern() {
        weekday_date(weekday, day)
    } else {
        month_date(month, day)
    }
}

/// The month, 1 to 12, and the day of the month, 1 to 31, of the day with
/// number `day`, in the proleptic Gregorian calendar as chrono computes it.
pub uninterp spec fn calendar_date(day: int) -> (int, int);

/// `ch` in upper case when it is one of the letters 'a' to 'z', else `ch`.
pub open spec fn upper_case_letter(ch: char) -> char {
    if 'a' <= ch <= 'z' {
        ((ch as u8) - 32) as u8 as char
    } else {
        ch
    }
}

/// `text` with each of the letters 'a' to 'z' in upper case.
pub open spec fn upper_case(text: Seq<char>) -> Seq<char> {
    Seq::new(text.len(), |i: int| upper_case_letter(text[i]))
}

/// Calls chrono's `DateTime::from_timestamp`, `NaiveDateTime::format` and
/// `to_string`.
///
/// Trusted: for the five patterns of this crate the text is what chrono's
/// table of specifiers promises. `%H`, `%M` and `%d` are two digits with a
/// leading zero, `%_I` is the hour of the twelve-hour dial with a leading space,
/// `%p` is "AM" or "PM", `%a` and `%b` are the three-letter English names,
/// and every other character stands for itself. The hour, the minute and the
/// day of the week follow from the count of seconds; the month and the day
/// of the month are the ones chrono's calendar gives.
#[verifier::external_body]
fn strftime(seconds: i64, nanos: u32, pattern: &str) -> (text: String)
    requires
        seconds_in_range(seconds as int),
        nanos < 1_000_000_000,
        known_pattern(pattern@),
    ensures
        text@ == pattern_text(
            pattern@,
            hour_of(seconds as int),
            minute_of(seconds as int),
            weekday_of(seconds as int),
            calendar_date(day_number(seconds as int)).0,
            calendar_date(day_number(seconds as int)).1,
        ),
{
    chrono::DateTime::from_timestamp(seconds, nanos).unwrap().naive_utc().format(pattern).to_string()
}

/// Calls `str::to_ascii_uppercase`.
///
/// Trusted: the letters 'a' to 'z' come back as 'A' to 'Z', and every other
/// character, the narrow space among them, as it is.
#[verifier::external_body]
fn to_upper_case(text: &str) -> (upper: String)
    ensures
        upper@ == upper_case(text@),
{
    text.to_ascii_uppercase()
}

/// The text of the date before it is put in upper case.
pub open spec fn date_text(seconds: int, show_day_of_week: bool) -> Seq<char> {
    let (month, day) = calendar_date(day_number(seconds));
    if show_day_of_week {
        weekday_date(weekday_of(seconds), day)
    } else {
        month_date(month, day)
    }
}

/// The strings for the reading at second `seconds` under `config`.
pub open spec fn time_text(seconds: int, config: RenderConfig) -> TimeText {
    TimeText {
        time: if config.use_24_hour {
            clock_24(hour_of(seconds), minute_of(seconds))
        } else {
            clock_12(hour_of(seconds), minute_of(seconds))
        },
        meridiem: if config.use_24_hour {
            None
        } else {
            Some(meridiem(hour_of(seconds)))
        },
        date: upper_case(date_text(seconds, config.show_day_of_week)),
    }
}

/// The five patterns differ from one another.
proof fn patterns_differ()
    ensures
        clock_12_pattern() != clock_24_pattern(),
        meridiem_pattern() != clock_24_pattern(),
        meridiem_pattern() != clock_12_pattern(),
        weekday_date_pattern() != clock_24_pattern(),
        weekday_date_pattern() != clock_12_pattern(),
        weekday_date_pattern() != meridiem_pattern(),
        month_date_pattern() != clock_24_pattern(),
        month_date_pattern() != clock_12_pattern(),
        month_date_pattern() != meridiem_pattern(),
        month_date_pattern() != weekday_date_pattern(),
{
    reveal_strlit("%H:%M");
    reveal_strlit("%_I:%M");
    reveal_strlit("%p");
    reveal_strlit(" %a\u{2009}%d");
    reveal_strlit(" %b\u{2009}%d");
    assert(clock_24_pattern().len() == 5);
    assert(clock_12_pattern().len() == 6);
    assert(meridiem_pattern().len() == 2);
    assert(clock_12_pattern()[1] == '_');
    assert(weekday_date_pattern()[1] == '%');
    assert(month_date_pattern()[1] == '%');
    assert(weekday_date_pattern()[2] == 'a');
    assert(month_date_pattern()[2] == 'b');
}

/// Writes the reading `now` as the sign shows it.
///
/// The time is "HH:MM" with the hour from 00 to 23, or "_H:MM" with the hour
/// from 1 to 12 and a leading space. The AM or PM marker is there exactly
/// when the hour is written from 1 to 12. The date is in upper case: a
/// space, the day of the week or the month, a narrow space, the day of the
/// month.
pub fn format_time(now: &Timestamp, config: &RenderConfig) -> (out: TimeStrings)
    ensures
        out@ == time_text(now.seconds(), *config),
        out.meridiem_string is None <==> config.use_24_hour,
{
    let seconds = now.unix_seconds();
    let nanos = now.subsec_nanos();
    proof {
        patterns_differ();
    }
    let date = if config.show_day_of_week {
        strftime(seconds, nanos, " %a\u{2009}%d")
    } else {
        strftime(seconds, nanos, " %b\u{2009}%d")
    };
    let date_string = to_upper_case(date.as_str());
    if config.use_24_hour {
        let time_string = strftime(seconds, nanos, "%H:%M");
        TimeStrings { time_string, meridiem_string: None, date_string }
    } else {
        let time_string = strftime(seconds, nanos, "%_I:%M");
        let meridiem_string = Some(strftime(seconds, nanos, "%p"));
        TimeStrings { time_string, meridiem_string, date_string }
    }
}

/// Formatting is a function of the reading and the configuration: two
/// results for the same reading under the same configuration hold the same
/// strings.
pub proof fn format_time_is_deterministic(
    now: Timestamp,
    config: RenderConfig,
    first: TimeStrings,
    second: TimeStrings,
)
    requires
        first@ == time_text(now.seconds(), config),
        second@ == time_text(now.seconds(), config),
    ensures
        first.time_string@ == second.time_string@,
        first.meridiem_string is Some == second.meridiem_string is Some,
        first.meridiem_string is Some ==> first.meridiem_string->0@ == second.meridiem_string->0@,
        first.date_string@ == second.date_string@,
{
}

/// The marker is absent when the hour is written from 00 to 23 and present
/// otherwise.
pub proof fn meridiem_only_on_twelve_hour_dial(seconds: int, config: RenderConfig)
    ensures
        time_text(seconds, config).meridiem is None <==> config.use_24_hour,
        !config.use_24_hour ==> time_text(seconds, config).meridiem == Some(seq!['A', 'M'])
            || time_text(seconds, config).meridiem == Some(seq!['P', 'M']),
{
}

} // verus!
