//! The temporal parser: decodes textual timestamps of the fixed shape
//! `YYYY-MM-DD HH:MM:SS` into a comparable, arithmetic-capable time value,
//! and computes signed second differences between two such values.
//!
//! Times are timezone-naive and second-resolution, on the proleptic
//! Gregorian calendar. Day arithmetic counts days from year 0, January 1,
//! which falls on a Saturday.

use vstd::prelude::*;

verus! {

/// A decoded, timezone-naive, second-resolution timestamp.
#[derive(Clone, Copy, Debug, PartialEq, Eq, Structural)]
pub struct ParsedTime {
    pub year: u32,
    pub month: u32,
    pub day: u32,
    pub hour: u32,
    pub minute: u32,
    pub second: u32,
}

/// Why a timestamp text was rejected.
#[derive(Clone, Copy, Debug, PartialEq, Eq, Structural)]
pub enum ParseError {
    /// The text is not of the shape `YYYY-MM-DD HH:MM:SS`.
    BadFormat,
    /// The text has the right shape but encodes an invalid calendar
    /// date or time of day, such as month 13 or hour 25.
    BadValue,
}

/// Gregorian leap year rule.
pub open spec fn is_leap_year(y: int) -> bool {
    (y % 4 == 0 && y % 100 != 0) || y % 400 == 0
}

/// Number of days in month `m` of year `y`.
pub open spec fn days_in_month(y: int, m: int) -> int {
    if m == 2 {
        if is_leap_year(y) {
            29
        } else {
            28
        }
    } else if m == 4 || m == 6 || m == 9 || m == 11 {
        30
    } else {
        31
    }
}

/// Number of leap years in `[0, y)`.
pub open spec fn leap_years_before(y: int) -> int {
    (y + 3) / 4 - (y + 99) / 100 + (y + 399) / 400
}

/// Number of days in the months of year `y` before month `m`.
pub open spec fn days_before_month(y: int, m: int) -> int {
    (if m <= 1 {
        0int
    } else if m == 2 {
        31
    } else if m == 3 {
        59
    } else if m == 4 {
        90
    } else if m == 5 {
        120
    } else if m == 6 {
        151
    } else if m == 7 {
        181
    } else if m == 8 {
        212
    } else if m == 9 {
        243
    } else if m == 10 {
        273
    } else if m == 11 {
        304
    } else {
        334
    }) + if m > 2 && is_leap_year(y) {
        1int
    } else {
        0int
    }
}

impl ParsedTime {
    /// A well-formed timestamp: a valid proleptic Gregorian calendar date
    /// with a four-digit year and a valid time of day.
    pub open spec fn wf(self) -> bool {
        self.year <= 9999 && 1 <= self.month <= 12 && 1 <= self.day <= days_in_month(
            self.year as int,
            self.month as int,
        ) && self.hour <= 23 && self.minute <= 59 && self.second <= 59
    }
}

/// Days from year 0, January 1 (day 0) to the date of `t`.
pub open spec fn day_index(t: ParsedTime) -> int {
    365 * t.year + leap_years_before(t.year as int) + days_before_month(
        t.year as int,
        t.month as int,
    ) + t.day - 1
}

/// Seconds from year 0, January 1, 00:00:00 to `t`.
pub open spec fn epoch_seconds(t: ParsedTime) -> int {
    86400 * day_index(t) + 3600 * t.hour + 60 * t.minute + t.second
}

/// Weekday of `t`, numbered from Monday: Monday is 1 and Sunday is 7.
/// Day 0 (year 0, January 1) is a Saturday.
pub open spec fn weekday_from_monday(t: ParsedTime) -> int {
    (day_index(t) + 5) % 7 + 1
}

/// Days in month `m` of year `y`, as executable code.
pub fn days_in_month_of(y: u32, m: u32) -> (d: u32)
    requires
        1 <= m <= 12,
    ensures
        d == days_in_month(y as int, m as int),
{
    if m == 2 {
        if (y % 4 == 0 && y % 100 != 0) || y % 400 == 0 {
            29
        } else {
            28
        }
    } else if m == 4 || m == 6 || m == 9 || m == 11 {
        30
    } else {
        31
    }
}

/// Days from year 0, January 1 to the date of `t`, as executable code.
fn day_index_of(t: &ParsedTime) -> (r: i64)
    requires
        t.wf(),
    ensures
        r == day_index(*t),
        0 <= r < 3660000,
{
    let y = t.year as i64;
    let leaps = (y + 3) / 4 - (y + 99) / 100 + (y + 399) / 400;
    let before_month: i64 = if t.month <= 1 {
        0
    } else if t.month == 2 {
        31
    } else if t.month == 3 {
        59
    } else if t.month == 4 {
        90
    } else if t.month == 5 {
        120
    } else if t.month == 6 {
        151
    } else if t.month == 7 {
        181
    } else if t.month == 8 {
        212
    } else if t.month == 9 {
        243
    } else if t.month == 10 {
        273
    } else if t.month == 11 {
        304
    } else {
        334
    };
    let leap_day: i64 = if t.month > 2 && ((t.year % 4 == 0 && t.year % 100 != 0) || t.year % 400
        == 0) {
        1
    } else {
        0
    };
    365 * y + leaps + before_month + leap_day + t.day as i64 - 1
}

impl ParsedTime {
    /// The hour of day of this timestamp, 0 to 23.
    pub fn hour_of_day(&self) -> (h: u32)
        requires
            self.wf(),
        ensures
            h == self.hour,
            h <= 23,
    {
        self.hour
    }

    /// The weekday of this timestamp, numbered from Monday:
    /// Monday is 1 and Sunday is 7.
    pub fn number_from_monday(&self) -> (d: u32)
        requires
            self.wf(),
        ensures
            d == weekday_from_monday(*self),
            1 <= d <= 7,
    {
        let di = day_index_of(self);
        ((di + 5) % 7 + 1) as u32
    }
}

/// Seconds from year 0, January 1, 00:00:00 to `t`, as executable code.
fn epoch_seconds_of(t: &ParsedTime) -> (r: i64)
    requires
        t.wf(),
    ensures
        r == epoch_seconds(*t),
        0 <= r < 0x5000_0000_0000,
{
    let days = day_index_of(t);
    86400 * days + 3600 * t.hour as i64 + 60 * t.minute as i64 + t.second as i64
}

/// Signed difference `b - a` in whole seconds; negative when `b`
/// precedes `a`.
pub fn duration_seconds(a: &ParsedTime, b: &ParsedTime) -> (r: i64)
    requires
        a.wf(),
        b.wf(),
    ensures
        r == epoch_seconds(*b) - epoch_seconds(*a),
{
    epoch_seconds_of(b) - epoch_seconds_of(a)
}

/// An ASCII decimal digit.
pub open spec fn is_digit_char(c: char) -> bool {
    '0' <= c && c <= '9'
}

/// Numeric value of an ASCII decimal digit.
pub open spec fn digit_val(c: char) -> int {
    c as int - '0' as int
}

/// The separator positions of the shape `YYYY-MM-DD HH:MM:SS`.
pub open spec fn sep_at(i: int) -> bool {
    i == 4 || i == 7 || i == 10 || i == 13 || i == 16
}

/// The separator the shape `YYYY-MM-DD HH:MM:SS` demands at position `i`.
pub open spec fn sep_char(i: int) -> char {
    if i == 4 || i == 7 {
        '-'
    } else if i == 10 {
        ' '
    } else {
        ':'
    }
}

/// The text has exactly the shape `YYYY-MM-DD HH:MM:SS`: 19 characters,
/// digits everywhere but at the five separator positions.
pub open spec fn timestamp_shape(s: Seq<char>) -> bool {
    &&& s.len() == 19
    &&& forall|i: int| 0 <= i < 19 && sep_at(i) ==> #[trigger] s[i] == sep_char(i)
    &&& forall|i: int| 0 <= i < 19 && !sep_at(i) ==> is_digit_char(#[trigger] s[i])
}

/// Value of the two digits at positions `i` and `i + 1`.
pub open spec fn two_digits(s: Seq<char>, i: int) -> int {
    10 * digit_val(s[i]) + digit_val(s[i + 1])
}

/// The six numeric fields a text of the timestamp shape encodes.
pub open spec fn ts_value(s: Seq<char>) -> ParsedTime {
    ParsedTime {
        year: (100 * two_digits(s, 0) + two_digits(s, 2)) as u32,
        month: two_digits(s, 5) as u32,
        day: two_digits(s, 8) as u32,
        hour: two_digits(s, 11) as u32,
        minute: two_digits(s, 14) as u32,
        second: two_digits(s, 17) as u32,
    }
}

/// Reads the two-digit number at positions `i` and `i + 1`.
fn read_two(s: &str, i: usize) -> (r: u32)
    requires
        i < 18,
        i + 1 < s@.len(),
        is_digit_char(s@[i as int]),
        is_digit_char(s@[i + 1]),
    ensures
        r == two_digits(s@, i as int),
        r <= 99,
{
    let c0 = s.get_char(i);
    let c1 = s.get_char(i + 1);
    10 * (c0 as u32 - 48) + (c1 as u32 - 48)
}

/// Decodes a text of the exact shape `YYYY-MM-DD HH:MM:SS` into a
/// timestamp. Rejects a text of any other shape with `BadFormat`, and one
/// that encodes an invalid calendar date or time of day with `BadValue`.
pub fn parse_datetime(s: &str) -> (r: Result<ParsedTime, ParseError>)
    ensures
        r is Ok <==> timestamp_shape(s@) && ts_value(s@).wf(),
        r is Ok ==> r->Ok_0 == ts_value(s@),
        !timestamp_shape(s@) ==> r == Err::<ParsedTime, ParseError>(ParseError::BadFormat),
        timestamp_shape(s@) && !ts_value(s@).wf() ==> r == Err::<ParsedTime, ParseError>(
            ParseError::BadValue,
        ),
{
    if s.unicode_len() != 19 {
        return Err(ParseError::BadFormat);
    }
    let mut i: usize = 0;
    while i < 19
        invariant
            s@.len() == 19,
            i <= 19,
            forall|j: int| 0 <= j < i && sep_at(j) ==> #[trigger] s@[j] == sep_char(j),
            forall|j: int| 0 <= j < i && !sep_at(j) ==> is_digit_char(#[trigger] s@[j]),
        decreases 19 - i,
    {
        let c = s.get_char(i);
        let ok = if i == 4 || i == 7 {
            c == '-'
        } else if i == 10 {
            c == ' '
        } else if i == 13 || i == 16 {
            c == ':'
        } else {
            '0' <= c && c <= '9'
        };
        if !ok {
            return Err(ParseError::BadFormat);
        }
        i += 1;
    }
    let year = 100 * read_two(s, 0) + read_two(s, 2);
    let month = read_two(s, 5);
    let day = read_two(s, 8);
    let hour = read_two(s, 11);
    let minute = read_two(s, 14);
    let second = read_two(s, 17);
    let t = ParsedTime { year, month, day, hour, minute, second };
    proof {
        assert(t == ts_value(s@));
    }
    if month < 1 || month > 12 {
        return Err(ParseError::BadValue);
    }
    if day < 1 || day > days_in_month_of(year, month) {
        return Err(ParseError::BadValue);
    }
    if hour > 23 || minute > 59 || second > 59 {
        return Err(ParseError::BadValue);
    }
    Ok(t)
}

/// For any two well-formed timestamps with `b` exactly 1500 seconds after
/// `a`, the duration from `a` to `b` is exactly 1500 seconds, as
/// `duration_seconds` computes it.
pub proof fn lemma_duration_of_offset(a: ParsedTime, b: ParsedTime)
    requires
        a.wf(),
        b.wf(),
        epoch_seconds(b) == epoch_seconds(a) + 1500,
    ensures
        epoch_seconds(b) - epoch_seconds(a) == 1500,
{
}

} // verus!
