//! Temporal host types: calendar dates, times of day and timestamps.
//!
//! The native layer marshals temporal columns as character data, so these
//! types encode to and decode from their fixed-width textual forms
//! (`YYYY-MM-DD`, `HH:MM:SS`, `YYYY-MM-DD HH:MM:SS`), and decoding is proved
//! to invert encoding.

use vstd::prelude::*;
use vstd::string::{StrSliceExecFns, StringExecFns};
use vstd::arithmetic::div_mod::{lemma_fundamental_div_mod, lemma_div_denominator, lemma_small_mod};
use crate::text::{spec_digit_char, spec_char_digit, char_digit, spec_two_digits, spec_four_digits,
    append_two_digits, append_four_digits, lemma_char_digit_of_digit_char};
use crate::types::{MimerDatatype, SqlValue, ToSql, FromSql};
use crate::codes::ERR_UNSUPPORTED_CONVERSION;

verus! {

// ---------------------------------------------------------------------------
// The calendar.
// ---------------------------------------------------------------------------

/// A year is a leap year when divisible by four, except century years not
/// divisible by four hundred.
pub open spec fn spec_is_leap_year(year: nat) -> bool {
    year % 4 == 0 && (year % 100 != 0 || year % 400 == 0)
}

/// Decides whether a year is a leap year.
pub fn is_leap_year(year: u32) -> (r: bool)
    ensures
        r == spec_is_leap_year(year as nat),
{
    year % 4 == 0 && (year % 100 != 0 || year % 400 == 0)
}

/// The number of days of a month in a given year.
pub open spec fn spec_days_in_month(year: nat, month: nat) -> nat {
    if month == 2 {
        if spec_is_leap_year(year) {
            29
        } else {
            28
        }
    } else if month == 4 || month == 6 || month == 9 || month == 11 {
        30
    } else {
        31
    }
}

/// Returns the number of days of a month in a given year.
pub fn days_in_month(year: u32, month: u32) -> (r: u32)
    ensures
        r as nat == spec_days_in_month(year as nat, month as nat),
{
    if month == 2 {
        if is_leap_year(year) {
            29
        } else {
            28
        }
    } else if month == 4 || month == 6 || month == 9 || month == 11 {
        30
    } else {
        31
    }
}

// ---------------------------------------------------------------------------
// Reading fixed-width digit groups.
// ---------------------------------------------------------------------------

/// The value of two digit characters at a position, if both are digits.
pub open spec fn spec_two_digit_value(s: Seq<char>, at: int) -> Option<u32> {
    match (spec_char_digit(s[at]), spec_char_digit(s[at + 1])) {
        (Some(a), Some(b)) => Some((10 * a + b) as u32),
        _ => None,
    }
}

/// The value of four digit characters at a position, if all are digits.
pub open spec fn spec_four_digit_value(s: Seq<char>, at: int) -> Option<u32> {
    match (
        spec_char_digit(s[at]),
        spec_char_digit(s[at + 1]),
        spec_char_digit(s[at + 2]),
        spec_char_digit(s[at + 3]),
    ) {
        (Some(a), Some(b), Some(c), Some(d)) => Some((1000 * a + 100 * b + 10 * c + d) as u32),
        _ => None,
    }
}

/// Reads two digit characters at a position.
fn read_two_digits(s: &str, at: usize) -> (r: Option<u32>)
    requires
        at + 2 <= s@.len(),
        s@.len() <= usize::MAX,
    ensures
        r == spec_two_digit_value(s@, at as int),
{
    let c0 = char_digit(s.get_char(at));
    let c1 = char_digit(s.get_char(at + 1));
    match (c0, c1) {
        (Some(a), Some(b)) => Some(10 * a + b),
        _ => None,
    }
}

/// Reads four digit characters at a position.
fn read_four_digits(s: &str, at: usize) -> (r: Option<u32>)
    requires
        at + 4 <= s@.len(),
        s@.len() <= usize::MAX,
    ensures
        r == spec_four_digit_value(s@, at as int),
{
    let c0 = char_digit(s.get_char(at));
    let c1 = char_digit(s.get_char(at + 1));
    let c2 = char_digit(s.get_char(at + 2));
    let c3 = char_digit(s.get_char(at + 3));
    match (c0, c1, c2, c3) {
        (Some(a), Some(b), Some(c), Some(d)) => Some(1000 * a + 100 * b + 10 * c + d),
        _ => None,
    }
}

/// A value below ten thousand is the weighted sum of its four decimal digits.
proof fn lemma_decompose_four_digits(n: nat)
    requires
        n < 10000,
    ensures
        1000 * (n / 1000 % 10) + 100 * (n / 100 % 10) + 10 * (n / 10 % 10) + n % 10 == n,
{
    lemma_fundamental_div_mod(n as int, 10);
    lemma_fundamental_div_mod(n as int / 10, 10);
    lemma_fundamental_div_mod(n as int / 100, 10);
    lemma_div_denominator(n as int, 10, 10);
    lemma_div_denominator(n as int, 100, 10);
    lemma_small_mod(n / 1000, 10);
}

/// A value below one hundred is the weighted sum of its two decimal digits.
proof fn lemma_decompose_two_digits(n: nat)
    requires
        n < 100,
    ensures
        10 * (n / 10 % 10) + n % 10 == n,
{
    lemma_fundamental_div_mod(n as int, 10);
    lemma_small_mod(n / 10, 10);
}

/// Reading back a two-digit rendering yields the value.
proof fn lemma_two_digit_value_of_two_digits(s: Seq<char>, at: int, n: nat)
    requires
        n < 100,
        0 <= at,
        at + 2 <= s.len(),
        s.subrange(at, at + 2) == spec_two_digits(n),
    ensures
        spec_two_digit_value(s, at) == Some(n as u32),
{
    assert(s[at] == spec_two_digits(n)[0]);
    assert(s[at + 1] == spec_two_digits(n)[1]);
    lemma_char_digit_of_digit_char(n / 10 % 10);
    lemma_char_digit_of_digit_char(n % 10);
    lemma_decompose_two_digits(n);
}

/// Reading back a four-digit rendering yields the value.
proof fn lemma_four_digit_value_of_four_digits(s: Seq<char>, at: int, n: nat)
    requires
        n < 10000,
        0 <= at,
        at + 4 <= s.len(),
        s.subrange(at, at + 4) == spec_four_digits(n),
    ensures
        spec_four_digit_value(s, at) == Some(n as u32),
{
    assert(s[at] == spec_four_digits(n)[0]);
    assert(s[at + 1] == spec_four_digits(n)[1]);
    assert(s[at + 2] == spec_four_digits(n)[2]);
    assert(s[at + 3] == spec_four_digits(n)[3]);
    lemma_char_digit_of_digit_char(n / 1000 % 10);
    lemma_char_digit_of_digit_char(n / 100 % 10);
    lemma_char_digit_of_digit_char(n / 10 % 10);
    lemma_char_digit_of_digit_char(n % 10);
    lemma_decompose_four_digits(n);
}

// ---------------------------------------------------------------------------
// Date.
// ---------------------------------------------------------------------------

/// A calendar date. Every value is valid by construction: the year is between
/// 1 and 9999, the month between 1 and 12, and the day within the month.
#[derive(Debug, Clone, Copy, PartialEq, Eq, Structural)]
pub struct Date {
    year: u32,
    month: u32,
    day: u32,
}

impl Date {
    /// The year of this date.
    pub closed spec fn spec_year(self) -> u32 {
        self.year
    }

    /// The month of this date.
    pub closed spec fn spec_month(self) -> u32 {
        self.month
    }

    /// The day of this date.
    pub closed spec fn spec_day(self) -> u32 {
        self.day
    }

    /// The date as its year, month and day.
    pub open spec fn spec_ymd(self) -> (u32, u32, u32) {
        (self.spec_year(), self.spec_month(), self.spec_day())
    }

    /// A date is well-formed when it denotes a day of the calendar between
    /// the years 1 and 9999.
    #[verifier::type_invariant]
    pub open spec fn wf(self) -> bool {
        &&& 1 <= self.spec_year() <= 9999
        &&& 1 <= self.spec_month() <= 12
        &&& 1 <= self.spec_day() <= spec_days_in_month(
            self.spec_year() as nat,
            self.spec_month() as nat,
        )
    }

    /// Builds a date from a year, month and day; rejects anything outside
    /// the calendar.
    pub fn from_ymd(year: u32, month: u32, day: u32) -> (r: Option<Date>)
        ensures
            r is Some <==> {
                &&& 1 <= year <= 9999
                &&& 1 <= month <= 12
                &&& 1 <= day <= spec_days_in_month(year as nat, month as nat)
            },
            r matches Some(d) ==> d.spec_ymd() == (year, month, day),
    {
        if 1 <= year && year <= 9999 && 1 <= month && month <= 12 && 1 <= day && day
            <= days_in_month(year, month) {
            Some(Date { year, month, day })
        } else {
            None
        }
    }

    /// The year of this date.
    pub fn year(&self) -> (r: u32)
        ensures
            r == self.spec_year(),
    {
        self.year
    }

    /// The month of this date.
    pub fn month(&self) -> (r: u32)
        ensures
            r == self.spec_month(),
    {
        self.month
    }

    /// The day of this date.
    pub fn day(&self) -> (r: u32)
        ensures
            r == self.spec_day(),
    {
        self.day
    }
}

impl DeepView for Date {
    type V = (u32, u32, u32);

    open spec fn deep_view(&self) -> (u32, u32, u32) {
        self.spec_ymd()
    }
}

/// The fixed-width textual form of a date.
pub open spec fn spec_format_date(d: Date) -> Seq<char> {
    spec_four_digits(d.spec_year() as nat) + seq!['-'] + spec_two_digits(d.spec_month() as nat)
        + seq!['-'] + spec_two_digits(d.spec_day() as nat)
}

/// Renders a date in its fixed-width textual form.
pub fn format_date(d: &Date) -> (s: String)
    ensures
        s@ == spec_format_date(*d),
{
    proof {
        use_type_invariant(&*d);
        reveal_strlit("-");
    }
    let mut s = String::new();
    append_four_digits(&mut s, d.year);
    s.append("-");
    append_two_digits(&mut s, d.month);
    s.append("-");
    append_two_digits(&mut s, d.day);
    proof {
        assert(s@ =~= spec_format_date(*d));
    }
    s
}

/// The year, month and day groups read from a date's textual form, before
/// calendar validation.
pub open spec fn spec_parse_ymd(s: Seq<char>) -> Option<(u32, u32, u32)> {
    if s.len() == 10 && s[4] == '-' && s[7] == '-' {
        match (
            spec_four_digit_value(s, 0),
            spec_two_digit_value(s, 5),
            spec_two_digit_value(s, 8),
        ) {
            (Some(y), Some(m), Some(d)) => Some((y, m, d)),
            _ => None,
        }
    } else {
        None
    }
}

/// What parsing a date's textual form yields: the digit groups where the
/// shape fits and the groups denote a day of the calendar, nothing else.
pub open spec fn spec_parse_date(s: Seq<char>) -> Option<(u32, u32, u32)> {
    match spec_parse_ymd(s) {
        Some((y, m, d)) => if 1 <= y <= 9999 && 1 <= m <= 12 && 1 <= d <= spec_days_in_month(
            y as nat,
            m as nat,
        ) {
            Some((y, m, d))
        } else {
            None
        },
        None => None,
    }
}

/// Parses a date from its fixed-width textual form.
pub fn parse_date(s: &str) -> (r: Option<Date>)
    ensures
        r is Some <==> spec_parse_date(s@) is Some,
        r matches Some(d) ==> spec_parse_date(s@) == Some(d.spec_ymd()),
{
    let n = s.unicode_len();
    if n != 10 {
        return None;
    }
    if s.get_char(4) != '-' || s.get_char(7) != '-' {
        return None;
    }
    let year = match read_four_digits(s, 0) {
        Some(v) => v,
        None => {
            return None;
        },
    };
    let month = match read_two_digits(s, 5) {
        Some(v) => v,
        None => {
            return None;
        },
    };
    let day = match read_two_digits(s, 8) {
        Some(v) => v,
        None => {
            return None;
        },
    };
    Date::from_ymd(year, month, day)
}

/// Parsing a rendered date yields the date back.
pub proof fn lemma_date_text_round_trip(d: Date)
    requires
        d.wf(),
    ensures
        spec_parse_date(spec_format_date(d)) == Some(d.spec_ymd()),
{
    let s = spec_format_date(d);
    assert(s.len() == 10);
    assert(s[4] == '-');
    assert(s[7] == '-');
    assert(s.subrange(0, 4) =~= spec_four_digits(d.spec_year() as nat));
    assert(s.subrange(5, 7) =~= spec_two_digits(d.spec_month() as nat));
    assert(s.subrange(8, 10) =~= spec_two_digits(d.spec_day() as nat));
    lemma_four_digit_value_of_four_digits(s, 0, d.spec_year() as nat);
    lemma_two_digit_value_of_two_digits(s, 5, d.spec_month() as nat);
    lemma_two_digit_value_of_two_digits(s, 8, d.spec_day() as nat);
}

impl ToSql for Date {
    open spec fn to_sql_spec(&self) -> SqlValue {
        SqlValue::Text(spec_format_date(*self))
    }

    fn to_sql(&self) -> (r: MimerDatatype) {
        MimerDatatype::String(format_date(self))
    }
}

impl FromSql for Date {
    open spec fn from_sql_spec(value: SqlValue) -> Result<(u32, u32, u32), i32> {
        match value {
            SqlValue::Text(t) => match spec_parse_date(t) {
                Some(ymd) => Ok(ymd),
                None => Err(ERR_UNSUPPORTED_CONVERSION),
            },
            _ => Err(ERR_UNSUPPORTED_CONVERSION),
        }
    }

    fn from_sql(value: MimerDatatype) -> (r: Result<Date, i32>) {
        match value {
            MimerDatatype::String(val) => match parse_date(val.as_str()) {
                Some(d) => Ok(d),
                None => Err(ERR_UNSUPPORTED_CONVERSION),
            },
            _ => Err(ERR_UNSUPPORTED_CONVERSION),
        }
    }
}

/// Decoding an encoded date yields the date back.
pub proof fn lemma_round_trip_date(d: Date)
    requires
        d.wf(),
    ensures
        <Date as FromSql>::from_sql_spec(d.to_sql_spec()) == Ok::<(u32, u32, u32), i32>(
            d.spec_ymd(),
        ),
{
    lemma_date_text_round_trip(d);
}

// ---------------------------------------------------------------------------
// Time.
// ---------------------------------------------------------------------------

/// A time of day with whole-second resolution. Every value is valid by
/// construction.
#[derive(Debug, Clone, Copy, PartialEq, Eq, Structural)]
pub struct Time {
    hour: u32,
    minute: u32,
    second: u32,
}

impl Time {
    /// The hour of this time.
    pub closed spec fn spec_hour(self) -> u32 {
        self.hour
    }

    /// The minute of this time.
    pub closed spec fn spec_minute(self) -> u32 {
        self.minute
    }

    /// The second of this time.
    pub closed spec fn spec_second(self) -> u32 {
        self.second
    }

    /// The time as its hour, minute and second.
    pub open spec fn spec_hms(self) -> (u32, u32, u32) {
        (self.spec_hour(), self.spec_minute(), self.spec_second())
    }

    /// A time is well-formed when each component is within a day.
    #[verifier::type_invariant]
    pub open spec fn wf(self) -> bool {
        self.spec_hour() <= 23 && self.spec_minute() <= 59 && self.spec_second() <= 59
    }

    /// Builds a time of day; rejects components outside a day.
    pub fn from_hms(hour: u32, minute: u32, second: u32) -> (r: Option<Time>)
        ensures
            r is Some <==> (hour <= 23 && minute <= 59 && second <= 59),
            r matches Some(t) ==> t.spec_hms() == (hour, minute, second),
    {
        if hour <= 23 && minute <= 59 && second <= 59 {
            Some(Time { hour, minute, second })
        } else {
            None
        }
    }

    /// The hour of this time.
    pub fn hour(&self) -> (r: u32)
        ensures
            r == self.spec_hour(),
    {
        self.hour
    }

    /// The minute of this time.
    pub fn minute(&self) -> (r: u32)
        ensures
            r == self.spec_minute(),
    {
        self.minute
    }

    /// The second of this time.
    pub fn second(&self) -> (r: u32)
        ensures
            r == self.spec_second(),
    {
        self.second
    }
}

impl DeepView for Time {
    type V = (u32, u32, u32);

    open spec fn deep_view(&self) -> (u32, u32, u32) {
        self.spec_hms()
    }
}

/// The fixed-width textual form of a time of day.
pub open spec fn spec_format_time(t: Time) -> Seq<char> {
    spec_two_digits(t.spec_hour() as nat) + seq![':'] + spec_two_digits(t.spec_minute() as nat)
        + seq![':'] + spec_two_digits(t.spec_second() as nat)
}

/// Renders a time in its fixed-width textual form.
pub fn format_time(t: &Time) -> (s: String)
    ensures
        s@ == spec_format_time(*t),
{
    proof {
        use_type_invariant(&*t);
        reveal_strlit(":");
    }
    let mut s = String::new();
    append_two_digits(&mut s, t.hour);
    s.append(":");
    append_two_digits(&mut s, t.minute);
    s.append(":");
    append_two_digits(&mut s, t.second);
    proof {
        assert(s@ =~= spec_format_time(*t));
    }
    s
}

/// What parsing a time's textual form yields: the digit groups where the
/// shape fits and the groups lie within a day, nothing else.
pub open spec fn spec_parse_time(s: Seq<char>) -> Option<(u32, u32, u32)> {
    if s.len() == 8 && s[2] == ':' && s[5] == ':' {
        match (
            spec_two_digit_value(s, 0),
            spec_two_digit_value(s, 3),
            spec_two_digit_value(s, 6),
        ) {
            (Some(h), Some(m), Some(sec)) => if h <= 23 && m <= 59 && sec <= 59 {
                Some((h, m, sec))
            } else {
                None
            },
            _ => None,
        }
    } else {
        None
    }
}

/// Parses a time from its fixed-width textual form.
pub fn parse_time(s: &str) -> (r: Option<Time>)
    ensures
        r is Some <==> spec_parse_time(s@) is Some,
        r matches Some(t) ==> spec_parse_time(s@) == Some(t.spec_hms()),
{
    let n = s.unicode_len();
    if n != 8 {
        return None;
    }
    if s.get_char(2) != ':' || s.get_char(5) != ':' {
        return None;
    }
    let hour = match read_two_digits(s, 0) {
        Some(v) => v,
        None => {
            return None;
        },
    };
    let minute = match read_two_digits(s, 3) {
        Some(v) => v,
        None => {
            return None;
        },
    };
    let second = match read_two_digits(s, 6) {
        Some(v) => v,
        None => {
            return None;
        },
    };
    Time::from_hms(hour, minute, second)
}

/// Parsing a rendered time yields the time back.
pub proof fn lemma_time_text_round_trip(t: Time)
    requires
        t.wf(),
    ensures
        spec_parse_time(spec_format_time(t)) == Some(t.spec_hms()),
{
    let s = spec_format_time(t);
    assert(s.len() == 8);
    assert(s[2] == ':');
    assert(s[5] == ':');
    assert(s.subrange(0, 2) =~= spec_two_digits(t.spec_hour() as nat));
    assert(s.subrange(3, 5) =~= spec_two_digits(t.spec_minute() as nat));
    assert(s.subrange(6, 8) =~= spec_two_digits(t.spec_second() as nat));
    lemma_two_digit_value_of_two_digits(s, 0, t.spec_hour() as nat);
    lemma_two_digit_value_of_two_digits(s, 3, t.spec_minute() as nat);
    lemma_two_digit_value_of_two_digits(s, 6, t.spec_second() as nat);
}

impl ToSql for Time {
    open spec fn to_sql_spec(&self) -> SqlValue {
        SqlValue::Text(spec_format_time(*self))
    }

    fn to_sql(&self) -> (r: MimerDatatype) {
        MimerDatatype::String(format_time(self))
    }
}

impl FromSql for Time {
    open spec fn from_sql_spec(value: SqlValue) -> Result<(u32, u32, u32), i32> {
        match value {
            SqlValue::Text(t) => match spec_parse_time(t) {
                Some(hms) => Ok(hms),
                None => Err(ERR_UNSUPPORTED_CONVERSION),
            },
            _ => Err(ERR_UNSUPPORTED_CONVERSION),
        }
    }

    fn from_sql(value: MimerDatatype) -> (r: Result<Time, i32>) {
        match value {
            MimerDatatype::String(val) => match parse_time(val.as_str()) {
                Some(t) => Ok(t),
                None => Err(ERR_UNSUPPORTED_CONVERSION),
            },
            _ => Err(ERR_UNSUPPORTED_CONVERSION),
        }
    }
}

/// Decoding an encoded time yields the time back.
pub proof fn lemma_round_trip_time(t: Time)
    requires
        t.wf(),
    ensures
        <Time as FromSql>::from_sql_spec(t.to_sql_spec()) == Ok::<(u32, u32, u32), i32>(
            t.spec_hms(),
        ),
{
    lemma_time_text_round_trip(t);
}

// ---------------------------------------------------------------------------
// Timestamp.
// ---------------------------------------------------------------------------

/// The parts of a timestamp: a date's year, month and day, then a time's
/// hour, minute and second.
pub type TimestampParts = ((u32, u32, u32), (u32, u32, u32));

/// A calendar date paired with a time of day.
#[derive(Debug, Clone, Copy, PartialEq, Eq, Structural)]
pub struct Timestamp {
    pub date: Date,
    pub time: Time,
}

impl DeepView for Timestamp {
    type V = TimestampParts;

    open spec fn deep_view(&self) -> TimestampParts {
        (self.date.spec_ymd(), self.time.spec_hms())
    }
}

/// The fixed-width textual form of a timestamp: the date, one space, the
/// time.
pub open spec fn spec_format_timestamp(t: Timestamp) -> Seq<char> {
    spec_format_date(t.date) + seq![' '] + spec_format_time(t.time)
}

/// Renders a timestamp in its fixed-width textual form.
pub fn format_timestamp(t: &Timestamp) -> (s: String)
    ensures
        s@ == spec_format_timestamp(*t),
{
    proof {
        reveal_strlit(" ");
    }
    let mut s = format_date(&t.date);
    s.append(" ");
    let time_part = format_time(&t.time);
    s.append(time_part.as_str());
    proof {
        assert(s@ =~= spec_format_timestamp(*t));
    }
    s
}

/// What parsing a timestamp's textual form yields.
pub open spec fn spec_parse_timestamp(s: Seq<char>) -> Option<TimestampParts> {
    if s.len() == 19 && s[10] == ' ' {
        match (spec_parse_date(s.subrange(0, 10)), spec_parse_time(s.subrange(11, 19))) {
            (Some(ymd), Some(hms)) => Some((ymd, hms)),
            _ => None,
        }
    } else {
        None
    }
}

/// Parses a timestamp from its fixed-width textual form.
pub fn parse_timestamp(s: &str) -> (r: Option<Timestamp>)
    ensures
        r is Some <==> spec_parse_timestamp(s@) is Some,
        r matches Some(t) ==> spec_parse_timestamp(s@) == Some(t.deep_view()),
{
    let n = s.unicode_len();
    if n != 19 {
        return None;
    }
    if s.get_char(10) != ' ' {
        return None;
    }
    let date_part = s.substring_char(0, 10);
    let time_part = s.substring_char(11, 19);
    let date = match parse_date(date_part) {
        Some(d) => d,
        None => {
            return None;
        },
    };
    let time = match parse_time(time_part) {
        Some(t) => t,
        None => {
            return None;
        },
    };
    Some(Timestamp { date, time })
}

/// Parsing a rendered timestamp yields the timestamp back.
pub proof fn lemma_timestamp_text_round_trip(t: Timestamp)
    requires
        t.date.wf(),
        t.time.wf(),
    ensures
        spec_parse_timestamp(spec_format_timestamp(t)) == Some(t.deep_view()),
{
    let s = spec_format_timestamp(t);
    assert(s.len() == 19);
    assert(s[10] == ' ');
    assert(s.subrange(0, 10) =~= spec_format_date(t.date));
    assert(s.subrange(11, 19) =~= spec_format_time(t.time));
    lemma_date_text_round_trip(t.date);
    lemma_time_text_round_trip(t.time);
}

impl ToSql for Timestamp {
    open spec fn to_sql_spec(&self) -> SqlValue {
        SqlValue::Text(spec_format_timestamp(*self))
    }

    fn to_sql(&self) -> (r: MimerDatatype) {
        MimerDatatype::String(format_timestamp(self))
    }
}

impl FromSql for Timestamp {
    open spec fn from_sql_spec(value: SqlValue) -> Result<TimestampParts, i32> {
        match value {
            SqlValue::Text(t) => match spec_parse_timestamp(t) {
                Some(parts) => Ok(parts),
                None => Err(ERR_UNSUPPORTED_CONVERSION),
            },
            _ => Err(ERR_UNSUPPORTED_CONVERSION),
        }
    }

    fn from_sql(value: MimerDatatype) -> (r: Result<Timestamp, i32>) {
        match value {
            MimerDatatype::String(val) => match parse_timestamp(val.as_str()) {
                Some(t) => Ok(t),
                None => Err(ERR_UNSUPPORTED_CONVERSION),
            },
            _ => Err(ERR_UNSUPPORTED_CONVERSION),
        }
    }
}

/// Decoding an encoded timestamp yields the timestamp back.
pub proof fn lemma_round_trip_timestamp(t: Timestamp)
    requires
        t.date.wf(),
        t.time.wf(),
    ensures
        <Timestamp as FromSql>::from_sql_spec(t.to_sql_spec()) == Ok::<TimestampParts, i32>(
            t.deep_view(),
        ),
{
    lemma_timestamp_text_round_trip(t);
}

} // verus!
