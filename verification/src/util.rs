use vstd::prelude::*;
use vstd::string::*;

use chrono::{Datelike, Timelike};

use crate::TodoError;

verus! {

/// A calendar date and time of day, understood as UTC.
///
/// This is the timestamp type every todo carries; validity (a real calendar
/// date with in-range time fields, year at most 9999) is `DateTime::valid`.
#[derive(Clone, Copy, Debug, PartialEq, Eq, Structural)]
pub struct DateTime {
    pub year: u32,
    pub month: u32,
    pub day: u32,
    pub hour: u32,
    pub minute: u32,
    pub second: u32,
}

pub open spec fn is_leap_year(y: int) -> bool {
    (y % 4 == 0 && y % 100 != 0) || y % 400 == 0
}

pub open spec fn days_in_month(y: int, m: int) -> int {
    if m == 2 {
        if is_leap_year(y) {
            29
        } else {
            28
        }
    } else if m == 4 || m == 6 || m == 9 || m == 11 {
        30
    } else {
        31
    }
}

impl DateTime {
    /// A real calendar date (proleptic Gregorian, year 0 through 9999)
    /// with a time of day in range.
    pub open spec fn valid(self) -> bool {
        &&& self.year <= 9999
        &&& 1 <= self.month <= 12
        &&& 1 <= self.day <= days_in_month(self.year as int, self.month as int)
        &&& self.hour <= 23
        &&& self.minute <= 59
        &&& self.second <= 59
    }

    /// Runtime check for `valid`.
    pub fn check_valid(&self) -> (b: bool)
        ensures
            b == self.valid(),
    {
        self.year <= 9999 && 1 <= self.month && self.month <= 12 && 1 <= self.day
            && self.day <= days_in_month_exec(self.year, self.month) && self.hour <= 23
            && self.minute <= 59 && self.second <= 59
    }

    /// `self` is no later than `other`: lexicographic on
    /// (year, month, day, hour, minute, second).
    pub open spec fn spec_le(self, other: DateTime) -> bool {
        if self.year != other.year {
            self.year < other.year
        } else if self.month != other.month {
            self.month < other.month
        } else if self.day != other.day {
            self.day < other.day
        } else if self.hour != other.hour {
            self.hour < other.hour
        } else if self.minute != other.minute {
            self.minute < other.minute
        } else {
            self.second <= other.second
        }
    }

    /// Runtime comparison, the order `list` sorts by.
    pub fn le(&self, other: &DateTime) -> (b: bool)
        ensures
            b == self.spec_le(*other),
    {
        if self.year != other.year {
            self.year < other.year
        } else if self.month != other.month {
            self.month < other.month
        } else if self.day != other.day {
            self.day < other.day
        } else if self.hour != other.hour {
            self.hour < other.hour
        } else if self.minute != other.minute {
            self.minute < other.minute
        } else {
            self.second <= other.second
        }
    }
}

/// The order `spec_le` is total: any two timestamps compare one way or the other.
pub proof fn lemma_le_total(a: DateTime, b: DateTime)
    ensures
        a.spec_le(b) || b.spec_le(a),
        a.spec_le(b) && b.spec_le(a) ==> a == b,
{
}

/// The order `spec_le` is transitive.
pub proof fn lemma_le_trans(a: DateTime, b: DateTime, c: DateTime)
    requires
        a.spec_le(b),
        b.spec_le(c),
    ensures
        a.spec_le(c),
{
}

/// Character-by-character string equality.
pub fn str_eq(a: &str, b: &str) -> (r: bool)
    ensures
        r == (a@ == b@),
{
    let la = a.unicode_len();
    let lb = b.unicode_len();
    if la != lb {
        return false;
    }
    let mut i: usize = 0;
    while i < la
        invariant
            la == a@.len(),
            lb == b@.len(),
            la == lb,
            i <= la,
            forall|j: int| 0 <= j < i ==> a@[j] == b@[j],
        decreases la - i,
    {
        if a.get_char(i) != b.get_char(i) {
            return false;
        }
        i += 1;
    }
    proof {
        assert(a@ =~= b@);
    }
    true
}

pub fn days_in_month_exec(year: u32, month: u32) -> (d: u32)
    ensures
        d == days_in_month(year as int, month as int),
{
    if month == 2 {
        if (year % 4 == 0 && year % 100 != 0) || year % 400 == 0 {
            29
        } else {
            28
        }
    } else if month == 4 || month == 6 || month == 9 || month == 11 {
        30
    } else {
        31
    }
}

pub open spec fn is_digit(c: char) -> bool {
    c == '0' || c == '1' || c == '2' || c == '3' || c == '4' || c == '5' || c == '6' || c == '7'
        || c == '8' || c == '9'
}

pub open spec fn digit_val(c: char) -> int {
    if c == '0' {
        0
    } else if c == '1' {
        1
    } else if c == '2' {
        2
    } else if c == '3' {
        3
    } else if c == '4' {
        4
    } else if c == '5' {
        5
    } else if c == '6' {
        6
    } else if c == '7' {
        7
    } else if c == '8' {
        8
    } else {
        9
    }
}

fn digit_of(c: char) -> (r: Option<u32>)
    ensures
        match r {
            Some(d) => is_digit(c) && d == digit_val(c) && d <= 9,
            None => !is_digit(c),
        },
{
    match c {
        '0' => Some(0),
        '1' => Some(1),
        '2' => Some(2),
        '3' => Some(3),
        '4' => Some(4),
        '5' => Some(5),
        '6' => Some(6),
        '7' => Some(7),
        '8' => Some(8),
        '9' => Some(9),
        _ => None,
    }
}

/// The ten characters of a date string are shaped `DDDD-DD-DD`.
pub open spec fn date_chars_ok(s: Seq<char>) -> bool {
    &&& s.len() == 10
    &&& is_digit(s[0]) && is_digit(s[1]) && is_digit(s[2]) && is_digit(s[3])
    &&& s[4] == '-'
    &&& is_digit(s[5]) && is_digit(s[6])
    &&& s[7] == '-'
    &&& is_digit(s[8]) && is_digit(s[9])
}

pub open spec fn date_year(s: Seq<char>) -> int {
    1000 * digit_val(s[0]) + 100 * digit_val(s[1]) + 10 * digit_val(s[2]) + digit_val(s[3])
}

pub open spec fn date_month(s: Seq<char>) -> int {
    10 * digit_val(s[5]) + digit_val(s[6])
}

pub open spec fn date_day(s: Seq<char>) -> int {
    10 * digit_val(s[8]) + digit_val(s[9])
}

/// A well-formed `YYYY-MM-DD` string naming a real calendar date.
pub open spec fn valid_date_str(s: Seq<char>) -> bool {
    &&& date_chars_ok(s)
    &&& 1 <= date_month(s) <= 12
    &&& 1 <= date_day(s) <= days_in_month(date_year(s), date_month(s))
}

/// The timestamp a valid date string names, at midnight.
pub open spec fn date_dt(s: Seq<char>) -> DateTime {
    DateTime {
        year: date_year(s) as u32,
        month: date_month(s) as u32,
        day: date_day(s) as u32,
        hour: 0,
        minute: 0,
        second: 0,
    }
}

/// The eight characters of a time string are shaped `DD:DD:DD`.
pub open spec fn time_chars_ok(s: Seq<char>) -> bool {
    &&& s.len() == 8
    &&& is_digit(s[0]) && is_digit(s[1])
    &&& s[2] == ':'
    &&& is_digit(s[3]) && is_digit(s[4])
    &&& s[5] == ':'
    &&& is_digit(s[6]) && is_digit(s[7])
}

pub open spec fn time_hour(s: Seq<char>) -> int {
    10 * digit_val(s[0]) + digit_val(s[1])
}

pub open spec fn time_minute(s: Seq<char>) -> int {
    10 * digit_val(s[3]) + digit_val(s[4])
}

pub open spec fn time_second(s: Seq<char>) -> int {
    10 * digit_val(s[6]) + digit_val(s[7])
}

/// A well-formed `HH:MM:SS` string naming a time of day.
pub open spec fn valid_time_str(s: Seq<char>) -> bool {
    &&& time_chars_ok(s)
    &&& time_hour(s) <= 23
    &&& time_minute(s) <= 59
    &&& time_second(s) <= 59
}

/// `dt` with its time of day replaced by what a valid time string names.
pub open spec fn with_time(dt: DateTime, s: Seq<char>) -> DateTime {
    DateTime {
        hour: time_hour(s) as u32,
        minute: time_minute(s) as u32,
        second: time_second(s) as u32,
        ..dt
    }
}

/// Parse a `YYYY-MM-DD` string; the result carries the date at midnight.
pub fn parse_date_part(s: &str) -> (r: Result<DateTime, TodoError>)
    ensures
        valid_date_str(s@) ==> r == Ok::<DateTime, TodoError>(date_dt(s@)),
        !valid_date_str(s@) ==> r == Err::<DateTime, TodoError>(TodoError::InvalidDate),
        r is Ok ==> r->Ok_0.valid(),
{
    if s.unicode_len() != 10 {
        return Err(TodoError::InvalidDate);
    }
    if s.get_char(4) != '-' || s.get_char(7) != '-' {
        return Err(TodoError::InvalidDate);
    }
    let y = match (digit_of(s.get_char(0)), digit_of(s.get_char(1)), digit_of(s.get_char(2)),
        digit_of(s.get_char(3))) {
        (Some(a), Some(b), Some(c), Some(d)) => 1000 * a + 100 * b + 10 * c + d,
        _ => { return Err(TodoError::InvalidDate); },
    };
    let m = match (digit_of(s.get_char(5)), digit_of(s.get_char(6))) {
        (Some(a), Some(b)) => 10 * a + b,
        _ => { return Err(TodoError::InvalidDate); },
    };
    let d = match (digit_of(s.get_char(8)), digit_of(s.get_char(9))) {
        (Some(a), Some(b)) => 10 * a + b,
        _ => { return Err(TodoError::InvalidDate); },
    };
    if !(1 <= m && m <= 12) {
        return Err(TodoError::InvalidDate);
    }
    if !(1 <= d && d <= days_in_month_exec(y, m)) {
        return Err(TodoError::InvalidDate);
    }
    Ok(DateTime { year: y, month: m, day: d, hour: 0, minute: 0, second: 0 })
}

/// Parse an `HH:MM:SS` string and set it as the time of day of `dt`.
pub fn set_time_from(dt: DateTime, s: &str) -> (r: Result<DateTime, TodoError>)
    ensures
        valid_time_str(s@) ==> r == Ok::<DateTime, TodoError>(with_time(dt, s@)),
        !valid_time_str(s@) ==> r == Err::<DateTime, TodoError>(TodoError::InvalidTime),
{
    if s.unicode_len() != 8 {
        return Err(TodoError::InvalidTime);
    }
    if s.get_char(2) != ':' || s.get_char(5) != ':' {
        return Err(TodoError::InvalidTime);
    }
    let h = match (digit_of(s.get_char(0)), digit_of(s.get_char(1))) {
        (Some(a), Some(b)) => 10 * a + b,
        _ => { return Err(TodoError::InvalidTime); },
    };
    let mi = match (digit_of(s.get_char(3)), digit_of(s.get_char(4))) {
        (Some(a), Some(b)) => 10 * a + b,
        _ => { return Err(TodoError::InvalidTime); },
    };
    let sec = match (digit_of(s.get_char(6)), digit_of(s.get_char(7))) {
        (Some(a), Some(b)) => 10 * a + b,
        _ => { return Err(TodoError::InvalidTime); },
    };
    if !(h <= 23 && mi <= 59 && sec <= 59) {
        return Err(TodoError::InvalidTime);
    }
    Ok(DateTime { hour: h, minute: mi, second: sec, ..dt })
}

/// Whether `s` is a well-formed `YYYY-MM-DD` calendar date string.
pub fn check_date_str(s: &str) -> (b: bool)
    ensures
        b == valid_date_str(s@),
{
    parse_date_part(s).is_ok()
}

/// Whether `s` is a well-formed `HH:MM:SS` time string.
pub fn check_time_str(s: &str) -> (b: bool)
    ensures
        b == valid_time_str(s@),
{
    let probe = DateTime { year: 0, month: 1, day: 1, hour: 0, minute: 0, second: 0 };
    set_time_from(probe, s).is_ok()
}

/// What `parse_ymd_hms` returns: the date's timestamp with the time of day
/// set, or the first error in date-then-time order.
pub open spec fn spec_parse_ymd_hms(d: Seq<char>, t: Seq<char>) -> Result<DateTime, TodoError> {
    if !valid_date_str(d) {
        Err(TodoError::InvalidDate)
    } else if !valid_time_str(t) {
        Err(TodoError::InvalidTime)
    } else {
        Ok(with_time(date_dt(d), t))
    }
}

/// Parse a `YYYY-MM-DD` date and an `HH:MM:SS` time into one UTC timestamp.
pub fn parse_ymd_hms(date: &str, time: &str) -> (r: Result<DateTime, TodoError>)
    ensures
        r == spec_parse_ymd_hms(date@, time@),
        r is Ok ==> r->Ok_0.valid(),
{
    let d = parse_date_part(date)?;
    let combined = set_time_from(d, time)?;
    Ok(combined)
}

/// The policy for combining an optional date and an optional time string,
/// given the current timestamp `now`:
///
/// | date  | time  | result                                    |
/// |-------|-------|-------------------------------------------|
/// | given | given | parse both, combine                       |
/// | given | -     | parse date, time defaults to `00:00:00`   |
/// | -     | given | date defaults to `now`'s date, parse time |
/// | -     | -     | `now`                                     |
pub open spec fn spec_combine(
    date: Option<Seq<char>>,
    time: Option<Seq<char>>,
    now: DateTime,
) -> Result<DateTime, TodoError> {
    match (date, time) {
        (Some(d), Some(t)) => spec_parse_ymd_hms(d, t),
        (Some(d), None) => if valid_date_str(d) {
            Ok(date_dt(d))
        } else {
            Err(TodoError::InvalidDate)
        },
        (None, Some(t)) => if valid_time_str(t) {
            Ok(with_time(DateTime { hour: 0, minute: 0, second: 0, ..now }, t))
        } else {
            Err(TodoError::InvalidTime)
        },
        (None, None) => Ok(now),
    }
}

/// Combine an optional date and an optional time string into one timestamp,
/// defaulting the missing parts from `now`.
pub fn combine(date: &Option<String>, time: &Option<String>, now: DateTime) -> (r: Result<
    DateTime,
    TodoError,
>)
    requires
        now.valid(),
    ensures
        r == spec_combine(date.deep_view(), time.deep_view(), now),
        r is Ok ==> r->Ok_0.valid(),
{
    match (date, time) {
        (Some(d), Some(t)) => parse_ymd_hms(d.as_str(), t.as_str()),
        (Some(d), None) => parse_date_part(d.as_str()),
        (None, Some(t)) => {
            let midnight = DateTime { hour: 0, minute: 0, second: 0, ..now };
            set_time_from(midnight, t.as_str())
        },
        (None, None) => Ok(now),
    }
}

/// The current UTC timestamp, read from the system clock.
///
/// Relies on chrono's `Utc::now` and its `Datelike`/`Timelike` accessors:
/// chrono documents that `month` is 1 to 12, `day` is 1 to 31, `hour` is
/// 0 to 23, and `minute` and `second` are 0 to 59. The year is whatever
/// the clock says (a year outside 0..=9999 fails the `valid` check and is
/// rejected by callers).
#[verifier::external_body]
pub(crate) fn now_utc() -> (r: DateTime)
    ensures
        1 <= r.month <= 12,
        1 <= r.day <= 31,
        r.hour <= 23,
        r.minute <= 59,
        r.second <= 59,
{
    let n = chrono::Utc::now();
    DateTime {
        year: n.year() as u32,
        month: n.month(),
        day: n.day(),
        hour: n.hour(),
        minute: n.minute(),
        second: n.second(),
    }
}

/// `combine`, with `now` taken from the system clock.
///
/// When a date string is supplied the clock does not matter and the result
/// is exactly `spec_combine` of the inputs. When no date is supplied, the
/// result is built from whatever the clock returned, and is an error only
/// if the time string is malformed or the clock is out of range.
pub fn parse_start_date_time(date: Option<String>, time: Option<String>) -> (r: Result<
    DateTime,
    TodoError,
>)
    ensures
        r is Ok ==> r->Ok_0.valid(),
        date is Some ==> r == spec_combine(
            date.deep_view(),
            time.deep_view(),
            DateTime { year: 0, month: 1, day: 1, hour: 0, minute: 0, second: 0 },
        ),
        date is None ==> (r == Err::<DateTime, TodoError>(TodoError::InvalidTime) <==> (time
            is Some && !valid_time_str(time->0@))),
        date is None && (time is None || valid_time_str(time->0@)) ==> r is Ok || r == Err::<
            DateTime,
            TodoError,
        >(TodoError::Clock),
        date is None && time is Some && r is Ok ==> valid_time_str(time->0@) && r->Ok_0.hour
            == time_hour(time->0@) && r->Ok_0.minute == time_minute(time->0@) && r->Ok_0.second
            == time_second(time->0@),
{
    match (&date, &time) {
        (Some(d), Some(t)) => parse_ymd_hms(d.as_str(), t.as_str()),
        (Some(d), None) => parse_date_part(d.as_str()),
        (None, Some(t)) => {
            let now = now_utc();
            let midnight = DateTime { hour: 0, minute: 0, second: 0, ..now };
            let r = set_time_from(midnight, t.as_str())?;
            if !r.check_valid() {
                return Err(TodoError::Clock);
            }
            Ok(r)
        },
        (None, None) => {
            let now = now_utc();
            if !now.check_valid() {
                return Err(TodoError::Clock);
            }
            Ok(now)
        },
    }
}

pub open spec fn spec_digit_char(d: int) -> char {
    if d == 0 {
        '0'
    } else if d == 1 {
        '1'
    } else if d == 2 {
        '2'
    } else if d == 3 {
        '3'
    } else if d == 4 {
        '4'
    } else if d == 5 {
        '5'
    } else if d == 6 {
        '6'
    } else if d == 7 {
        '7'
    } else if d == 8 {
        '8'
    } else {
        '9'
    }
}

/// Rendering a digit and reading it back is the identity.
pub proof fn lemma_digit_round(d: int)
    requires
        0 <= d <= 9,
    ensures
        is_digit(spec_digit_char(d)),
        digit_val(spec_digit_char(d)) == d,
{
}

/// A number below 100 as two digit characters.
pub open spec fn spec_fmt2(v: int) -> Seq<char> {
    seq![spec_digit_char(v / 10), spec_digit_char(v % 10)]
}

/// A number below 10000 as four digit characters.
pub open spec fn spec_fmt4(v: int) -> Seq<char> {
    seq![
        spec_digit_char(v / 1000),
        spec_digit_char((v / 100) % 10),
        spec_digit_char((v / 10) % 10),
        spec_digit_char(v % 10),
    ]
}

/// The `YYYY-MM-DD` rendering of a timestamp's date.
pub open spec fn spec_fmt_date(dt: DateTime) -> Seq<char> {
    spec_fmt4(dt.year as int) + seq!['-'] + spec_fmt2(dt.month as int) + seq!['-'] + spec_fmt2(
        dt.day as int,
    )
}

/// The `HH:MM:SS` rendering of a timestamp's time of day.
pub open spec fn spec_fmt_time(dt: DateTime) -> Seq<char> {
    spec_fmt2(dt.hour as int) + seq![':'] + spec_fmt2(dt.minute as int) + seq![':'] + spec_fmt2(
        dt.second as int,
    )
}

/// The RFC 3339 rendering of a UTC timestamp, `YYYY-MM-DDTHH:MM:SS+00:00`;
/// the form every timestamp is persisted in.
pub open spec fn spec_fmt_rfc3339(dt: DateTime) -> Seq<char> {
    spec_fmt_date(dt) + seq!['T'] + spec_fmt_time(dt) + seq!['+', '0', '0', ':', '0', '0']
}

fn digit_str(d: u32) -> (r: &'static str)
    requires
        d <= 9,
    ensures
        r@ == seq![spec_digit_char(d as int)],
{
    let s: &'static str = match d {
        0 => "0",
        1 => "1",
        2 => "2",
        3 => "3",
        4 => "4",
        5 => "5",
        6 => "6",
        7 => "7",
        8 => "8",
        _ => "9",
    };
    proof {
        reveal_strlit("0");
        reveal_strlit("1");
        reveal_strlit("2");
        reveal_strlit("3");
        reveal_strlit("4");
        reveal_strlit("5");
        reveal_strlit("6");
        reveal_strlit("7");
        reveal_strlit("8");
        reveal_strlit("9");
        assert(s@ =~= seq![spec_digit_char(d as int)]);
    }
    s
}

fn push_2(s: &mut String, v: u32)
    requires
        v <= 99,
    ensures
        final(s)@ == old(s)@ + spec_fmt2(v as int),
{
    s.append(digit_str(v / 10));
    s.append(digit_str(v % 10));
    proof {
        assert(s@ =~= old(s)@ + spec_fmt2(v as int));
    }
}

fn push_4(s: &mut String, v: u32)
    requires
        v <= 9999,
    ensures
        final(s)@ == old(s)@ + spec_fmt4(v as int),
{
    s.append(digit_str(v / 1000));
    s.append(digit_str((v / 100) % 10));
    s.append(digit_str((v / 10) % 10));
    s.append(digit_str(v % 10));
    proof {
        assert(s@ =~= old(s)@ + spec_fmt4(v as int));
    }
}

/// Render the date of a timestamp as `YYYY-MM-DD`, the listing format.
pub fn format_ymd(dt: &DateTime) -> (r: String)
    requires
        dt.valid(),
    ensures
        r@ == spec_fmt_date(*dt),
{
    let mut s = String::new();
    push_4(&mut s, dt.year);
    s.append("-");
    push_2(&mut s, dt.month);
    s.append("-");
    push_2(&mut s, dt.day);
    proof {
        reveal_strlit("-");
        assert(s@ =~= spec_fmt_date(*dt));
    }
    s
}

/// Render a timestamp as RFC 3339, `YYYY-MM-DDTHH:MM:SS+00:00`.
pub fn format_rfc3339(dt: &DateTime) -> (r: String)
    requires
        dt.valid(),
    ensures
        r@ == spec_fmt_rfc3339(*dt),
{
    let mut s = format_ymd(dt);
    s.append("T");
    push_2(&mut s, dt.hour);
    s.append(":");
    push_2(&mut s, dt.minute);
    s.append(":");
    push_2(&mut s, dt.second);
    s.append("+00:00");
    proof {
        reveal_strlit("T");
        reveal_strlit(":");
        reveal_strlit("+00:00");
        assert(s@ =~= spec_fmt_rfc3339(*dt));
    }
    s
}

/// A well-formed persisted timestamp: a valid date, `T`, a valid time,
/// and the UTC offset `+00:00`.
pub open spec fn valid_rfc3339_str(s: Seq<char>) -> bool {
    &&& s.len() == 25
    &&& valid_date_str(s.subrange(0, 10))
    &&& s[10] == 'T'
    &&& valid_time_str(s.subrange(11, 19))
    &&& s[19] == '+' && s[20] == '0' && s[21] == '0' && s[22] == ':' && s[23] == '0' && s[24] == '0'
}

/// The timestamp a well-formed persisted string names.
pub open spec fn rfc3339_dt(s: Seq<char>) -> DateTime {
    with_time(date_dt(s.subrange(0, 10)), s.subrange(11, 19))
}

/// Parse a persisted RFC 3339 timestamp. A malformed one can only come
/// from a corrupted store, so the error is `Storage`.
pub fn parse_rfc3339(s: &str) -> (r: Result<DateTime, TodoError>)
    ensures
        valid_rfc3339_str(s@) ==> r == Ok::<DateTime, TodoError>(rfc3339_dt(s@)),
        !valid_rfc3339_str(s@) ==> r == Err::<DateTime, TodoError>(TodoError::Storage),
        r is Ok ==> r->Ok_0.valid(),
{
    if s.unicode_len() != 25 {
        return Err(TodoError::Storage);
    }
    if s.get_char(10) != 'T' {
        return Err(TodoError::Storage);
    }
    if s.get_char(19) != '+' || s.get_char(20) != '0' || s.get_char(21) != '0' || s.get_char(22)
        != ':' || s.get_char(23) != '0' || s.get_char(24) != '0' {
        return Err(TodoError::Storage);
    }
    let date_part = s.substring_char(0, 10);
    let time_part = s.substring_char(11, 19);
    let d = match parse_date_part(date_part) {
        Ok(d) => d,
        Err(_) => { return Err(TodoError::Storage); },
    };
    match set_time_from(d, time_part) {
        Ok(c) => Ok(c),
        Err(_) => Err(TodoError::Storage),
    }
}

/// Splitting a four-digit rendering back into its value.
proof fn lemma_fmt4_val(v: int)
    requires
        0 <= v <= 9999,
    ensures
        1000 * (v / 1000) + 100 * ((v / 100) % 10) + 10 * ((v / 10) % 10) + v % 10 == v,
        v / 1000 <= 9,
{
    assert(v == 10 * (v / 10) + v % 10);
    assert(v / 10 == 10 * (v / 100) + (v / 10) % 10) by {
        assert(v / 10 / 10 == v / 100) by (nonlinear_arith)
            requires 0 <= v;
    }
    assert(v / 100 == 10 * (v / 1000) + (v / 100) % 10) by {
        assert(v / 100 / 10 == v / 1000) by (nonlinear_arith)
            requires 0 <= v;
    }
}

/// Formatting a valid timestamp and parsing the rendering back is the
/// identity: what is persisted is what is read.
pub proof fn lemma_rfc3339_round_trip(dt: DateTime)
    requires
        dt.valid(),
    ensures
        valid_rfc3339_str(spec_fmt_rfc3339(dt)),
        rfc3339_dt(spec_fmt_rfc3339(dt)) == dt,
{
    let s = spec_fmt_rfc3339(dt);
    let ds = s.subrange(0, 10);
    let ts = s.subrange(11, 19);
    assert(ds =~= spec_fmt_date(dt));
    assert(ts =~= spec_fmt_time(dt));
    lemma_digit_round(dt.year as int / 1000);
    lemma_digit_round((dt.year as int / 100) % 10);
    lemma_digit_round((dt.year as int / 10) % 10);
    lemma_digit_round(dt.year as int % 10);
    lemma_digit_round(dt.month as int / 10);
    lemma_digit_round(dt.month as int % 10);
    lemma_digit_round(dt.day as int / 10);
    lemma_digit_round(dt.day as int % 10);
    lemma_digit_round(dt.hour as int / 10);
    lemma_digit_round(dt.hour as int % 10);
    lemma_digit_round(dt.minute as int / 10);
    lemma_digit_round(dt.minute as int % 10);
    lemma_digit_round(dt.second as int / 10);
    lemma_digit_round(dt.second as int % 10);
    lemma_fmt4_val(dt.year as int);
    assert(date_year(ds) == dt.year);
    assert(date_month(ds) == dt.month);
    assert(date_day(ds) == dt.day);
    assert(time_hour(ts) == dt.hour);
    assert(time_minute(ts) == dt.minute);
    assert(time_second(ts) == dt.second);
    assert(rfc3339_dt(s) == dt);
}

} // verus!
