//! Verified cell parsers: the string-encoded cell values a source yields are
//! turned into typed values against exact grammars (decimal integers,
//! booleans, dates, times and date-times), with validity checked.

use vstd::prelude::*;
use vstd::string::StrSliceExecFns;
use crate::strutil::str_eq;

verus! {

/// A calendar date on the proleptic Gregorian calendar, year 0 through 9999.
#[derive(Clone, Copy, Debug, PartialEq, Eq, Structural)]
pub struct DateVal {
    pub year: u16,
    pub month: u8,
    pub day: u8,
}

/// A time of day with whole seconds.
#[derive(Clone, Copy, Debug, PartialEq, Eq, Structural)]
pub struct TimeVal {
    pub hour: u8,
    pub minute: u8,
    pub second: u8,
}

/// A calendar date with a time of day, no zone.
#[derive(Clone, Copy, Debug, PartialEq, Eq, Structural)]
pub struct DateTimeVal {
    pub date: DateVal,
    pub time: TimeVal,
}

pub open spec fn is_digit(c: char) -> bool {
    48 <= (c as u32) <= 57
}

pub open spec fn digit_val(c: char) -> int {
    (c as u32) - 48
}

pub open spec fn all_digits(s: Seq<char>) -> bool {
    forall|k: int| 0 <= k < s.len() ==> is_digit(#[trigger] s[k])
}

/// The value of a run of decimal digits, most significant first.
pub open spec fn digits_value(s: Seq<char>) -> int
    decreases s.len(),
{
    if s.len() == 0 {
        0
    } else {
        digits_value(s.drop_last()) * 10 + digit_val(s.last())
    }
}

/// The decimal integer grammar: an optional `+` or `-` sign, then at least
/// one digit, and the value must fit `i64`.
pub open spec fn spec_parse_i64(s: Seq<char>) -> Option<i64> {
    let signed = s.len() > 0 && (s[0] == '-' || s[0] == '+');
    let neg = s.len() > 0 && s[0] == '-';
    let mag = if signed {
        s.subrange(1, s.len() as int)
    } else {
        s
    };
    if mag.len() == 0 || !all_digits(mag) {
        Option::None
    } else {
        let v = if neg {
            -digits_value(mag)
        } else {
            digits_value(mag)
        };
        if i64::MIN <= v <= i64::MAX {
            Option::Some(v as i64)
        } else {
            Option::None
        }
    }
}

/// A digit run that exceeds the magnitude bound keeps exceeding it.
proof fn lemma_digits_value_nonneg(s: Seq<char>)
    requires
        all_digits(s),
    ensures
        digits_value(s) >= 0,
    decreases s.len(),
{
    if s.len() > 0 {
        assert(is_digit(s.last()));
        lemma_digits_value_nonneg(s.drop_last());
    }
}

/// Parse a decimal integer exactly as the grammar above states.
pub fn parse_i64(s: &str) -> (r: Option<i64>)
    ensures
        r == spec_parse_i64(s@),
{
    let n = s.unicode_len();
    if n == 0 {
        return None;
    }
    let first = s.get_char(0);
    let signed = first == '-' || first == '+';
    let neg = first == '-';
    let start: usize = if signed {
        1
    } else {
        0
    };
    if start == n {
        return None;
    }
    let ghost mag = if signed {
        s@.subrange(1, s@.len() as int)
    } else {
        s@
    };
    // Accumulate the magnitude, clamping once it can no longer fit `i64`;
    // 2^63 is the largest magnitude any sign can carry.
    let bound: u64 = 9_223_372_036_854_775_808u64;
    let mut mag_acc: u64 = 0;
    let mut over = false;
    let mut i: usize = start;
    while i < n
        invariant
            start <= i <= n,
            n == s@.len(),
            s@.len() > 0,
            signed == (s@[0] == '-' || s@[0] == '+'),
            neg == (s@[0] == '-'),
            start == (if signed {
                1int
            } else {
                0int
            }),
            mag == (if signed {
                s@.subrange(1, s@.len() as int)
            } else {
                s@
            }),
            bound == 9_223_372_036_854_775_808u64,
            all_digits(mag.subrange(0, i - start)),
            !over ==> mag_acc == digits_value(mag.subrange(0, i - start)) && mag_acc <= bound,
            over ==> digits_value(mag.subrange(0, i - start)) > bound,
        decreases n - i,
    {
        let c = s.get_char(i);
        let u = c as u32;
        if u < 48 || u > 57 {
            proof {
                assert(mag[i - start] == s@[i as int]);
                assert(!is_digit(mag[i - start]));
            }
            return None;
        }
        let d = (u - 48) as u64;
        proof {
            assert(mag.subrange(0, i + 1 - start).drop_last() =~= mag.subrange(0, i - start));
            assert(mag.subrange(0, i + 1 - start).last() == s@[i as int]);
        }
        if over {
            proof {
                lemma_digits_value_nonneg(mag.subrange(0, i - start));
            }
        } else {
            let wide: u128 = (mag_acc as u128) * 10 + (d as u128);
            if wide > bound as u128 {
                over = true;
            } else {
                mag_acc = wide as u64;
            }
        }
        i = i + 1;
    }
    proof {
        assert(mag.subrange(0, n - start) =~= mag);
    }
    if over {
        return None;
    }
    if neg {
        if mag_acc > bound {
            return None;
        }
        if mag_acc == bound {
            Some(i64::MIN)
        } else {
            Some(-(mag_acc as i64))
        }
    } else {
        if mag_acc >= bound {
            return None;
        }
        Some(mag_acc as i64)
    }
}

/// The unsigned decimal grammar: an optional `+` sign, then at least one
/// digit, and the value must fit `u64`.
pub open spec fn spec_parse_u64(s: Seq<char>) -> Option<u64> {
    let signed = s.len() > 0 && s[0] == '+';
    let mag = if signed {
        s.subrange(1, s.len() as int)
    } else {
        s
    };
    if mag.len() == 0 || !all_digits(mag) {
        Option::None
    } else if digits_value(mag) <= u64::MAX {
        Option::Some(digits_value(mag) as u64)
    } else {
        Option::None
    }
}

/// Parse an unsigned decimal integer exactly as the grammar above states.
pub fn parse_u64(s: &str) -> (r: Option<u64>)
    ensures
        r == spec_parse_u64(s@),
{
    let n = s.unicode_len();
    if n == 0 {
        return None;
    }
    let first = s.get_char(0);
    let signed = first == '+';
    let start: usize = if signed {
        1
    } else {
        0
    };
    if start == n {
        return None;
    }
    let ghost mag = if signed {
        s@.subrange(1, s@.len() as int)
    } else {
        s@
    };
    let mut mag_acc: u64 = 0;
    let mut over = false;
    let mut i: usize = start;
    while i < n
        invariant
            start <= i <= n,
            n == s@.len(),
            s@.len() > 0,
            signed == (s@[0] == '+'),
            start == (if signed {
                1int
            } else {
                0int
            }),
            mag == (if signed {
                s@.subrange(1, s@.len() as int)
            } else {
                s@
            }),
            all_digits(mag.subrange(0, i - start)),
            !over ==> mag_acc == digits_value(mag.subrange(0, i - start)),
            over ==> digits_value(mag.subrange(0, i - start)) > u64::MAX,
        decreases n - i,
    {
        let c = s.get_char(i);
        let u = c as u32;
        if u < 48 || u > 57 {
            proof {
                assert(mag[i - start] == s@[i as int]);
                assert(!is_digit(mag[i - start]));
            }
            return None;
        }
        let d = (u - 48) as u64;
        proof {
            assert(mag.subrange(0, i + 1 - start).drop_last() =~= mag.subrange(0, i - start));
            assert(mag.subrange(0, i + 1 - start).last() == s@[i as int]);
        }
        if over {
            proof {
                lemma_digits_value_nonneg(mag.subrange(0, i - start));
            }
        } else {
            let wide: u128 = (mag_acc as u128) * 10 + (d as u128);
            if wide > u64::MAX as u128 {
                over = true;
            } else {
                mag_acc = wide as u64;
            }
        }
        i = i + 1;
    }
    proof {
        assert(mag.subrange(0, n - start) =~= mag);
    }
    if over {
        return None;
    }
    Some(mag_acc)
}

/// The boolean grammar: exactly `true` or `false`.
pub open spec fn spec_parse_bool(s: Seq<char>) -> Option<bool> {
    if s == "true"@ {
        Option::Some(true)
    } else if s == "false"@ {
        Option::Some(false)
    } else {
        Option::None
    }
}

pub fn parse_bool(s: &str) -> (r: Option<bool>)
    ensures
        r == spec_parse_bool(s@),
{
    if str_eq(s, "true") {
        Some(true)
    } else if str_eq(s, "false") {
        Some(false)
    } else {
        None
    }
}

/// Whether a year is a leap year (proleptic Gregorian rule).
pub open spec fn spec_is_leap(y: int) -> bool {
    y % 4 == 0 && (y % 100 != 0 || y % 400 == 0)
}

/// Days in a month of a given year.
pub open spec fn spec_days_in_month(y: int, m: int) -> int {
    if m == 2 {
        if spec_is_leap(y) {
            29
        } else {
            28
        }
    } else if m == 4 || m == 6 || m == 9 || m == 11 {
        30
    } else {
        31
    }
}

/// A valid calendar date.
pub open spec fn date_valid(d: DateVal) -> bool {
    &&& d.year <= 9999
    &&& 1 <= d.month <= 12
    &&& 1 <= d.day <= spec_days_in_month(d.year as int, d.month as int)
}

/// A valid time of day.
pub open spec fn time_valid(t: TimeVal) -> bool {
    t.hour < 24 && t.minute < 60 && t.second < 60
}

/// The date grammar `YYYY-MM-DD`: four, two and two digits, dashes between,
/// and the date must exist on the calendar.
pub open spec fn spec_parse_date(s: Seq<char>) -> Option<DateVal> {
    if s.len() == 10 && is_digit(s[0]) && is_digit(s[1]) && is_digit(s[2]) && is_digit(s[3]) && s[4]
        == '-' && is_digit(s[5]) && is_digit(s[6]) && s[7] == '-' && is_digit(s[8]) && is_digit(
        s[9],
    ) {
        let y = digit_val(s[0]) * 1000 + digit_val(s[1]) * 100 + digit_val(s[2]) * 10 + digit_val(
            s[3],
        );
        let m = digit_val(s[5]) * 10 + digit_val(s[6]);
        let d = digit_val(s[8]) * 10 + digit_val(s[9]);
        let date = DateVal { year: y as u16, month: m as u8, day: d as u8 };
        if date_valid(date) {
            Option::Some(date)
        } else {
            Option::None
        }
    } else {
        Option::None
    }
}

/// The time grammar `HH:MM:SS`: two digits each, colons between, hour below
/// 24, minute and second below 60.
pub open spec fn spec_parse_time(s: Seq<char>) -> Option<TimeVal> {
    if s.len() == 8 && is_digit(s[0]) && is_digit(s[1]) && s[2] == ':' && is_digit(s[3]) && is_digit(
        s[4],
    ) && s[5] == ':' && is_digit(s[6]) && is_digit(s[7]) {
        let h = digit_val(s[0]) * 10 + digit_val(s[1]);
        let m = digit_val(s[3]) * 10 + digit_val(s[4]);
        let sec = digit_val(s[6]) * 10 + digit_val(s[7]);
        let t = TimeVal { hour: h as u8, minute: m as u8, second: sec as u8 };
        if time_valid(t) {
            Option::Some(t)
        } else {
            Option::None
        }
    } else {
        Option::None
    }
}

/// The date-time grammar: a date, a literal `T`, then a time.
pub open spec fn spec_parse_datetime(s: Seq<char>) -> Option<DateTimeVal> {
    if s.len() == 19 && s[10] == 'T' {
        match (spec_parse_date(s.subrange(0, 10)), spec_parse_time(s.subrange(11, 19))) {
            (Option::Some(d), Option::Some(t)) => Option::Some(DateTimeVal { date: d, time: t }),
            _ => Option::None,
        }
    } else {
        Option::None
    }
}

/// Read the digit at position `i`; the caller has checked it is one.
fn digit_at(s: &str, i: usize) -> (r: u32)
    requires
        i < s@.len(),
        is_digit(s@[i as int]),
    ensures
        r == digit_val(s@[i as int]),
{
    (s.get_char(i) as u32) - 48
}

fn check_digit(s: &str, i: usize) -> (r: bool)
    requires
        i < s@.len(),
    ensures
        r == is_digit(s@[i as int]),
{
    let u = s.get_char(i) as u32;
    48 <= u && u <= 57
}

pub fn parse_date(s: &str) -> (r: Option<DateVal>)
    ensures
        r == spec_parse_date(s@),
{
    if s.unicode_len() != 10 {
        return None;
    }
    if !(check_digit(s, 0) && check_digit(s, 1) && check_digit(s, 2) && check_digit(s, 3)
        && s.get_char(4) == '-' && check_digit(s, 5) && check_digit(s, 6) && s.get_char(7) == '-'
        && check_digit(s, 8) && check_digit(s, 9)) {
        return None;
    }
    let y = (digit_at(s, 0) * 1000 + digit_at(s, 1) * 100 + digit_at(s, 2) * 10 + digit_at(
        s,
        3,
    )) as u16;
    let m = (digit_at(s, 5) * 10 + digit_at(s, 6)) as u8;
    let d = (digit_at(s, 8) * 10 + digit_at(s, 9)) as u8;
    let date = DateVal { year: y, month: m, day: d };
    if m < 1 || m > 12 {
        return None;
    }
    let dim: u8 = days_in_month(y, m);
    if d < 1 || d > dim {
        return None;
    }
    Some(date)
}

/// Days in a month, as an executable table.
pub fn days_in_month(y: u16, m: u8) -> (r: u8)
    requires
        1 <= m <= 12,
    ensures
        r == spec_days_in_month(y as int, m as int),
{
    if m == 2 {
        if (y % 4 == 0) && (y % 100 != 0 || y % 400 == 0) {
            29
        } else {
            28
        }
    } else if m == 4 || m == 6 || m == 9 || m == 11 {
        30
    } else {
        31
    }
}

pub fn parse_time(s: &str) -> (r: Option<TimeVal>)
    ensures
        r == spec_parse_time(s@),
{
    if s.unicode_len() != 8 {
        return None;
    }
    if !(check_digit(s, 0) && check_digit(s, 1) && s.get_char(2) == ':' && check_digit(s, 3)
        && check_digit(s, 4) && s.get_char(5) == ':' && check_digit(s, 6) && check_digit(s, 7)) {
        return None;
    }
    let h = (digit_at(s, 0) * 10 + digit_at(s, 1)) as u8;
    let m = (digit_at(s, 3) * 10 + digit_at(s, 4)) as u8;
    let sec = (digit_at(s, 6) * 10 + digit_at(s, 7)) as u8;
    if h >= 24 || m >= 60 || sec >= 60 {
        return None;
    }
    Some(TimeVal { hour: h, minute: m, second: sec })
}

pub open spec fn spec_days_in_year(y: int) -> int {
    if spec_is_leap(y) {
        366
    } else {
        365
    }
}

/// Days from the calendar origin (year 0, January 1st) to year `y`'s
/// January 1st, on the proleptic Gregorian calendar.
pub open spec fn spec_days_before_year(y: int) -> int
    decreases y,
{
    if y <= 0 {
        0
    } else {
        spec_days_before_year(y - 1) + spec_days_in_year(y - 1)
    }
}

/// Days from a year's January 1st to the first day of month `m`.
pub open spec fn spec_days_before_month(y: int, m: int) -> int
    decreases m,
{
    if m <= 1 {
        0
    } else {
        spec_days_before_month(y, m - 1) + spec_days_in_month(y, m - 1)
    }
}

/// Days from the calendar origin to the given date.
pub open spec fn spec_civil_days(d: DateVal) -> int {
    spec_days_before_year(d.year as int) + spec_days_before_month(d.year as int, d.month as int)
        + (d.day - 1)
}

/// The `Date32` value of a date: days since 1970-01-01, negative before it.
pub open spec fn spec_epoch_days(d: DateVal) -> int {
    spec_civil_days(d) - spec_civil_days(DateVal { year: 1970, month: 1, day: 1 })
}

proof fn lemma_days_before_year_bound(y: int)
    requires
        y >= 0,
    ensures
        365 * y <= spec_days_before_year(y) <= 366 * y,
    decreases y,
{
    if y > 0 {
        lemma_days_before_year_bound(y - 1);
    }
}

proof fn lemma_days_before_month_bound(y: int, m: int)
    requires
        1 <= m <= 13,
    ensures
        0 <= spec_days_before_month(y, m) <= 31 * (m - 1),
    decreases m,
{
    if m > 1 {
        lemma_days_before_month_bound(y, m - 1);
    }
}

fn is_leap(y: u16) -> (r: bool)
    ensures
        r == spec_is_leap(y as int),
{
    (y % 4 == 0) && (y % 100 != 0 || y % 400 == 0)
}

/// Days from the calendar origin to the given date; at most 3,700,000 for
/// years up to 9999.
fn civil_days(d: DateVal) -> (r: u32)
    requires
        date_valid(d),
    ensures
        r == spec_civil_days(d),
        r <= 3_700_000,
{
    proof {
        lemma_days_before_year_bound(d.year as int);
        lemma_days_before_month_bound(d.year as int, d.month as int);
    }
    let mut acc: u32 = 0;
    let mut y: u16 = 0;
    while y < d.year
        invariant
            y <= d.year,
            d.year <= 9999,
            acc == spec_days_before_year(y as int),
            acc <= 366 * (y as u32),
        decreases d.year - y,
    {
        proof {
            lemma_days_before_year_bound(y as int);
        }
        let add: u32 = if is_leap(y) {
            366
        } else {
            365
        };
        acc = acc + add;
        y = y + 1;
    }
    let mut m: u8 = 1;
    while m < d.month
        invariant
            1 <= m <= d.month,
            date_valid(d),
            acc == spec_days_before_year(d.year as int) + spec_days_before_month(
                d.year as int,
                m as int,
            ),
            acc <= 366 * (d.year as u32) + 31 * (m as u32),
        decreases d.month - m,
    {
        acc = acc + (days_in_month(d.year, m) as u32);
        m = m + 1;
    }
    acc + ((d.day - 1) as u32)
}

/// The number of days between a date and 1970-01-01, as arrow's `Date32`
/// representation carries it.
pub fn days_since_epoch(d: DateVal) -> (r: i32)
    requires
        date_valid(d),
    ensures
        r == spec_epoch_days(d),
        -3_700_000 <= r <= 3_700_000,
{
    let cd = civil_days(d);
    let ed = civil_days(DateVal { year: 1970, month: 1, day: 1 });
    ((cd as i64) - (ed as i64)) as i32
}

/// The microseconds of a time of day.
pub open spec fn spec_time_micros(t: TimeVal) -> int {
    (3600 * t.hour + 60 * t.minute + t.second) * 1_000_000
}

/// The microseconds of a date-time since 1970-01-01T00:00:00.
pub open spec fn spec_datetime_micros(dt: DateTimeVal) -> int {
    spec_epoch_days(dt.date) * 86_400_000_000 + spec_time_micros(dt.time)
}

/// The microsecond-of-day value arrow's `Time64` representation carries.
pub fn time_micros(t: TimeVal) -> (r: i64)
    requires
        time_valid(t),
    ensures
        r == spec_time_micros(t),
        0 <= r < 86_400_000_000,
{
    ((3600 * (t.hour as i64)) + (60 * (t.minute as i64)) + (t.second as i64)) * 1_000_000
}

/// The microsecond timestamp arrow's microsecond `Timestamp` representation
/// carries.
pub fn datetime_micros(dt: DateTimeVal) -> (r: i64)
    requires
        date_valid(dt.date),
        time_valid(dt.time),
    ensures
        r == spec_datetime_micros(dt),
{
    let days = days_since_epoch(dt.date);
    let tod = time_micros(dt.time);
    (days as i64) * 86_400_000_000 + tod
}

pub fn parse_datetime(s: &str) -> (r: Option<DateTimeVal>)
    ensures
        r == spec_parse_datetime(s@),
{
    if s.unicode_len() != 19 {
        return None;
    }
    if s.get_char(10) != 'T' {
        return None;
    }
    let date_part = s.substring_char(0, 10);
    let time_part = s.substring_char(11, 19);
    let d = parse_date(date_part);
    let t = parse_time(time_part);
    match (d, t) {
        (Some(d), Some(t)) => Some(DateTimeVal { date: d, time: t }),
        _ => None,
    }
}

} // verus!
