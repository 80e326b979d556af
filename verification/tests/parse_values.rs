use connector_arrow::parse::{
    datetime_micros, days_in_month, days_since_epoch, parse_bool, parse_date, parse_datetime,
    parse_i64, parse_time, parse_u64, time_micros, DateTimeVal, DateVal, TimeVal,
};
use connector_arrow::strutil::{str_contains, str_eq, str_starts_with};

#[test]
fn integers_parse_exactly() {
    assert_eq!(parse_i64("0"), Some(0));
    assert_eq!(parse_i64("42"), Some(42));
    assert_eq!(parse_i64("-42"), Some(-42));
    assert_eq!(parse_i64("+7"), Some(7));
    assert_eq!(parse_i64("9223372036854775807"), Some(i64::MAX));
    assert_eq!(parse_i64("-9223372036854775808"), Some(i64::MIN));
    assert_eq!(parse_i64("9223372036854775808"), None);
    assert_eq!(parse_i64("-9223372036854775809"), None);
    assert_eq!(parse_i64("99999999999999999999999999"), None);
    assert_eq!(parse_i64(""), None);
    assert_eq!(parse_i64("-"), None);
    assert_eq!(parse_i64("+"), None);
    assert_eq!(parse_i64("3.5"), None);
    assert_eq!(parse_i64(" 3"), None);
    assert_eq!(parse_i64("3 "), None);
    assert_eq!(parse_i64("--3"), None);
    assert_eq!(parse_i64("007"), Some(7));
}

#[test]
fn unsigned_integers_parse_exactly() {
    assert_eq!(parse_u64("0"), Some(0));
    assert_eq!(parse_u64("175"), Some(175));
    assert_eq!(parse_u64("18446744073709551615"), Some(u64::MAX));
    assert_eq!(parse_u64("18446744073709551616"), None);
    assert_eq!(parse_u64("-1"), None);
    assert_eq!(parse_u64("+3"), Some(3));
    assert_eq!(parse_u64(""), None);
}

#[test]
fn booleans_parse_exactly() {
    assert_eq!(parse_bool("true"), Some(true));
    assert_eq!(parse_bool("false"), Some(false));
    assert_eq!(parse_bool("TRUE"), None);
    assert_eq!(parse_bool("1"), None);
    assert_eq!(parse_bool(""), None);
}

#[test]
fn dates_parse_with_calendar_validity() {
    assert_eq!(
        parse_date("2024-02-29"),
        Some(DateVal {
            year: 2024,
            month: 2,
            day: 29
        })
    );
    // 1900 is not a leap year (century rule), 2000 is (400 rule).
    assert_eq!(parse_date("1900-02-29"), None);
    assert_eq!(
        parse_date("2000-02-29"),
        Some(DateVal {
            year: 2000,
            month: 2,
            day: 29
        })
    );
    assert_eq!(parse_date("2023-02-29"), None);
    assert_eq!(parse_date("2023-13-01"), None);
    assert_eq!(parse_date("2023-00-10"), None);
    assert_eq!(parse_date("2023-04-31"), None);
    assert_eq!(
        parse_date("2023-04-30"),
        Some(DateVal {
            year: 2023,
            month: 4,
            day: 30
        })
    );
    assert_eq!(parse_date("2023-4-30"), None);
    assert_eq!(parse_date("20230430"), None);
    assert_eq!(parse_date(""), None);
}

#[test]
fn month_lengths_follow_the_rule() {
    assert_eq!(days_in_month(2023, 1), 31);
    assert_eq!(days_in_month(2023, 2), 28);
    assert_eq!(days_in_month(2024, 2), 29);
    assert_eq!(days_in_month(2100, 2), 28);
    assert_eq!(days_in_month(2400, 2), 29);
    assert_eq!(days_in_month(2023, 4), 30);
    assert_eq!(days_in_month(2023, 12), 31);
}

#[test]
fn times_parse_with_bounds() {
    assert_eq!(
        parse_time("23:59:59"),
        Some(TimeVal {
            hour: 23,
            minute: 59,
            second: 59
        })
    );
    assert_eq!(
        parse_time("00:00:00"),
        Some(TimeVal {
            hour: 0,
            minute: 0,
            second: 0
        })
    );
    assert_eq!(parse_time("24:00:00"), None);
    assert_eq!(parse_time("12:60:00"), None);
    assert_eq!(parse_time("12:00:60"), None);
    assert_eq!(parse_time("12:00"), None);
}

#[test]
fn datetimes_combine_date_and_time() {
    assert_eq!(
        parse_datetime("2024-02-29T13:45:01"),
        Some(DateTimeVal {
            date: DateVal {
                year: 2024,
                month: 2,
                day: 29
            },
            time: TimeVal {
                hour: 13,
                minute: 45,
                second: 1
            }
        })
    );
    assert_eq!(parse_datetime("2024-02-29 13:45:01"), None);
    assert_eq!(parse_datetime("2023-02-29T13:45:01"), None);
    assert_eq!(parse_datetime("2024-02-29T24:45:01"), None);
}

#[test]
fn string_utilities_match_their_spec() {
    assert!(str_eq("abc", "abc"));
    assert!(!str_eq("abc", "abd"));
    assert!(!str_eq("abc", "ab"));
    assert!(str_eq("", ""));
    assert!(str_starts_with("Catalog Error: x", "Catalog Error:"));
    assert!(!str_starts_with("Cat", "Catalog"));
    assert!(str_starts_with("anything", ""));
    assert!(str_contains("table already exists!", "already exists!"));
    assert!(str_contains("abc", ""));
    assert!(!str_contains("ab", "abc"));
    assert!(str_contains("xxabyy", "ab"));
    assert!(!str_contains("xxayy", "ab"));
}

#[test]
fn epoch_day_numbers_are_exact() {
    let d = |y, m, dd| DateVal {
        year: y,
        month: m,
        day: dd,
    };
    assert_eq!(days_since_epoch(d(1970, 1, 1)), 0);
    assert_eq!(days_since_epoch(d(1970, 1, 2)), 1);
    assert_eq!(days_since_epoch(d(1969, 12, 31)), -1);
    assert_eq!(days_since_epoch(d(2000, 2, 29)), 11016);
    assert_eq!(days_since_epoch(d(2024, 2, 29)), 19782);
    assert_eq!(days_since_epoch(d(2023, 10, 11)), 19641);
    assert_eq!(days_since_epoch(d(1, 1, 1)), -719162);
    assert_eq!(days_since_epoch(d(9999, 12, 31)), 2932896);
}

#[test]
fn microsecond_values_are_exact() {
    let t = |h, m, s| TimeVal {
        hour: h,
        minute: m,
        second: s,
    };
    assert_eq!(time_micros(t(0, 0, 0)), 0);
    assert_eq!(time_micros(t(13, 45, 1)), 49_501_000_000);
    assert_eq!(time_micros(t(23, 59, 59)), 86_399_000_000);
    let dt = DateTimeVal {
        date: DateVal {
            year: 2024,
            month: 2,
            day: 29,
        },
        time: t(13, 45, 1),
    };
    assert_eq!(datetime_micros(dt), 1_709_214_301_000_000);
    let pre = DateTimeVal {
        date: DateVal {
            year: 1969,
            month: 12,
            day: 31,
        },
        time: t(23, 59, 59),
    };
    assert_eq!(datetime_micros(pre), -1_000_000);
}
