use binance_klines_downloader::commands::{previous_month_utc, yesterday_utc, Frequency};
use binance_klines_downloader::date::{
    format_plain_ym, format_ym, format_ymd, leap_year, month_length, Date,
};
use binance_klines_downloader::scheduler::{next_utc_13_15, UtcDateTime, RUN_SECOND_OF_DAY};

fn d(year: i32, month: u32, day: u32) -> Date {
    Date { year, month, day }
}

#[test]
fn leap_years_follow_gregorian_rule() {
    assert!(leap_year(2024));
    assert!(!leap_year(2023));
    assert!(!leap_year(1900));
    assert!(leap_year(2000));
    assert!(leap_year(0));
    assert!(leap_year(-4));
    assert!(!leap_year(-100));
    assert!(leap_year(-400));
}

#[test]
fn month_lengths() {
    assert_eq!(month_length(2024, 2), 29);
    assert_eq!(month_length(2025, 2), 28);
    assert_eq!(month_length(2025, 4), 30);
    assert_eq!(month_length(2025, 12), 31);
}

#[test]
fn succ_and_pred_cross_month_and_year_ends() {
    assert_eq!(d(2025, 3, 10).succ(), d(2025, 3, 11));
    assert_eq!(d(2025, 2, 28).succ(), d(2025, 3, 1));
    assert_eq!(d(2024, 2, 28).succ(), d(2024, 2, 29));
    assert_eq!(d(2025, 12, 31).succ(), d(2026, 1, 1));
    assert_eq!(d(2026, 1, 1).pred(), d(2025, 12, 31));
    assert_eq!(d(2024, 3, 1).pred(), d(2024, 2, 29));
    assert_eq!(d(2025, 5, 1).pred(), d(2025, 4, 30));
}

#[test]
fn pred_undoes_succ() {
    for start in [d(2024, 2, 29), d(1999, 12, 31), d(2025, 6, 30), d(-1, 12, 31)] {
        assert_eq!(start.succ().pred(), start);
        assert_eq!(start.pred().succ(), start);
    }
}

#[test]
fn chrono_style_date_texts() {
    assert_eq!(format_ymd(&d(2025, 3, 1)), "2025-03-01");
    assert_eq!(format_ymd(&d(987, 11, 9)), "0987-11-09");
    assert_eq!(format_ymd(&d(12345, 1, 2)), "+12345-01-02");
    assert_eq!(format_ymd(&d(-1, 1, 2)), "-0001-01-02");
    assert_eq!(format_ym(2022, 10), "2022-10");
    assert_eq!(format_ym(5, 7), "0005-07");
}

#[test]
fn plain_year_month_text() {
    assert_eq!(format_plain_ym(2025, 4), "2025-04");
    assert_eq!(format_plain_ym(987, 12), "987-12");
    assert_eq!(format_plain_ym(-3, 1), "-3-01");
}

#[test]
fn yesterday_is_previous_day() {
    assert_eq!(yesterday_utc(&d(2026, 6, 26)), "2026-06-25");
    assert_eq!(yesterday_utc(&d(2025, 1, 1)), "2024-12-31");
    assert_eq!(yesterday_utc(&d(2024, 3, 1)), "2024-02-29");
}

#[test]
fn previous_month_wraps_january() {
    assert_eq!(previous_month_utc(&d(2026, 6, 3)), "2026-05");
    assert_eq!(previous_month_utc(&d(2026, 1, 3)), "2025-12");
    assert_eq!(previous_month_utc(&d(2026, 10, 31)), "2026-09");
}

#[test]
fn frequency_names() {
    assert_eq!(Frequency::Daily.to_string(), "daily");
    assert_eq!(Frequency::Monthly.to_string(), "monthly");
}

fn at(date: Date, h: u32, m: u32, s: u32, nanos: u32) -> UtcDateTime {
    UtcDateTime { date, second_of_day: h * 3600 + m * 60 + s, nanosecond: nanos }
}

#[test]
fn next_run_is_today_before_13_15() {
    let r = next_utc_13_15(&at(d(2025, 3, 10), 9, 0, 0, 0));
    assert_eq!(r, UtcDateTime { date: d(2025, 3, 10), second_of_day: RUN_SECOND_OF_DAY, nanosecond: 0 });
    let r = next_utc_13_15(&at(d(2025, 3, 10), 13, 14, 59, 999_999_999));
    assert_eq!(r.date, d(2025, 3, 10));
}

#[test]
fn next_run_is_tomorrow_from_13_15_on() {
    let r = next_utc_13_15(&at(d(2025, 3, 10), 13, 15, 0, 0));
    assert_eq!(r, UtcDateTime { date: d(2025, 3, 11), second_of_day: 47700, nanosecond: 0 });
    let r = next_utc_13_15(&at(d(2025, 12, 31), 23, 59, 59, 0));
    assert_eq!(r.date, d(2026, 1, 1));
    assert_eq!(r.second_of_day, 13 * 3600 + 15 * 60);
}
