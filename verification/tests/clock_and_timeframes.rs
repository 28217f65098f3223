//! New York session clock, feed delay text, product timeframes, chart glyphs.
use chrono::{TimeZone, Utc};
use trading_telemetry::calendar::{
    cash_open_ny, local_ny_to_unix, ny_utc_offset_seconds, ny_ymd, unix_to_ymd, unix_weekday, ymd_hms_to_unix,
};
use trading_telemetry::feed_clock::{format_compact_delay, format_ny_wall_clock};
use trading_telemetry::glyph::{braille_char, is_candle_glyph, is_empty_glyph};
use trading_telemetry::timeframe::{product_timeframe_seconds, product_timeframe_to_interval, v1_timeframes_list, Interval};

#[test]
fn ny_wall_clock_uses_edt_in_summer() {
    // 2026-08-14 15:17:44 UTC is 11:17:44 in US Eastern daylight time.
    let utc = Utc.with_ymd_and_hms(2026, 8, 14, 15, 17, 44).unwrap();
    assert_eq!(format_ny_wall_clock(utc.timestamp()), "11:17:44 EDT");
}

#[test]
fn ny_wall_clock_uses_est_in_winter() {
    // 2026-01-15 12:00:00 UTC is 07:00:00 in US Eastern standard time.
    let utc = Utc.with_ymd_and_hms(2026, 1, 15, 12, 0, 0).unwrap();
    assert_eq!(format_ny_wall_clock(utc.timestamp()), "07:00:00 EST");
}

#[test]
fn compact_delay_seconds_minutes_hours() {
    assert_eq!(format_compact_delay(5), "5s");
    assert_eq!(format_compact_delay(59), "59s");
    assert_eq!(format_compact_delay(26 * 60), "26m");
    assert_eq!(format_compact_delay(3600 + 2 * 60), "1h 02m");
    assert_eq!(format_compact_delay(0), "0s");
    assert_eq!(format_compact_delay(60), "1m");
    assert_eq!(format_compact_delay(10 * 3600 + 59 * 60 + 59), "10h 59m");
}

#[test]
fn all_v1_timeframes_map_to_intervals() {
    let expected = [
        ("1m", Interval::OneMinute, 60),
        ("3m", Interval::ThreeMinutes, 180),
        ("5m", Interval::FiveMinutes, 300),
        ("15m", Interval::FifteenMinutes, 900),
        ("30m", Interval::ThirtyMinutes, 1800),
        ("1h", Interval::OneHour, 3600),
        ("4h", Interval::FourHours, 14400),
        ("1D", Interval::OneDay, 86400),
        ("1W", Interval::OneWeek, 604800),
    ];
    let v1 = v1_timeframes_list();
    assert_eq!(v1.len(), expected.len());
    for (tf, interval, secs) in expected {
        assert!(v1.contains(&tf), "fixture timeframe {tf} missing from the product set");
        assert_eq!(product_timeframe_to_interval(tf), Some(interval));
        assert_eq!(product_timeframe_seconds(tf), Some(secs));
        assert_eq!(interval.seconds(), secs);
    }
}

#[test]
fn unknown_timeframe_is_none() {
    assert_eq!(product_timeframe_to_interval("2m"), None);
    assert_eq!(product_timeframe_to_interval(""), None);
    assert_eq!(product_timeframe_to_interval("1d"), None); // case-sensitive product tokens
    assert_eq!(product_timeframe_seconds("1w"), None);
}

#[test]
fn calendar_days_round_trip() {
    // 2024-07-01 is a Monday (weekday 1 with Sunday = 0).
    assert_eq!(unix_to_ymd(1_719_792_000), (2024, 7, 1));
    assert_eq!(ymd_hms_to_unix(2024, 7, 1, 0, 0, 0), 1_719_792_000);
    assert_eq!(unix_weekday(1_719_792_000), 1);
    assert_eq!(unix_to_ymd(0), (1970, 1, 1));
    assert_eq!(unix_to_ymd(-1), (1969, 12, 31));
    assert_eq!(ymd_hms_to_unix(2000, 2, 29, 12, 30, 15), 951_827_415);
    assert_eq!(unix_to_ymd(951_827_415), (2000, 2, 29));
}

#[test]
fn every_valid_date_survives_the_unix_round_trip() {
    let leap = |y: i32| y % 4 == 0 && (y % 100 != 0 || y % 400 == 0);
    let month_days = |y: i32, m: u32| match m {
        2 if leap(y) => 29,
        2 => 28,
        4 | 6 | 9 | 11 => 30,
        _ => 31,
    };
    assert_eq!(ymd_hms_to_unix(1970, 1, 1, 0, 0, 0), 0);
    for year in (1..=9999).step_by(97).chain([1900, 1969, 1970, 2000, 2024, 2100, 9999]) {
        for month in 1..=12u32 {
            for day in 1..=month_days(year, month) {
                let ts = ymd_hms_to_unix(year, month, day, 23, 59, 59);
                assert_eq!(unix_to_ymd(ts), (year, month, day));
                assert_eq!(unix_to_ymd(ymd_hms_to_unix(year, month, day, 0, 0, 0)), (year, month, day));
            }
        }
    }
}

#[test]
fn calendar_reaches_far_years() {
    let far = ymd_hms_to_unix(100_000, 7, 1, 14, 0, 0);
    assert_eq!(far, 3_093_543_756_000);
    assert_eq!(unix_to_ymd(far), (100_000, 7, 1));
    assert_eq!(cash_open_ny(far), 3_093_543_754_200);
    let huge = ymd_hms_to_unix(2_000_000_000, 7, 1, 14, 0, 0);
    assert_eq!(huge, 63_113_841_848_556_000);
    assert_eq!(unix_to_ymd(huge), (2_000_000_000, 7, 1));
    assert_eq!(cash_open_ny(huge), 63_113_841_848_554_200);
    // Before 0000-03-01 the era is taken one step further down, in both directions.
    let early = ymd_hms_to_unix(-5, 7, 1, 14, 0, 0);
    assert_eq!(early, -62_309_383_200);
    assert_eq!(unix_to_ymd(early), (-5, 7, 1));
    assert_eq!(cash_open_ny(early), -62_309_385_000);
    assert_eq!(unix_to_ymd(ymd_hms_to_unix(-1, 6, 15, 0, 0, 0)), (-1, 6, 16));
}

#[test]
fn new_york_offset_follows_us_dst() {
    // 2024-03-10 07:00 UTC is 03:00 EDT (the switch); one second earlier is 01:59:59 EST.
    assert_eq!(ny_utc_offset_seconds(1_710_054_000), -14_400);
    assert_eq!(ny_utc_offset_seconds(1_710_053_999), -18_000);
    // 2024-11-03 06:00 UTC is 01:00 EST (the switch back).
    assert_eq!(ny_utc_offset_seconds(1_730_613_600), -18_000);
    assert_eq!(ny_utc_offset_seconds(1_730_613_599), -14_400);
    assert_eq!(ny_ymd(1_719_792_000), (2024, 6, 30)); // 20:00 the evening before in New York
    assert_eq!(local_ny_to_unix(2024, 1, 15, 9, 30), 1_705_329_000);
}

#[test]
fn candle_and_empty_glyphs() {
    assert!(is_candle_glyph("┃"));
    assert!(is_candle_glyph("╻"));
    assert!(!is_candle_glyph("x"));
    assert!(is_empty_glyph(" "));
    assert!(is_empty_glyph(""));
    assert!(!is_empty_glyph("┃"));
    assert_eq!(braille_char(0), '\u{2800}');
    assert_eq!(braille_char(0xFF), '\u{28FF}');
    assert_eq!(braille_char(0b0000_0001), '⠁');
}
