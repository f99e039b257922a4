use chrono::DateTime;
use flipdot_clock::format::{format_time, RenderConfig, TimeStrings};
use flipdot_clock::timestamp::{Timestamp, SECONDS_LIMIT};

fn reading(seconds: i64) -> Timestamp {
    Timestamp::new(seconds, 0).expect("in range")
}

fn config(use_24_hour: bool, show_day_of_week: bool) -> RenderConfig {
    RenderConfig { use_24_hour, show_day_of_week }
}

// 2024-02-28 14:05:00, a Wednesday
const AFTERNOON: i64 = 1_709_129_100;

#[test]
fn twenty_four_hour_time_with_month() {
    let out = format_time(&reading(AFTERNOON), &config(true, false));
    assert_eq!(out.time_string, "14:05");
    assert_eq!(out.meridiem_string, None);
    assert_eq!(out.date_string, " FEB\u{2009}28");
}

#[test]
fn twelve_hour_time_in_the_afternoon() {
    let out = format_time(&reading(AFTERNOON), &config(false, false));
    assert_eq!(out.time_string, " 2:05");
    assert_eq!(out.meridiem_string.as_deref(), Some("PM"));
    assert_eq!(out.date_string, " FEB\u{2009}28");
}

#[test]
fn twelve_hour_time_in_the_morning() {
    // 2024-02-28 02:05:00
    let out = format_time(&reading(1_709_085_900), &config(false, false));
    assert_eq!(out.time_string, " 2:05");
    assert_eq!(out.meridiem_string.as_deref(), Some("AM"));
}

#[test]
fn twenty_four_hour_time_in_the_morning_has_a_leading_zero() {
    let out = format_time(&reading(1_709_085_900), &config(true, false));
    assert_eq!(out.time_string, "02:05");
}

#[test]
fn midnight_is_twelve_am() {
    // 2021-07-04 00:00:00, a Sunday
    let out = format_time(&reading(1_625_356_800), &config(false, true));
    assert_eq!(out.time_string, "12:00");
    assert_eq!(out.meridiem_string.as_deref(), Some("AM"));
    assert_eq!(out.date_string, " SUN\u{2009}04");
    let out = format_time(&reading(1_625_356_800), &config(true, true));
    assert_eq!(out.time_string, "00:00");
}

#[test]
fn noon_is_twelve_pm() {
    let out = format_time(&reading(1_625_400_000), &config(false, false));
    assert_eq!(out.time_string, "12:00");
    assert_eq!(out.meridiem_string.as_deref(), Some("PM"));
    assert_eq!(out.date_string, " JUL\u{2009}04");
}

#[test]
fn two_digit_hours_on_the_twelve_hour_dial() {
    // 2024-12-25 10:23:47
    let out = format_time(&reading(1_735_122_227), &config(false, false));
    assert_eq!(out.time_string, "10:23");
    assert_eq!(out.meridiem_string.as_deref(), Some("AM"));
    assert_eq!(out.date_string, " DEC\u{2009}25");
    // 23:59:59 on 1969-12-31
    let out = format_time(&reading(-1), &config(false, true));
    assert_eq!(out.time_string, "11:59");
    assert_eq!(out.meridiem_string.as_deref(), Some("PM"));
    assert_eq!(out.date_string, " WED\u{2009}31");
}

#[test]
fn day_of_week_takes_the_place_of_the_month() {
    let out = format_time(&reading(AFTERNOON), &config(true, true));
    assert_eq!(out.time_string, "14:05");
    assert_eq!(out.date_string, " WED\u{2009}28");
}

#[test]
fn the_date_is_in_upper_case_with_a_narrow_space() {
    let out = format_time(&reading(951_815_223), &config(true, false));
    assert_eq!(out.date_string.chars().collect::<Vec<char>>(), vec![' ', 'F', 'E', 'B', '\u{2009}', '2', '9']);
    assert!(!out.date_string.chars().any(|c| c.is_lowercase()));
}

#[test]
fn every_month_has_its_name() {
    let names = ["JAN", "FEB", "MAR", "APR", "MAY", "JUN", "JUL", "AUG", "SEP", "OCT", "NOV", "DEC"];
    // the fifteenth of each month of 2023, at noon
    let noons: [i64; 12] = [
        1_673_784_000,
        1_676_462_400,
        1_678_881_600,
        1_681_560_000,
        1_684_152_000,
        1_686_830_400,
        1_689_422_400,
        1_692_100_800,
        1_694_779_200,
        1_697_371_200,
        1_700_049_600,
        1_702_641_600,
    ];
    for (name, noon) in names.iter().zip(noons) {
        let out = format_time(&reading(noon), &config(true, false));
        assert_eq!(out.date_string, format!(" {name}\u{2009}15"));
    }
}

#[test]
fn every_day_of_the_week_has_its_name() {
    let names = ["THU", "FRI", "SAT", "SUN", "MON", "TUE", "WED"];
    for (day, name) in names.iter().enumerate() {
        let out = format_time(&reading(86_400 * day as i64), &config(true, true));
        assert_eq!(out.date_string, format!(" {name}\u{2009}0{}", day + 1));
    }
}

#[test]
fn the_marker_is_there_exactly_on_the_twelve_hour_dial() {
    for seconds in [-1_i64, 0, AFTERNOON, 1_625_356_800, 1_625_400_000] {
        for show_day_of_week in [false, true] {
            let out = format_time(&reading(seconds), &config(true, show_day_of_week));
            assert_eq!(out.meridiem_string, None);
            let out = format_time(&reading(seconds), &config(false, show_day_of_week));
            let marker = out.meridiem_string.expect("a marker");
            assert!(marker == "AM" || marker == "PM");
        }
    }
}

#[test]
fn the_same_reading_gives_the_same_strings() {
    for use_24_hour in [false, true] {
        for show_day_of_week in [false, true] {
            let settings = config(use_24_hour, show_day_of_week);
            let first = format_time(&reading(AFTERNOON), &settings);
            let second = format_time(&reading(AFTERNOON), &settings);
            assert_eq!(first, second);
        }
    }
}

#[test]
fn seconds_and_nanos_do_not_show() {
    let settings = config(false, true);
    let whole = format_time(&reading(AFTERNOON), &settings);
    let later = format_time(&Timestamp::new(AFTERNOON + 59, 999_999_999).unwrap(), &settings);
    assert_eq!(whole, later);
}

fn by_chrono(seconds: i64, settings: &RenderConfig) -> TimeStrings {
    let there = DateTime::from_timestamp(seconds, 0).unwrap().naive_utc();
    let date = if settings.show_day_of_week { " %a\u{2009}%d" } else { " %b\u{2009}%d" };
    TimeStrings {
        time_string: there.format(if settings.use_24_hour { "%H:%M" } else { "%_I:%M" }).to_string(),
        meridiem_string: if settings.use_24_hour { None } else { Some(there.format("%p").to_string()) },
        date_string: there.format(date).to_string().to_uppercase(),
    }
}

#[test]
fn strings_agree_with_chrono() {
    let mut seconds: i64 = -2_000_000_000;
    while seconds < 4_200_000_000 {
        for use_24_hour in [false, true] {
            for show_day_of_week in [false, true] {
                let settings = config(use_24_hour, show_day_of_week);
                assert_eq!(format_time(&reading(seconds), &settings), by_chrono(seconds, &settings));
            }
        }
        seconds += 9_876_543;
    }
}

#[test]
fn strings_at_the_ends_of_the_range() {
    for seconds in [-SECONDS_LIMIT, SECONDS_LIMIT - 1] {
        let settings = config(false, true);
        assert_eq!(format_time(&reading(seconds), &settings), by_chrono(seconds, &settings));
    }
    let out = format_time(&reading(-SECONDS_LIMIT), &config(true, true));
    assert_eq!(out.time_string, "00:00");
    assert!(out.date_string.starts_with(" THU\u{2009}"));
}
