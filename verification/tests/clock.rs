use wjmclock::clock::{
    default_color, default_format, default_label, default_tz, format_date, format_time, hour12,
    month_short, weekday_short, ClockConfigError, ClockSettings,
};
use wjmclock::clock::next_second_delay_ms;
use wjmclock::color::Color;

#[test]
fn time_in_24h_form() {
    assert_eq!(format_time(9, 5, 7, true), "09:05:07");
    assert_eq!(format_time(23, 59, 59, true), "23:59:59");
}

#[test]
fn time_in_12h_form() {
    assert_eq!(format_time(0, 0, 0, false), "12:00:00 AM");
    assert_eq!(format_time(9, 5, 7, false), " 9:05:07 AM");
    assert_eq!(format_time(12, 30, 0, false), "12:30:00 PM");
    assert_eq!(format_time(23, 1, 2, false), "11:01:02 PM");
}

#[test]
fn hour12_dial() {
    assert_eq!(hour12(0), (false, 12));
    assert_eq!(hour12(11), (false, 11));
    assert_eq!(hour12(12), (true, 12));
    assert_eq!(hour12(13), (true, 1));
}

#[test]
fn date_line() {
    assert_eq!(format_date(0, 7, 7, 2025), "MON 07 JUL 2025");
    assert_eq!(format_date(6, 31, 12, 1999), "SUN 31 DEC 1999");
    assert_eq!(format_date(2, 1, 1, -44), "WED 01 JAN -44");
}

#[test]
fn names_of_days_and_months() {
    let days: Vec<&str> = (0..7).map(weekday_short).collect();
    assert_eq!(days, ["MON", "TUE", "WED", "THU", "FRI", "SAT", "SUN"]);
    assert_eq!(month_short(1), "JAN");
    assert_eq!(month_short(12), "DEC");
    assert_eq!(month_short(13), "DEC");
}

#[test]
fn clock_defaults() {
    assert_eq!(default_tz(), "UTC");
    assert_eq!(default_format(), "24h");
    assert!(default_label());
    assert_eq!(default_color(), Color::rgb(0x7d, 0xf5, 0xd2));
}

#[test]
fn clock_settings_checks_zone_then_format() {
    let ok = ClockSettings::from_config("Europe/Stockholm".to_string(), "12").unwrap();
    assert_eq!(ok.label_text, "Europe/Stockholm");
    assert!(!ok.twenty_four_hour);
    assert_eq!(ok.tz, chrono_tz::Tz::Europe__Stockholm);
    let ok = ClockSettings::from_config("UTC".to_string(), "24h").unwrap();
    assert!(ok.twenty_four_hour);
    match ClockSettings::from_config("Mars/Olympus".to_string(), "bogus") {
        Err(e) => assert_eq!(e, ClockConfigError::UnknownTimezone("Mars/Olympus".to_string())),
        Ok(_) => panic!("zone should be refused"),
    }
    match ClockSettings::from_config("UTC".to_string(), "13h") {
        Err(e) => assert_eq!(e, ClockConfigError::BadFormat("13h".to_string())),
        Ok(_) => panic!("format should be refused"),
    }
}

#[test]
fn repaint_at_next_second() {
    assert_eq!(next_second_delay_ms(0), 1000);
    assert_eq!(next_second_delay_ms(900), 100);
    assert_eq!(next_second_delay_ms(980), 50);
    assert_eq!(next_second_delay_ms(1500), 50);
}
