use wjmclock::color::Color;
use wjmclock::elements::{
    marker_time_text, status_color,
    check_projection, default_callsign_color, default_coast_color, default_coastline,
    default_day_color, default_grid, default_grid_color, default_marker_color,
    default_night_color, default_projection, default_subsolar_marker, default_terminator,
    default_twilight_color, open_bands_string, propagation_targets, status_line, ElementKind,
    MissingHome, UnknownElement,
};

#[test]
fn element_kinds() {
    assert_eq!(ElementKind::parse("clock"), Ok(ElementKind::Clock));
    assert_eq!(ElementKind::parse("map"), Ok(ElementKind::WorldMap));
    assert_eq!(ElementKind::parse("callsign"), Ok(ElementKind::Callsign));
    assert_eq!(ElementKind::parse("propagation"), Ok(ElementKind::Propagation));
    assert_eq!(ElementKind::parse("Clock"), Err(UnknownElement("Clock".to_string())));
}

#[test]
fn projections() {
    assert!(check_projection("equirectangular").is_ok());
    assert!(check_projection("platecarree").is_ok());
    assert_eq!(check_projection("mercator").unwrap_err().0, "mercator");
    assert_eq!(default_projection(), "equirectangular");
}

#[test]
fn element_defaults() {
    assert_eq!(default_callsign_color(), Color::rgb(0xff, 0xd6, 0x6b));
    assert_eq!(default_coast_color(), Color::rgb(0x39, 0xc0, 0x8c));
    assert_eq!(default_grid_color(), Color::rgb(0x1c, 0x3a, 0x3a));
    assert_eq!(default_marker_color(), Color::rgb(0xff, 0x55, 0x77));
    assert_eq!(default_night_color(), Color::rgb(0x04, 0x09, 0x1e));
    assert_eq!(default_twilight_color(), Color::rgb(0xff, 0xb0, 0x60));
    assert_eq!(default_day_color(), Color::rgb(0x15, 0x23, 0x3f));
    assert!(default_terminator() && default_grid() && default_subsolar_marker());
    assert!(default_coastline());
}

#[test]
fn targets_skip_home() {
    let texts: Vec<String> = ["HOME", "NATAL", "HOME", "TOKYO"].iter().map(|s| s.to_string()).collect();
    assert_eq!(propagation_targets(&Some("HOME".to_string()), &texts), Ok(vec![1, 3]));
    assert_eq!(propagation_targets(&None, &texts), Err(MissingHome));
}

#[test]
fn open_bands_text() {
    let none = vec![false; 8];
    assert_eq!(open_bands_string(&none), "—");
    let some = vec![false, true, false, true, true, false, false, false];
    assert_eq!(open_bands_string(&some), "40m 20m 17m");
    assert_eq!(open_bands_string(&vec![true; 8]), "80m 40m 30m 20m 17m 15m 12m 10m");
}

#[test]
fn status_lines() {
    assert_eq!(status_line(Some((7, 5)), false), "as of 07:05Z");
    assert_eq!(status_line(Some((13, 45)), true), "STALE — 13:45Z");
    assert_eq!(status_line(None, true), "ERR");
    assert_eq!(status_line(None, false), "loading…");
}

#[test]
fn marker_time_is_zero_padded() {
    assert_eq!(marker_time_text(7, 5), "07:05");
    assert_eq!(marker_time_text(23, 59), "23:59");
    assert_eq!(marker_time_text(0, 0), "00:00");
}

#[test]
fn status_color_marks_failures() {
    assert_eq!(status_color(true), Color::rgb(255, 140, 90));
    assert_eq!(status_color(false), Color::rgb(140, 180, 200));
}
