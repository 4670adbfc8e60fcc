use wjmclock::color::Color;
use wjmclock::config::{config_source, elements_or_defaults, ConfigPlace, ConfigSource};
use wjmclock::config::{
    default_background, default_height, default_marker_kind, default_true, default_width,
    resolve_marker_style, CliOverrides, MarkerKind, MarkerStyleError, TopAlign,
    WindowFlags,
};

#[test]
fn marker_style_resolves_kind_and_zone() {
    let (kind, tz) = resolve_marker_style("dot", &Some("Europe/Stockholm".to_string())).unwrap();
    assert_eq!(kind, MarkerKind::Dot);
    assert_eq!(tz, Some(chrono_tz::Tz::Europe__Stockholm));
    let (_, tz) = resolve_marker_style("dot", &None).unwrap();
    assert!(tz.is_none());
}

#[test]
fn marker_style_errors_in_order() {
    assert_eq!(
        resolve_marker_style("square", &Some("Nowhere/Zone".to_string())).unwrap_err(),
        MarkerStyleError::UnknownKind("square".to_string())
    );
    assert_eq!(
        resolve_marker_style("dot", &Some("Nowhere/Zone".to_string())).unwrap_err(),
        MarkerStyleError::UnknownTimezone("Nowhere/Zone".to_string())
    );
}

#[test]
fn tz_lookup_is_exact() {
    assert!(resolve_marker_style("dot", &Some("UTC".to_string())).is_ok());
    assert!(resolve_marker_style("dot", &Some("utc".to_string())).is_err());
    assert!(resolve_marker_style("dot", &Some(" UTC".to_string())).is_err());
}

#[test]
fn cli_overrides_apply_and_are_idempotent() {
    let mut w = WindowFlags { width: 1920, height: 1080, fullscreen: false, no_cursor: false };
    let cli = CliOverrides { width: Some(800), height: None, fullscreen: true, no_cursor: false };
    w.apply_cli(&cli);
    assert_eq!(w, WindowFlags { width: 800, height: 1080, fullscreen: true, no_cursor: false });
    let once = w;
    w.apply_cli(&cli);
    assert_eq!(w, once);
}

#[test]
fn cli_flags_never_switch_off() {
    let mut w = WindowFlags { width: 1, height: 2, fullscreen: true, no_cursor: true };
    w.apply_cli(&CliOverrides { width: None, height: None, fullscreen: false, no_cursor: false });
    assert_eq!(w, WindowFlags { width: 1, height: 2, fullscreen: true, no_cursor: true });
}

#[test]
fn config_defaults() {
    assert_eq!(default_width(), 1920);
    assert_eq!(default_height(), 1080);
    assert_eq!(default_background(), Color::rgb(0x0a, 0x0a, 0x14));
    assert_eq!(default_marker_kind(), "dot");
    assert!(default_true());
    assert_eq!(TopAlign::default(), TopAlign::Left);
}

#[test]
fn config_lookup_order() {
    assert_eq!(config_source(Some(true), Some(true), true), ConfigSource::Read(ConfigPlace::Explicit));
    assert_eq!(config_source(Some(false), Some(true), true), ConfigSource::NotFound);
    assert_eq!(config_source(None, Some(true), true), ConfigSource::Read(ConfigPlace::Platform));
    assert_eq!(config_source(None, Some(false), true), ConfigSource::Read(ConfigPlace::Local));
    assert_eq!(config_source(None, None, true), ConfigSource::Read(ConfigPlace::Local));
    assert_eq!(config_source(None, None, false), ConfigSource::Defaults);
}

#[test]
fn empty_element_list_falls_back_to_defaults() {
    assert_eq!(elements_or_defaults(Vec::<u8>::new(), vec![7, 8]), vec![7, 8]);
    assert_eq!(elements_or_defaults(vec![1], vec![7, 8]), vec![1]);
}
