use wjmclock::config::{SlotKind, TopAlign};
use wjmclock::slots::{
    capitalize, join_capitalized, toggle_key, window_title, Placement, SlotError, SlotPlanner,
};

#[test]
fn capitalize_first_letter() {
    assert_eq!(capitalize("propagation"), "Propagation");
    assert_eq!(capitalize(""), "");
    assert_eq!(capitalize("ßx"), "SSx");
}

#[test]
fn titles() {
    assert_eq!(window_title(&Some("Bands".to_string()), "propagation"), "Bands");
    assert_eq!(window_title(&None, "clock"), "Clock");
}

#[test]
fn only_one_center() {
    let mut p = SlotPlanner::new();
    assert_eq!(p.place(SlotKind::Top, TopAlign::Left, false, "clock"), Ok(Placement::TopLeft));
    assert_eq!(p.place(SlotKind::Top, TopAlign::Right, false, "clock"), Ok(Placement::TopRight));
    assert_eq!(p.place(SlotKind::Center, TopAlign::Left, false, "map"), Ok(Placement::Center));
    assert_eq!(
        p.place(SlotKind::Center, TopAlign::Left, false, "map"),
        Err(SlotError::MultipleCenterElements)
    );
}

#[test]
fn window_needs_rect() {
    let mut p = SlotPlanner::new();
    assert_eq!(
        p.place(SlotKind::Window, TopAlign::Left, false, "propagation"),
        Err(SlotError::WindowWithoutRect("propagation".to_string()))
    );
    assert_eq!(p.place(SlotKind::Window, TopAlign::Left, true, "propagation"), Ok(Placement::Window));
    assert!(!p.center_taken);
}

#[test]
fn join_capitalized_replaces_the_first_character() {
    assert_eq!(join_capitalized(&vec!['C'], &vec!['c', 'l', 'o', 'c', 'k']), "Clock");
    assert_eq!(join_capitalized(&vec!['S', 'S'], &vec!['ß', 'x']), "SSx");
    assert_eq!(join_capitalized(&vec!['X'], &vec![]), "");
}

#[test]
fn capitalize_uses_the_full_uppercase_mapping() {
    assert_eq!(capitalize("ßx"), "SSx");
    assert_eq!(capitalize(""), "");
}

#[test]
fn toggle_keys_by_name() {
    assert_eq!(toggle_key(&None, "propagation"), Ok(None));
    assert_eq!(toggle_key(&Some("F".to_string()), "propagation"), Ok(Some(egui::Key::F)));
    assert_eq!(toggle_key(&Some("F2".to_string()), "clock"), Ok(Some(egui::Key::F2)));
    assert_eq!(
        toggle_key(&Some("Nope".to_string()), "propagation"),
        Err(SlotError::UnknownKey("propagation".to_string(), "Nope".to_string()))
    );
}
