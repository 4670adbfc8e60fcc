use wjmclock::color::Color;

fn rgba(s: &str) -> (u8, u8, u8, u8) {
    let c = Color::parse(s).unwrap();
    (c.r, c.g, c.b, c.a)
}

#[test]
fn long_form() {
    assert_eq!(rgba("#ff8000"), (0xff, 0x80, 0x00, 0xff));
    assert_eq!(rgba("#000000"), (0, 0, 0, 0xff));
}

#[test]
fn long_form_alpha() {
    assert_eq!(rgba("#ff800040"), (0xff, 0x80, 0x00, 0x40));
    assert_eq!(rgba("#00000000"), (0, 0, 0, 0));
}

#[test]
fn short_form_expands_each_nibble() {
    assert_eq!(rgba("#abc"), (0xaa, 0xbb, 0xcc, 0xff));
    assert_eq!(rgba("#000"), (0, 0, 0, 0xff));
    assert_eq!(rgba("#fff"), (0xff, 0xff, 0xff, 0xff));
}

#[test]
fn color_case_insensitive() {
    assert_eq!(rgba("#AABBCC"), rgba("#aabbcc"));
    assert_eq!(rgba("#AbC"), rgba("#abc"));
}

#[test]
fn whitespace_is_trimmed() {
    assert_eq!(rgba("  #ff8000\t"), (0xff, 0x80, 0x00, 0xff));
}

#[test]
fn rejects_missing_hash() {
    assert!(Color::parse("ff8000").is_err());
}

#[test]
fn rejects_wrong_length() {
    assert!(Color::parse("#").is_err());
    assert!(Color::parse("#f").is_err());
    assert!(Color::parse("#ff").is_err());
    assert!(Color::parse("#ffff").is_err());
    assert!(Color::parse("#fffff").is_err());
    assert!(Color::parse("#fffffff").is_err()); // 7 chars
    assert!(Color::parse("#fffffffff").is_err()); // 9 chars
}

#[test]
fn rejects_non_hex_chars() {
    assert!(Color::parse("#zzz").is_err());
    assert!(Color::parse("#12g456").is_err());
    assert!(Color::parse("#1c3a3").is_err());
}

#[test]
fn rejects_empty() {
    assert!(Color::parse("").is_err());
    assert!(Color::parse("   ").is_err());
}

#[test]
fn rgb_is_opaque() {
    assert_eq!(Color::rgb(0x7d, 0xf5, 0xd2), Color { r: 0x7d, g: 0xf5, b: 0xd2, a: 0xff });
}

#[test]
fn error_carries_trimmed_input() {
    let e = Color::parse("  #nope \n").unwrap_err();
    assert_eq!(e.input(), "#nope");
}

#[test]
fn short_form_equals_doubled_long_form() {
    assert_eq!(rgba("#1a9"), rgba("#11aa99"));
    assert_eq!(rgba("#F0c"), rgba("#FF00cc"));
}

#[test]
fn unicode_whitespace_is_trimmed() {
    assert_eq!(rgba("\u{3000}#010203\u{a0}"), (1, 2, 3, 0xff));
    assert_eq!(rgba("\u{2028}#abc\u{85}"), (0xaa, 0xbb, 0xcc, 0xff));
}

#[test]
fn signs_are_not_hex_digits() {
    assert!(Color::parse("#+f+f+f").is_err());
    assert!(Color::parse("#+++").is_err());
    assert!(Color::parse("#-f0000").is_err());
    assert!(Color::parse("#ff00+f").is_err());
}

#[test]
fn non_ascii_chars_are_rejected() {
    assert!(Color::parse("#ééé").is_err());
    assert!(Color::parse("#é1").is_err());
}

#[test]
fn premultiplied_bytes() {
    assert_eq!(Color::rgb(10, 20, 30).to_premultiplied(), [10, 20, 30, 255]);
    assert_eq!(Color { r: 200, g: 100, b: 50, a: 0 }.to_premultiplied(), [0, 0, 0, 0]);
    assert_eq!(Color { r: 255, g: 0, b: 64, a: 128 }.to_premultiplied(), [128, 0, 32, 128]);
    for a in (0..=255u8).step_by(17) {
        for v in (0..=255u8).step_by(15) {
            let c = Color { r: v, g: 255 - v, b: v / 2, a };
            let expect = egui::Color32::from_rgba_unmultiplied(c.r, c.g, c.b, c.a).to_array();
            assert_eq!(c.to_premultiplied(), expect);
        }
    }
}

#[test]
fn error_message_quotes_the_trimmed_input() {
    let err = Color::parse("  #zz  ").unwrap_err();
    assert_eq!(err.input(), "#zz");
    assert_eq!(
        err.message(),
        "invalid color \"#zz\" (expected #rgb, #rrggbb, or #rrggbbaa)"
    );
    assert!(err.message().contains("invalid color"));
}
