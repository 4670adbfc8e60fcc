use wjmclock::textures::{decode, TextureChoice, UnknownTexture};

#[test]
fn texture_names() {
    assert_eq!(TextureChoice::parse("natural_earth"), Ok(TextureChoice::NaturalEarth));
    assert_eq!(TextureChoice::parse("earth_at_night"), Ok(TextureChoice::EarthAtNight));
    assert_eq!(TextureChoice::parse("mars"), Err(UnknownTexture("mars".to_string())));
}

#[test]
fn decodes_png_pixels() {
    let mut img = image::RgbaImage::new(2, 1);
    img.put_pixel(0, 0, image::Rgba([1, 2, 3, 4]));
    img.put_pixel(1, 0, image::Rgba([250, 251, 252, 253]));
    let mut png = Vec::new();
    img.write_to(&mut std::io::Cursor::new(&mut png), image::ImageFormat::Png).unwrap();
    let out = decode(&png).unwrap();
    assert_eq!((out.width, out.height), (2, 1));
    assert_eq!(out.pixels, vec![1, 2, 3, 4, 250, 251, 252, 253]);
}

#[test]
fn refuses_non_png() {
    assert!(decode(b"not a png").is_err());
}

#[test]
fn unknown_texture_message_names_the_choices() {
    let err = TextureChoice::parse("moon").unwrap_err();
    assert_eq!(
        err.message(),
        "unknown texture \"moon\" (expected \"natural_earth\" or \"earth_at_night\")"
    );
    assert_eq!(
        UnknownTexture("a\"b".to_string()).message(),
        "unknown texture \"a\\\"b\" (expected \"natural_earth\" or \"earth_at_night\")"
    );
}
