use wjmclock::maidenhead::{decode, GridPoint, LocatorError, UNITS_PER_DEGREE};

fn deg(p: GridPoint) -> (f32, f32) {
    (
        (p.lat as f64 / UNITS_PER_DEGREE as f64) as f32,
        (p.lon as f64 / UNITS_PER_DEGREE as f64) as f32,
    )
}

fn approx(a: f32, b: f32, tol: f32) -> bool {
    (a - b).abs() < tol
}

#[test]
fn jn58_centre_munich() {
    // JN58 covers 10–12°E, 48–49°N. Centre ≈ 11°E, 48.5°N.
    let (lat, lon) = deg(decode("JN58").unwrap());
    assert!(approx(lon, 11.0, 1e-3), "lon={}", lon);
    assert!(approx(lat, 48.5, 1e-3), "lat={}", lat);
}

#[test]
fn jo99cd_near_stockholm() {
    let (lat, lon) = deg(decode("JO99cd").unwrap());
    assert!(approx(lon, 18.208, 0.05), "lon={}", lon);
    assert!(approx(lat, 59.146, 0.05), "lat={}", lat);
}

#[test]
fn maidenhead_case_insensitive() {
    let a = decode("jn58TD").unwrap();
    let b = decode("JN58td").unwrap();
    assert_eq!(a.lat, b.lat);
    assert_eq!(a.lon, b.lon);
}

#[test]
fn aa00_southwest_corner() {
    let (lat, lon) = deg(decode("AA").unwrap());
    assert!(approx(lon, -170.0, 1e-3));
    assert!(approx(lat, -85.0, 1e-3));
}

#[test]
fn rejects_bad_lengths() {
    assert!(decode("J").is_err());
    assert!(decode("JN5").is_err());
    assert!(decode("JN58t").is_err());
}

#[test]
fn rejects_bad_chars() {
    assert!(decode("ZZ").is_err());
    assert!(decode("JNAB").is_err());
    assert!(decode("JN58zz").is_err());
}

#[test]
fn exact_units_of_jn58() {
    assert_eq!(decode("JN58"), Ok(GridPoint { lat: 23280, lon: 5280 }));
}

#[test]
fn eight_character_locator() {
    // JO99cd11: extended square 1,1 inside JO99cd; centre at 7.5" steps.
    let p = decode("JO99cd11").unwrap();
    assert_eq!(p, GridPoint { lat: 28380 + 2 + 1, lon: 8720 + 4 + 2 });
}

#[test]
fn each_error_variant() {
    assert_eq!(decode("ABCDE"), Err(LocatorError::BadLength));
    assert_eq!(decode("zz"), Err(LocatorError::BadField('Z', 'Z')));
    assert_eq!(decode("JNab"), Err(LocatorError::BadSquare('a', 'b')));
    assert_eq!(decode("JN58ZZ"), Err(LocatorError::BadSubsquare('z', 'z')));
    assert_eq!(decode("JN58td1x"), Err(LocatorError::BadExtended('1', 'x')));
    assert_eq!(decode("ZZ99"), Err(LocatorError::BadField('Z', 'Z')));
}

#[test]
fn surrounding_whitespace_is_ignored() {
    assert_eq!(decode("  JN58\t"), decode("JN58"));
}

#[test]
fn refinement_stays_in_parent_cell() {
    let parent = decode("JN58").unwrap();
    let child = decode("JN58td").unwrap();
    assert!((child.lon - parent.lon).abs() < 480);
    assert!((child.lat - parent.lat).abs() < 240);
}

#[test]
fn lengths_count_characters_not_bytes() {
    // "JNé" is four bytes but three characters: a bad length, not a panic.
    assert_eq!(decode("JNé"), Err(LocatorError::BadLength));
    assert_eq!(decode("é"), Err(LocatorError::BadLength));
    assert_eq!(decode("AA11aaé"), Err(LocatorError::BadLength));
    assert_eq!(decode("JN58é"), Err(LocatorError::BadLength));
    assert_eq!(decode("éé"), Err(LocatorError::BadField('é', 'é')));
}

#[test]
fn extreme_cells_stay_inside_the_globe() {
    let ne = decode("RR99xx99").unwrap();
    let sw = decode("AA00aa00").unwrap();
    assert_eq!(ne, GridPoint { lat: 90 * 480 - 1, lon: 180 * 480 - 2 });
    assert_eq!(sw, GridPoint { lat: -90 * 480 + 1, lon: -180 * 480 + 2 });
}
