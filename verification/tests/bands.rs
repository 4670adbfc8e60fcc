use wjmclock::bands::{downgrade, hf_bands, Rating};

#[test]
fn band_table_is_low_to_high() {
    let mut prev = 0;
    for b in hf_bands() {
        assert!(b.freq_khz > prev, "{} not increasing", b.label);
        prev = b.freq_khz;
    }
}

#[test]
fn high_bands_open_when_sfi_is_high() {
    let table = wjmclock::bands::derive(180, 1);
    let ten = table.iter().find(|b| b.label == "10m").unwrap();
    assert_eq!(ten.day, Rating::Good);
}

#[test]
fn high_bands_closed_when_sfi_is_low() {
    let table = wjmclock::bands::derive(70, 1);
    let ten = table.iter().find(|b| b.label == "10m").unwrap();
    assert_eq!(ten.day, Rating::Poor);
}

#[test]
fn low_bands_better_at_night() {
    let table = wjmclock::bands::derive(120, 1);
    let eighty = table.iter().find(|b| b.label == "80m").unwrap();
    assert_eq!(eighty.night, Rating::Good);
    assert_eq!(eighty.day, Rating::Fair);
}

#[test]
fn high_k_degrades_low_bands_to_poor() {
    let table = wjmclock::bands::derive(120, 6);
    let eighty = table.iter().find(|b| b.label == "80m").unwrap();
    assert_eq!(eighty.night, Rating::Poor);
}

#[test]
fn fractional_indices_round_down() {
    // SFI 139.9 sits below the 10 m "Good" threshold of 140.
    let table = wjmclock::bands::derive(139.9f32.floor() as i64, 1);
    let ten = table.iter().find(|b| b.label == "10m").unwrap();
    assert_eq!(ten.day, Rating::Fair);
    // K 3.99 brings no penalty, K 4.0 one rung.
    let calm = wjmclock::bands::derive(120, 3.99f32.floor() as i64);
    let stormy = wjmclock::bands::derive(120, 4.0f32.floor() as i64);
    assert_eq!(calm[0].night, Rating::Good);
    assert_eq!(stormy[0].night, Rating::Fair);
}

#[test]
fn mid_band_thresholds() {
    let t = wjmclock::bands::derive(75, 0);
    let twenty = t.iter().find(|b| b.label == "20m").unwrap();
    assert_eq!(twenty.day, Rating::Good);
    assert_eq!(twenty.night, Rating::Poor);
    let t = wjmclock::bands::derive(85, 0);
    let twenty = t.iter().find(|b| b.label == "20m").unwrap();
    assert_eq!(twenty.night, Rating::Fair);
}

#[test]
fn high_band_night_needs_extra_flux() {
    // 17 m: good by day from 85, fair by night from 115.
    let t = wjmclock::bands::derive(115, 0);
    let seventeen = t.iter().find(|b| b.label == "17m").unwrap();
    assert_eq!(seventeen.day, Rating::Good);
    assert_eq!(seventeen.night, Rating::Fair);
    let t = wjmclock::bands::derive(114, 0);
    let seventeen = t.iter().find(|b| b.label == "17m").unwrap();
    assert_eq!(seventeen.night, Rating::Poor);
}

#[test]
fn downgrade_composes_and_stops_at_poor() {
    assert_eq!(downgrade(Rating::Good, 1), Rating::Fair);
    assert_eq!(downgrade(downgrade(Rating::Good, 1), 1), downgrade(Rating::Good, 2));
    assert_eq!(downgrade(Rating::Good, 200), Rating::Poor);
}

#[test]
fn more_flux_never_worse_and_more_k_never_better() {
    for sfi in [60i64, 80, 100, 150, 200] {
        let lo = wjmclock::bands::derive(sfi, 2);
        let hi = wjmclock::bands::derive(sfi + 30, 2);
        let storm = wjmclock::bands::derive(sfi, 7);
        let rank = |r: Rating| match r {
            Rating::Good => 2,
            Rating::Fair => 1,
            Rating::Poor => 0,
        };
        for i in 0..lo.len() {
            assert!(rank(lo[i].day) <= rank(hi[i].day));
            assert!(rank(storm[i].night) <= rank(lo[i].night));
        }
    }
}

#[test]
fn rating_text() {
    assert_eq!(Rating::Good.as_str(), "Good");
    assert_eq!(Rating::Fair.as_str(), "Fair");
    assert_eq!(Rating::Poor.as_str(), "Poor");
}
