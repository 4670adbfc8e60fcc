use wjmclock::kc2g::nearest;

#[test]
fn nearest_picks_closest() {
    let times = [1000i64, 2000, 3000];
    let mufs = [10.0f32, 20.0, 30.0];
    let i = nearest(&times, 2100).unwrap();
    assert_eq!(mufs[i], 20.0);
}

#[test]
fn nearest_handles_empty() {
    assert!(nearest(&[], 1_700_000_000).is_none());
}

#[test]
fn nearest_prefers_first_on_tie() {
    assert_eq!(nearest(&[1000, 3000], 2000), Some(0));
    assert_eq!(nearest(&[3000, 1000, 1000], 1500), Some(1));
}
