use wjmclock::noaa::latest_present;

fn tags(v: &[&str]) -> Vec<String> {
    v.iter().map(|s| s.to_string()).collect()
}

#[test]
fn latest_ignores_order_and_missing_values() {
    let t = tags(&["2025-06-02T00:00:00", "2025-06-03T00:00:00", "2025-06-01T00:00:00"]);
    assert_eq!(latest_present(&t, &vec![true, true, true]), Some(1));
    assert_eq!(latest_present(&t, &vec![true, false, true]), Some(0));
}

#[test]
fn latest_none_without_values() {
    let t = tags(&["a", "b"]);
    assert_eq!(latest_present(&t, &vec![false, false]), None);
    assert_eq!(latest_present(&Vec::new(), &vec![]), None);
}

#[test]
fn latest_takes_last_of_equal_tags() {
    let t = tags(&["x", "x", "w"]);
    assert_eq!(latest_present(&t, &vec![true, true, true]), Some(1));
}

#[test]
fn latest_compares_like_str_ord() {
    let t = tags(&["2025-06-01 23:59", "2025-06-01T00:00", "2025-06-01"]);
    let best = latest_present(&t, &vec![true, true, true]).unwrap();
    let expect = t.iter().enumerate().max_by(|a, b| a.1.cmp(b.1)).unwrap().0;
    assert_eq!(best, expect);
}
