use wjmclock::snapshot::{series_or_empty, PropagationSnapshot};

#[test]
fn failure_keeps_last_good_data() {
    let mut s: PropagationSnapshot<i64, u32, &str> = PropagationSnapshot::new();
    assert!(s.fetched_at.is_none() && s.solar.is_none() && s.paths.is_empty());
    s.record_fetch(Err("offline".to_string()));
    assert_eq!(s.last_error.as_deref(), Some("offline"));
    assert!(s.fetched_at.is_none());
    s.record_fetch(Ok((100, 7, vec!["a", "b"])));
    assert_eq!((s.fetched_at, s.solar, s.paths.clone(), s.last_error.clone()), (Some(100), Some(7), vec!["a", "b"], None));
    s.record_fetch(Err("timeout".to_string()));
    assert_eq!((s.fetched_at, s.solar, s.paths.clone()), (Some(100), Some(7), vec!["a", "b"]));
    assert_eq!(s.last_error.as_deref(), Some("timeout"));
}

#[test]
fn failed_series_counts_as_empty() {
    let ok: Result<Vec<u8>, String> = Ok(vec![1, 2, 3]);
    assert_eq!(series_or_empty(ok), vec![1, 2, 3]);
    let bad: Result<Vec<u8>, String> = Err("timeout".to_string());
    assert!(series_or_empty(bad).is_empty());
}
