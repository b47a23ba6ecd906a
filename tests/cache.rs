use quick_launcher::{choose_output, AppCache, UwpAppInfo, CACHE_TTL_MS};

const ONE: &str = "[{\"Name\":\"A\",\"AppID\":\"a\"}]";

fn names(v: &[UwpAppInfo]) -> Vec<String> {
    v.iter().map(|a| a.name.clone()).collect()
}

#[test]
fn empty_cache_misses() {
    assert!(AppCache::new().lookup(0).is_none());
}

#[test]
fn fresh_entry_is_served_without_fetch() {
    let mut c = AppCache::new();
    let fetched = c.finish_fetch(1000, Ok(ONE.to_string())).unwrap();
    assert_eq!(names(&fetched), vec!["A".to_string()]);
    assert_eq!(names(&c.lookup(1000).unwrap()), vec!["A".to_string()]);
    assert_eq!(names(&c.lookup(1000 + CACHE_TTL_MS).unwrap()), vec!["A".to_string()]);
}

#[test]
fn stale_entry_misses_and_is_replaced() {
    let mut c = AppCache::new();
    c.finish_fetch(1000, Ok(ONE.to_string())).unwrap();
    assert!(c.lookup(1001 + CACHE_TTL_MS).is_none());
    c.finish_fetch(1001 + CACHE_TTL_MS, Ok("{\"Name\":\"B\",\"AppID\":\"b\"}".to_string())).unwrap();
    assert_eq!(names(&c.lookup(1001 + CACHE_TTL_MS + 5).unwrap()), vec!["B".to_string()]);
}

#[test]
fn empty_result_does_not_stick() {
    let mut c = AppCache::new();
    assert!(c.finish_fetch(1000, Ok("[]".to_string())).unwrap().is_empty());
    assert!(c.lookup(1001).is_none());
    c.finish_fetch(1000, Ok(ONE.to_string())).unwrap();
    assert!(c.finish_fetch(1002, Ok("[{\"Name\":\"\",\"AppID\":\"a\"}]".to_string())).unwrap().is_empty());
    assert!(c.lookup(1003).is_none());
}

#[test]
fn blank_output_leaves_cache_alone() {
    let mut c = AppCache::new();
    c.finish_fetch(1000, Ok(ONE.to_string())).unwrap();
    assert!(c.finish_fetch(2000, Ok("null".to_string())).unwrap().is_empty());
    assert_eq!(names(&c.lookup(2000).unwrap()), vec!["A".to_string()]);
}

#[test]
fn fetch_error_is_passed_on() {
    let mut c = AppCache::new();
    assert_eq!(c.finish_fetch(1, Err("boom".to_string())).err(), Some("boom".to_string()));
    assert!(c.finish_fetch(1, Ok("{bad".to_string())).is_err());
    assert!(c.lookup(1).is_none());
}

#[test]
fn first_successful_interpreter_wins() {
    let attempts = vec![Err("no pwsh".to_string()), Ok("out".to_string()), Err("later".to_string())];
    assert_eq!(choose_output(&attempts), Ok("out".to_string()));
}

#[test]
fn last_error_is_reported_when_all_fail() {
    let attempts = vec![Err("first".to_string()), Err("second".to_string())];
    assert_eq!(choose_output(&attempts), Err("second".to_string()));
    assert_eq!(choose_output(&Vec::new()), Err("failed to run powershell".to_string()));
}
