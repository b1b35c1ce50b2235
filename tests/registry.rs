use crates_tui::task_registry::{FetchKey, TaskRegistry};

#[test]
fn last_start_wins() {
    let mut reg = TaskRegistry::new();
    let a = reg.start(FetchKey::Detail);
    let b = reg.start(FetchKey::Detail);
    let s = reg.start(FetchKey::Search);
    let c = reg.start(FetchKey::Detail);
    assert!(a < b && b < s && s < c);
    assert_eq!(reg.live_generation(FetchKey::Detail), Some(c));
    assert_eq!(reg.live_generation(FetchKey::Search), Some(s));
    assert!(!reg.is_live(FetchKey::Detail, a));
    assert!(!reg.is_live(FetchKey::Detail, b));
    assert!(reg.is_live(FetchKey::Detail, c));
}

#[test]
fn stale_completion_is_discarded() {
    let mut reg = TaskRegistry::new();
    let old = reg.start(FetchKey::Search);
    let new = reg.start(FetchKey::Search);
    assert!(!reg.complete(FetchKey::Search, old));
    assert_eq!(reg.live_generation(FetchKey::Search), Some(new));
    assert!(reg.complete(FetchKey::Search, new));
    assert_eq!(reg.live_generation(FetchKey::Search), None);
    assert!(!reg.complete(FetchKey::Search, new));
}

#[test]
fn completion_under_the_other_key_is_stale() {
    let mut reg = TaskRegistry::new();
    let g = reg.start(FetchKey::Search);
    assert!(!reg.complete(FetchKey::Detail, g));
    assert_eq!(reg.live_generation(FetchKey::Search), Some(g));
}

#[test]
fn cancel_silences_the_fetch() {
    let mut reg = TaskRegistry::new();
    let g = reg.start(FetchKey::Detail);
    assert_eq!(reg.cancel(FetchKey::Detail), Some(g));
    assert_eq!(reg.cancel(FetchKey::Detail), None);
    assert!(!reg.complete(FetchKey::Detail, g));
}
