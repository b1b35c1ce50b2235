use crates_tui::search_results::{CrateSummary, SearchResults};

fn row(name: &str) -> CrateSummary {
    CrateSummary {
        name: name.to_string(),
        description: None,
        downloads: 0,
        updated_at: 0,
    }
}

fn results(n: usize) -> SearchResults {
    let mut r = SearchResults::new();
    r.set_crates((0..n).map(|i| row(&format!("c{}", i))).collect());
    r
}

#[test]
fn scroll_next_wraps_from_last_to_first() {
    let mut r = results(3);
    r.select(Some(2));
    r.scroll_next(1);
    assert_eq!(r.selected(), Some(0));
}

#[test]
fn scroll_next_full_cycle_returns_to_start() {
    for start in 0..5 {
        let mut r = results(5);
        r.select(Some(start));
        for _ in 0..5 {
            r.scroll_next(1);
        }
        assert_eq!(r.selected(), Some(start));
    }
}

#[test]
fn scroll_previous_undoes_scroll_next() {
    for start in 0..4 {
        let mut r = results(4);
        r.select(Some(start));
        r.scroll_next(1);
        r.scroll_previous(1);
        assert_eq!(r.selected(), Some(start));
        r.scroll_previous(1);
        r.scroll_next(1);
        assert_eq!(r.selected(), Some(start));
    }
}

#[test]
fn scroll_previous_from_first_goes_to_last() {
    let mut r = results(3);
    r.select(Some(0));
    r.scroll_previous(1);
    assert_eq!(r.selected(), Some(2));
}

#[test]
fn scroll_previous_by_many_wraps() {
    let mut r = results(10);
    r.select(Some(3));
    r.scroll_previous(5);
    assert_eq!(r.selected(), Some(8));
    let mut r = results(3);
    r.select(Some(1));
    r.scroll_previous(2);
    assert_eq!(r.selected(), Some(2));
    r.scroll_previous(usize::MAX);
    assert_eq!(r.selected(), Some((2 + 3 - usize::MAX % 3) % 3));
}

#[test]
fn scroll_previous_undoes_scroll_next_by_many() {
    for start in 0..5 {
        for count in [2usize, 7, 11] {
            let mut r = results(5);
            r.select(Some(start));
            r.scroll_next(count);
            r.scroll_previous(count);
            assert_eq!(r.selected(), Some(start));
        }
    }
}

#[test]
fn scroll_next_by_many_wraps_modulo_length() {
    let mut r = results(4);
    r.select(Some(3));
    r.scroll_next(6);
    assert_eq!(r.selected(), Some(1));
    r.scroll_next(usize::MAX);
    assert_eq!(r.selected(), Some((1 + usize::MAX % 4) % 4));
}

#[test]
fn empty_results_ignore_navigation() {
    let mut r = SearchResults::new();
    assert_eq!(r.selected(), None);
    r.scroll_next(1);
    assert_eq!(r.selected(), None);
    r.scroll_previous(1);
    assert_eq!(r.selected(), None);
    r.scroll_to_top();
    assert_eq!(r.selected(), None);
    r.scroll_to_bottom();
    assert_eq!(r.selected(), None);
    assert_eq!(r.len(), 0);
}

#[test]
fn top_and_bottom() {
    let mut r = results(7);
    r.scroll_to_bottom();
    assert_eq!(r.selected(), Some(6));
    r.scroll_to_top();
    assert_eq!(r.selected(), Some(0));
}

#[test]
fn replacing_rows_resets_selection() {
    let mut r = results(3);
    r.scroll_to_bottom();
    r.set_crates(vec![row("a"), row("b")]);
    assert_eq!(r.selected(), Some(0));
    assert_eq!(r.selected_crate().map(|c| c.name.clone()), Some("a".to_string()));
    r.set_crates(Vec::new());
    assert_eq!(r.selected(), None);
    assert!(r.selected_crate().is_none());
}
