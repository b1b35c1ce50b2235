use crates_tui::action::Action;
use crates_tui::input::InputField;
use crates_tui::mode::{Mode, ModeState};
use crates_tui::picker::{needs_generation, FetchRequest, PackageDetail, Picker, SideEffect, Step, PAGE_SIZE};
use crates_tui::search_results::CrateSummary;
use crates_tui::sort::SortKey;
use crates_tui::task_registry::FetchKey;

fn row(name: &str) -> CrateSummary {
    CrateSummary {
        name: name.to_string(),
        description: Some(format!("about {}", name)),
        downloads: 10,
        updated_at: 1_700_000_000,
    }
}

fn detail(name: &str) -> PackageDetail {
    PackageDetail {
        name: name.to_string(),
        description: None,
        homepage: None,
        documentation: None,
        repository: None,
        max_version: "1.0.0".to_string(),
        max_stable_version: Some("1.0.0".to_string()),
        downloads: 5,
        recent_downloads: None,
        created_at: 0,
        updated_at: 0,
    }
}

fn search_generation(step: &Step) -> u64 {
    match &step.fetch {
        Some(FetchRequest::Search { generation, .. }) => *generation,
        other => panic!("expected a search fetch, got {:?}", other),
    }
}

fn detail_fetch(step: &Step) -> (u64, String) {
    match &step.fetch {
        Some(FetchRequest::Detail { generation, name }) => (*generation, name.clone()),
        other => panic!("expected a detail fetch, got {:?}", other),
    }
}

fn type_text(p: &mut Picker, text: &str) {
    for c in text.chars() {
        p.insert_char(c);
    }
}

fn picker_with_rows(names: &[&str]) -> Picker {
    let mut p = Picker::new();
    let g = search_generation(&p.update(Action::ReloadData));
    p.complete_search(g, names.iter().map(|n| row(n)).collect(), Some(names.len() as u64));
    p
}

#[test]
fn entering_search_clears_the_input() {
    let mut p = Picker::new();
    p.update(Action::SwitchMode(Mode::Search));
    type_text(&mut p, "serde");
    assert_eq!(p.input().value().len(), 5);
    p.update(Action::SwitchMode(Mode::Search));
    assert_eq!(p.mode(), Mode::Search);
    assert!(p.input().value().is_empty());
    assert_eq!(p.input().cursor(), 0);
}

#[test]
fn leaving_a_prompt_clears_the_input() {
    let mut p = Picker::new();
    p.update(Action::SwitchMode(Mode::Filter));
    type_text(&mut p, "abc");
    p.update(Action::SwitchMode(Mode::Common));
    assert!(p.input().value().is_empty());
    p.update(Action::SwitchMode(Mode::Search));
    type_text(&mut p, "abc");
    p.escape();
    assert_eq!(p.mode(), Mode::Common);
    assert!(p.input().value().is_empty());
}

#[test]
fn side_effects_for_the_selected_package() {
    let mut p = picker_with_rows(&["serde", "tokio"]);
    p.update(Action::ScrollDown);
    let text = |step: Step| match step.effect {
        Some(SideEffect::CopyToClipboard(t)) => format!("copy {}", t.iter().collect::<String>()),
        Some(SideEffect::OpenUrl(t)) => format!("open {}", t.iter().collect::<String>()),
        None => "none".to_string(),
    };
    assert_eq!(text(p.update(Action::CopyCargoAddCommandToClipboard)), "copy cargo add tokio");
    assert_eq!(text(p.update(Action::OpenCratesIOUrlInBrowser)), "open https://crates.io/crates/tokio");
    assert_eq!(text(p.update(Action::OpenDocsUrlInBrowser)), "open https://docs.rs/tokio/latest/tokio");
    let mut empty = Picker::new();
    assert_eq!(text(empty.update(Action::CopyCargoAddCommandToClipboard)), "none");
}

#[test]
fn submitting_a_search_issues_one_fetch() {
    let mut p = Picker::new();
    p.update(Action::SwitchMode(Mode::Search));
    type_text(&mut p, "tokio");
    let before = p.live_generation(FetchKey::Search);
    let step = p.update(Action::SubmitSearch);
    assert_eq!(p.mode(), Mode::Common);
    assert!(p.input().value().is_empty());
    assert_eq!(p.query().iter().collect::<String>(), "tokio");
    assert_eq!(p.page(), 1);
    assert_eq!(before, None);
    match &step.fetch {
        Some(FetchRequest::Search { generation, query, page, sort }) => {
            assert_eq!(p.live_generation(FetchKey::Search), Some(*generation));
            assert_eq!(query.iter().collect::<String>(), "tokio");
            assert_eq!(*page, 1);
            assert_eq!(*sort, SortKey::Relevance);
        }
        other => panic!("expected a search fetch, got {:?}", other),
    }
    assert!(step.follow_up.is_none());
}

#[test]
fn submitting_outside_a_prompt_does_nothing() {
    let mut p = Picker::new();
    let step = p.update(Action::SubmitSearch);
    assert!(step.fetch.is_none());
    assert_eq!(p.live_generation(FetchKey::Search), None);
}

#[test]
fn stale_detail_is_discarded() {
    let mut p = picker_with_rows(&["serde", "tokio"]);
    let first = detail_fetch(&p.update(Action::UpdateCurrentSelectionCrateInfo));
    assert_eq!(first.1, "serde");
    let step = p.update(Action::ScrollDown);
    assert_eq!(step.follow_up, Some(Action::UpdateCurrentSelectionCrateInfo));
    let second = detail_fetch(&p.update(Action::UpdateCurrentSelectionCrateInfo));
    assert_eq!(second.1, "tokio");
    assert!(!p.complete_detail(first.0, detail("serde")));
    assert!(p.detail().is_none());
    assert!(p.complete_detail(second.0, detail("tokio")));
    assert_eq!(p.detail().as_ref().map(|d| d.name.clone()), Some("tokio".to_string()));
}

#[test]
fn sort_toggle_without_reload_fetches_nothing() {
    let mut p = Picker::new();
    let step = p.update(Action::ToggleSortBy { reload: false, forward: true });
    assert_eq!(p.sort(), SortKey::Downloads);
    assert!(step.fetch.is_none());
    assert_eq!(p.live_generation(FetchKey::Search), None);
    let step = p.update(Action::ToggleSortBy { reload: true, forward: true });
    assert_eq!(p.sort(), SortKey::RecentDownloads);
    match &step.fetch {
        Some(FetchRequest::Search { generation, sort, .. }) => {
            assert_eq!(*sort, SortKey::RecentDownloads);
            assert_eq!(p.live_generation(FetchKey::Search), Some(*generation));
        }
        other => panic!("expected a search fetch, got {:?}", other),
    }
}

#[test]
fn sort_toggle_cycles_both_ways() {
    let mut s = SortKey::Alphabetical;
    for _ in 0..6 {
        s = s.cycled(true);
    }
    assert_eq!(s, SortKey::Alphabetical);
    assert_eq!(SortKey::Alphabetical.cycled(false), SortKey::NewlyAdded);
    assert_eq!(SortKey::NewlyAdded.cycled(true), SortKey::Alphabetical);
}

#[test]
fn page_does_not_go_below_one() {
    let mut p = Picker::new();
    let step = p.update(Action::DecrementPage);
    assert_eq!(p.page(), 1);
    assert!(step.fetch.is_none());
}

#[test]
fn page_clamps_at_the_known_total() {
    let mut p = Picker::new();
    p.update(Action::StoreTotalNumberOfCrates(2 * PAGE_SIZE + 1));
    assert_eq!(p.total(), Some(2 * PAGE_SIZE + 1));
    let step = p.update(Action::IncrementPage);
    assert_eq!(p.page(), 2);
    assert!(step.fetch.is_some());
    p.update(Action::IncrementPage);
    assert_eq!(p.page(), 3);
    let step = p.update(Action::IncrementPage);
    assert_eq!(p.page(), 3);
    assert!(step.fetch.is_none());
    let step = p.update(Action::DecrementPage);
    assert_eq!(p.page(), 2);
    match &step.fetch {
        Some(FetchRequest::Search { page, .. }) => assert_eq!(*page, 2),
        other => panic!("expected a search fetch, got {:?}", other),
    }
}

#[test]
fn page_without_total_keeps_going() {
    let mut p = Picker::new();
    p.update(Action::IncrementPage);
    p.update(Action::IncrementPage);
    assert_eq!(p.page(), 3);
}

#[test]
fn stale_search_result_is_discarded() {
    let mut p = Picker::new();
    let old = search_generation(&p.update(Action::ReloadData));
    let new = search_generation(&p.update(Action::ReloadData));
    let step = p.complete_search(old, vec![row("old")], Some(1));
    assert!(!step.render);
    assert_eq!(p.results().len(), 0);
    let step = p.complete_search(new, vec![row("a"), row("b")], Some(40));
    assert!(step.render);
    assert_eq!(step.follow_up, Some(Action::UpdateCurrentSelectionCrateInfo));
    assert_eq!(p.results().len(), 2);
    assert_eq!(p.results().selected(), Some(0));
    assert_eq!(p.total(), Some(40));
}

#[test]
fn failed_fetch_shows_a_popup_only_when_live() {
    let mut p = Picker::new();
    let old = search_generation(&p.update(Action::ReloadData));
    let new = search_generation(&p.update(Action::ReloadData));
    let step = p.fail_fetch(FetchKey::Search, old, "timeout".to_string());
    assert!(step.follow_up.is_none());
    let step = p.fail_fetch(FetchKey::Search, new, "timeout".to_string());
    assert_eq!(step.follow_up, Some(Action::ShowErrorPopup("timeout".to_string())));
    assert_eq!(p.live_generation(FetchKey::Search), None);
    p.update(step.follow_up.unwrap());
    assert_eq!(p.popup().cloned(), Some("timeout".to_string()));
    p.update(Action::ClosePopup);
    assert!(p.popup().is_none());
}

#[test]
fn scrolling_an_empty_list_asks_for_nothing() {
    let mut p = Picker::new();
    let step = p.update(Action::ScrollDown);
    assert!(step.follow_up.is_none());
    assert_eq!(p.results().selected(), None);
}

#[test]
fn scrolling_to_the_same_row_asks_for_nothing() {
    let mut p = picker_with_rows(&["only"]);
    let step = p.update(Action::ScrollDown);
    assert_eq!(p.results().selected(), Some(0));
    assert!(step.follow_up.is_none());
}

#[test]
fn tick_needs_no_repaint_and_forgets_keys() {
    let mut p = Picker::new();
    p.record_key();
    p.record_key();
    assert_eq!(p.pending_keys(), 2);
    let step = p.update(Action::Tick);
    assert!(!step.render);
    assert_eq!(p.pending_keys(), 0);
    assert!(p.update(Action::Render).render);
}

#[test]
fn help_returns_to_the_mode_it_was_opened_from() {
    let mut p = Picker::new();
    p.update(Action::SwitchMode(Mode::CrateInfo));
    p.update(Action::SwitchMode(Mode::Help));
    p.update(Action::SwitchMode(Mode::Help));
    assert_eq!(p.mode(), Mode::Help);
    p.update(Action::ToggleShowHelp);
    assert_eq!(p.mode(), Mode::CrateInfo);
}

#[test]
fn escape_cancels_a_prompt() {
    let mut p = Picker::new();
    p.update(Action::SwitchMode(Mode::Summary));
    p.update(Action::SwitchMode(Mode::Filter));
    type_text(&mut p, "x");
    p.escape();
    assert_eq!(p.mode(), Mode::Summary);
    assert_eq!(p.live_generation(FetchKey::Search), None);
}

#[test]
fn typing_outside_a_prompt_is_ignored() {
    let mut p = Picker::new();
    type_text(&mut p, "abc");
    assert!(p.input().value().is_empty());
    p.update(Action::SwitchMode(Mode::Search));
    type_text(&mut p, "abc");
    p.delete_char();
    assert_eq!(p.input().value().iter().collect::<String>(), "ab");
}

#[test]
fn quit_is_recorded() {
    let mut p = Picker::new();
    assert!(!p.should_quit());
    p.update(Action::Quit);
    assert!(p.should_quit());
}

#[test]
fn clearing_the_detail_handle_cancels_it() {
    let mut p = picker_with_rows(&["a"]);
    let (g, _) = detail_fetch(&p.update(Action::UpdateCurrentSelectionCrateInfo));
    p.update(Action::ClearTaskDetailsHandle("a".to_string()));
    assert!(!p.complete_detail(g, detail("a")));
}

#[test]
fn mode_state_machine() {
    let mut m = ModeState::new();
    assert_eq!(m.current, Mode::Common);
    m.switch(Mode::Search);
    m.switch(Mode::Filter);
    m.escape();
    assert_eq!(m.current, Mode::Search);
    m.escape();
    assert_eq!(m.current, Mode::Common);
    assert!(Mode::Search.focused() && Mode::Filter.focused() && !Mode::Help.focused());
}

#[test]
fn input_field_editing() {
    let mut f = InputField::new();
    for c in "hello".chars() {
        f.insert(c);
    }
    f.move_left();
    f.move_left();
    f.insert('X');
    assert_eq!(f.value().iter().collect::<String>(), "helXlo");
    assert_eq!(f.cursor(), 4);
    f.delete_next();
    assert_eq!(f.value().iter().collect::<String>(), "helXo");
    f.delete_previous();
    assert_eq!(f.value().iter().collect::<String>(), "helo");
    f.move_start();
    f.delete_previous();
    assert_eq!(f.cursor(), 0);
    f.move_end();
    assert_eq!(f.cursor(), 4);
    f.move_right();
    assert_eq!(f.cursor(), 4);
    f.set_value("ab".chars().collect());
    assert_eq!(f.cursor(), 2);
    f.reset();
    assert!(f.value().is_empty());
}

#[test]
fn escape_returns_to_the_other_prompt_or_help() {
    let mut p = Picker::new();
    p.update(Action::SwitchMode(Mode::Filter));
    p.update(Action::SwitchMode(Mode::Search));
    p.escape();
    assert_eq!(p.mode(), Mode::Filter);
    let mut p = Picker::new();
    p.update(Action::SwitchMode(Mode::Help));
    p.update(Action::SwitchMode(Mode::Search));
    p.escape();
    assert_eq!(p.mode(), Mode::Help);
    p.escape();
    assert_eq!(p.mode(), Mode::Common);
}

#[test]
fn toggling_crate_info() {
    let mut p = Picker::new();
    p.update(Action::ToggleShowCrateInfo);
    assert_eq!(p.mode(), Mode::CrateInfo);
    p.update(Action::ToggleShowCrateInfo);
    assert_eq!(p.mode(), Mode::Common);
}

#[test]
fn which_actions_use_a_generation() {
    assert!(needs_generation(&Action::ReloadData));
    assert!(needs_generation(&Action::ToggleSortBy { reload: true, forward: false }));
    assert!(!needs_generation(&Action::ToggleSortBy { reload: false, forward: true }));
    assert!(!needs_generation(&Action::Tick));
}

#[test]
fn reload_with_sort_toggle_makes_the_search_in_flight_stale() {
    let mut p = Picker::new();
    let old = search_generation(&p.update(Action::ReloadData));
    let new = search_generation(&p.update(Action::ToggleSortBy { reload: true, forward: true }));
    assert_ne!(old, new);
    let step = p.complete_search(old, vec![row("stale")], Some(1));
    assert!(!step.render);
    assert_eq!(p.results().len(), 0);
    assert_eq!(p.live_generation(FetchKey::Search), Some(new));
}
