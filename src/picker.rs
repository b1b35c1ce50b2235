use vstd::prelude::*;
use vstd::string::StrSliceExecFns;

use crate::action::Action;
use crate::input::InputField;
use crate::mode::{Mode, ModeState};
use crate::search_results::{next_index, previous_index, CrateSummary, SearchResults};
use crate::sort::{next_sort, previous_sort, SortKey};
use crate::task_registry::{FetchKey, TaskRegistry};

verus! {

/// Number of results on one page of a search.
pub const PAGE_SIZE: u64 = 25;

/// The full record of one package.
#[derive(Debug, Clone, PartialEq, Eq)]
pub struct PackageDetail {
    pub name: String,
    pub description: Option<String>,
    pub homepage: Option<String>,
    pub documentation: Option<String>,
    pub repository: Option<String>,
    pub max_version: String,
    pub max_stable_version: Option<String>,
    pub downloads: u64,
    pub recent_downloads: Option<u64>,
    /// Seconds since the Unix epoch.
    pub created_at: i64,
    /// Seconds since the Unix epoch.
    pub updated_at: i64,
}

/// A background fetch to launch, tagged with its generation.
#[derive(Debug, Clone, PartialEq, Eq)]
pub enum FetchRequest {
    Search { generation: u64, query: Vec<char>, page: u64, sort: SortKey },
    Detail { generation: u64, name: String },
}

/// A request to the world outside the session.
#[derive(Debug, Clone, PartialEq, Eq)]
pub enum SideEffect {
    /// Put this text on the clipboard.
    CopyToClipboard(Vec<char>),
    /// Open this address in a browser.
    OpenUrl(Vec<char>),
}

/// The command that adds package `name` to a project.
pub open spec fn cargo_add_command(name: Seq<char>) -> Seq<char> {
    "cargo add "@ + name
}

/// The registry page of package `name`.
pub open spec fn crates_io_url(name: Seq<char>) -> Seq<char> {
    "https://crates.io/crates/"@ + name
}

/// The documentation of package `name`.
pub open spec fn docs_url(name: Seq<char>) -> Seq<char> {
    "https://docs.rs/"@ + name + "/latest/"@ + name
}

/// A repainting step that asks only for `effect`: a copy when `copy`, else
/// opening an address, of the text `text`.
pub open spec fn effect_step(r: Step, copy: bool, text: Seq<char>) -> bool {
    &&& r.follow_up is None
    &&& r.fetch is None
    &&& r.render
    &&& match r.effect {
        Some(SideEffect::CopyToClipboard(t)) => copy && t@ == text,
        Some(SideEffect::OpenUrl(t)) => !copy && t@ == text,
        None => false,
    }
}

/// Appends the characters of `s` to `out`.
fn append_str(out: &mut Vec<char>, s: &str)
    ensures
        final(out)@ == old(out)@ + s@,
{
    let n = s.unicode_len();
    let mut i: usize = 0;
    while i < n
        invariant
            n == s@.len(),
            i <= n,
            out@ == old(out)@ + s@.subrange(0, i as int),
        decreases n - i,
    {
        let c = s.get_char(i);
        out.push(c);
        i = i + 1;
        assert(out@ =~= old(out)@ + s@.subrange(0, i as int));
    }
    assert(s@.subrange(0, n as int) =~= s@);
}

/// What handling one action asks of the loop around the session.
#[derive(Debug, Clone, PartialEq, Eq)]
pub struct Step {
    /// An action to handle next, before anything else that is queued.
    pub follow_up: Option<Action>,
    /// A fetch to launch.
    pub fetch: Option<FetchRequest>,
    /// Something to do outside the session.
    pub effect: Option<SideEffect>,
    /// Whether the screen is to be repainted.
    pub render: bool,
}

/// The state of a session, as values.
pub struct PickerView {
    pub mode: ModeState,
    pub input: Seq<char>,
    pub cursor: nat,
    pub rows: Seq<CrateSummary>,
    pub selection: Option<usize>,
    pub registry: TaskRegistry,
    pub sort: SortKey,
    pub page: u64,
    pub total: Option<u64>,
    pub query: Seq<char>,
    pub detail: Option<PackageDetail>,
    pub popup: Option<Seq<char>>,
    pub pending_keys: nat,
    pub should_quit: bool,
}

/// The actions whose handling may start a fetch, and so use up a generation.
pub open spec fn starts_fetch(a: Action) -> bool {
    ||| a is SubmitSearch
    ||| a matches Action::ToggleSortBy { reload: true, .. }
    ||| a is ReloadData
    ||| a is GetCrates
    ||| a is IncrementPage
    ||| a is DecrementPage
    ||| a is UpdateCurrentSelectionCrateInfo
}

/// Whether handling `a` may start a fetch.
pub fn needs_generation(a: &Action) -> (r: bool)
    ensures
        r == starts_fetch(*a),
{
    match a {
        Action::SubmitSearch | Action::ReloadData | Action::GetCrates | Action::IncrementPage
        | Action::DecrementPage | Action::UpdateCurrentSelectionCrateInfo => true,
        Action::ToggleSortBy { reload, .. } => *reload,
        _ => false,
    }
}

/// Whether a page follows `page` when the search has `total` results; with
/// the total unknown, any page but the largest number has a successor.
pub open spec fn has_next_page(page: u64, total: Option<u64>) -> bool {
    match total {
        None => page < u64::MAX,
        Some(t) => page * PAGE_SIZE < t,
    }
}

/// A step that asks for nothing but, perhaps, a repaint.
pub open spec fn plain_step(r: Step, render: bool) -> bool {
    &&& r.follow_up is None
    &&& r.fetch is None
    &&& r.effect is None
    &&& r.render == render
}

/// A repainting step that launches the search fetch tagged `g`.
pub open spec fn search_step(r: Step, g: u64, query: Seq<char>, page: u64, sort: SortKey) -> bool {
    &&& r.follow_up is None
    &&& r.effect is None
    &&& r.render
    &&& match r.fetch {
        Some(FetchRequest::Search { generation, query: q, page: p, sort: s }) => {
            &&& generation == g
            &&& q@ == query
            &&& p == page
            &&& s == sort
        },
        _ => false,
    }
}

/// `v` with mode state `m`: the input field is emptied when a text-entry
/// mode is left or entered, and kept otherwise.
pub open spec fn with_mode(v: PickerView, m: ModeState) -> PickerView {
    let clear = v.mode.current.is_prompt() || m.current.is_prompt();
    PickerView {
        mode: m,
        input: if clear {
            Seq::empty()
        } else {
            v.input
        },
        cursor: if clear {
            0
        } else {
            v.cursor
        },
        ..v
    }
}

/// `v` with a new search fetch made live.
pub open spec fn with_search_started(v: PickerView) -> PickerView {
    PickerView { registry: v.registry.started(FetchKey::Search), ..v }
}

/// The selection after a scroll action on `v`; an empty list keeps its selection.
pub open spec fn scrolled(v: PickerView, a: Action) -> Option<usize> {
    let len = v.rows.len();
    if len == 0 {
        v.selection
    } else {
        match a {
            Action::ScrollDown => Some(next_index(v.selection, 1, len) as usize),
            Action::ScrollUp => Some(previous_index(v.selection, 1, len) as usize),
            Action::ScrollTop => Some(0usize),
            _ => Some((len - 1) as usize),
        }
    }
}

/// Copies a character buffer.
fn copy_chars(v: &Vec<char>) -> (r: Vec<char>)
    ensures
        r@ == v@,
{
    let mut r: Vec<char> = Vec::new();
    let mut i: usize = 0;
    while i < v.len()
        invariant
            i <= v@.len(),
            r@ == v@.subrange(0, i as int),
        decreases v@.len() - i,
    {
        r.push(v[i]);
        i = i + 1;
        assert(r@ =~= v@.subrange(0, i as int));
    }
    assert(r@ =~= v@);
    r
}

/// The session controller: owns the mode, the input field, the results, the
/// fetch registry and the search parameters, and turns each action into state
/// changes and at most one follow-up action and one fetch.
pub struct Picker {
    mode: ModeState,
    input: InputField,
    results: SearchResults,
    registry: TaskRegistry,
    sort: SortKey,
    page: u64,
    total: Option<u64>,
    query: Vec<char>,
    detail: Option<PackageDetail>,
    popup: Option<String>,
    pending_keys: usize,
    should_quit: bool,
}

impl View for Picker {
    type V = PickerView;

    closed spec fn view(&self) -> PickerView {
        PickerView {
            mode: self.mode,
            input: self.input.text(),
            cursor: self.input.cursor_at(),
            rows: self.results.rows(),
            selection: self.results.selection(),
            registry: self.registry,
            sort: self.sort,
            page: self.page,
            total: self.total,
            query: self.query@,
            detail: self.detail,
            popup: match self.popup {
                Some(s) => Some(s@),
                None => None,
            },
            pending_keys: self.pending_keys as nat,
            should_quit: self.should_quit,
        }
    }
}

impl Picker {
    pub closed spec fn wf(&self) -> bool {
        &&& self.mode.wf()
        &&& self.input.wf()
        &&& self.results.wf()
        &&& self.registry.wf()
        &&& self.page >= 1
    }

    /// A fresh session: browsing mode, nothing typed, no results, first page,
    /// sorted by relevance, nothing in flight.
    pub fn new() -> (r: Picker)
        ensures
            r.wf(),
            r@.mode.current == Mode::Common,
            r@.input.len() == 0,
            r@.rows.len() == 0,
            r@.selection is None,
            r@.registry.next_gen() == 0,
            forall|k: FetchKey| #[trigger] r@.registry.live(k) is None,
            r@.sort == SortKey::Relevance,
            r@.page == 1,
            r@.total is None,
            r@.query.len() == 0,
            r@.detail is None,
            r@.popup is None,
            r@.pending_keys == 0,
            !r@.should_quit,
    {
        Picker {
            mode: ModeState::new(),
            input: InputField::new(),
            results: SearchResults::new(),
            registry: TaskRegistry::new(),
            sort: SortKey::Relevance,
            page: 1,
            total: None,
            query: Vec::new(),
            detail: None,
            popup: None,
            pending_keys: 0,
            should_quit: false,
        }
    }

    /// Makes a new search fetch live, dropping any one in flight.
    fn start_search(&mut self) -> (r: Step)
        requires
            old(self).wf(),
            old(self)@.registry.next_gen() < u64::MAX,
        ensures
            final(self).wf(),
            final(self)@ == with_search_started(old(self)@),
            search_step(r, old(self)@.registry.next_gen(), old(self)@.query, old(self)@.page, old(self)@.sort),
    {
        let generation = self.registry.start(FetchKey::Search);
        let query = copy_chars(&self.query);
        Step {
            follow_up: None,
            fetch: Some(FetchRequest::Search { generation, query, page: self.page, sort: self.sort }),
            effect: None,
            render: true,
        }
    }

    /// Handles one action: updates the owning component and says what the
    /// loop is to do next. Every action but `Tick` asks for a repaint.
    pub fn update(&mut self, action: Action) -> (r: Step)
        requires
            old(self).wf(),
            starts_fetch(action) ==> old(self)@.registry.next_gen() < u64::MAX,
        ensures
            final(self).wf(),
            r.render == !action.is_quiet(),
            match action {
                Action::Tick => final(self)@ == (PickerView { pending_keys: 0, ..old(self)@ })
                    && plain_step(r, false),
                Action::Quit => final(self)@ == (PickerView { should_quit: true, ..old(self)@ })
                    && plain_step(r, true),
                Action::ShowErrorPopup(s) => final(self)@ == (PickerView {
                    popup: Some(s@),
                    ..old(self)@
                }) && plain_step(r, true),
                Action::ShowInfoPopup(s) => final(self)@ == (PickerView {
                    popup: Some(s@),
                    ..old(self)@
                }) && plain_step(r, true),
                Action::ClosePopup => final(self)@ == (PickerView { popup: None, ..old(self)@ })
                    && plain_step(r, true),
                Action::SwitchMode(m) => final(self)@ == with_mode(old(self)@, old(self)@.mode.switched(m))
                    && plain_step(r, true),
                Action::Help => final(self)@ == with_mode(old(self)@, old(self)@.mode.switched(Mode::Help))
                    && plain_step(r, true),
                Action::ToggleShowHelp => final(self)@ == with_mode(
                    old(self)@,
                    if old(self)@.mode.current == Mode::Help {
                        old(self)@.mode.escaped()
                    } else {
                        old(self)@.mode.switched(Mode::Help)
                    },
                ) && plain_step(r, true),
                Action::ToggleShowCrateInfo => final(self)@ == with_mode(
                    old(self)@,
                    old(self)@.mode.switched(
                        if old(self)@.mode.current == Mode::CrateInfo {
                            Mode::Common
                        } else {
                            Mode::CrateInfo
                        },
                    ),
                ) && plain_step(r, true),
                Action::SubmitSearch => if old(self)@.mode.current.is_prompt() {
                    &&& final(self)@ == (PickerView {
                        mode: old(self)@.mode.switched(Mode::Common),
                        input: Seq::empty(),
                        cursor: 0,
                        query: old(self)@.input,
                        page: 1,
                        registry: old(self)@.registry.started(FetchKey::Search),
                        ..old(self)@
                    })
                    &&& search_step(r, old(self)@.registry.next_gen(), old(self)@.input, 1, old(self)@.sort)
                } else {
                    final(self)@ == old(self)@ && plain_step(r, true)
                },
                Action::ToggleSortBy { reload, forward } => {
                    let s = if forward {
                        next_sort(old(self)@.sort)
                    } else {
                        previous_sort(old(self)@.sort)
                    };
                    if reload {
                        &&& final(self)@ == (PickerView {
                            sort: s,
                            registry: old(self)@.registry.started(FetchKey::Search),
                            ..old(self)@
                        })
                        &&& search_step(r, old(self)@.registry.next_gen(), old(self)@.query, old(self)@.page, s)
                    } else {
                        final(self)@ == (PickerView { sort: s, ..old(self)@ }) && plain_step(r, true)
                    }
                },
                Action::ReloadData => final(self)@ == with_search_started(old(self)@)
                    && search_step(r, old(self)@.registry.next_gen(), old(self)@.query, old(self)@.page, old(self)@.sort),
                Action::GetCrates => final(self)@ == with_search_started(old(self)@)
                    && search_step(r, old(self)@.registry.next_gen(), old(self)@.query, old(self)@.page, old(self)@.sort),
                Action::IncrementPage => if has_next_page(old(self)@.page, old(self)@.total) {
                    &&& final(self)@ == (PickerView {
                        page: (old(self)@.page + 1) as u64,
                        registry: old(self)@.registry.started(FetchKey::Search),
                        ..old(self)@
                    })
                    &&& search_step(r, old(self)@.registry.next_gen(), old(self)@.query, (old(self)@.page + 1) as u64, old(self)@.sort)
                } else {
                    final(self)@ == old(self)@ && plain_step(r, true)
                },
                Action::DecrementPage => if old(self)@.page > 1 {
                    &&& final(self)@ == (PickerView {
                        page: (old(self)@.page - 1) as u64,
                        registry: old(self)@.registry.started(FetchKey::Search),
                        ..old(self)@
                    })
                    &&& search_step(r, old(self)@.registry.next_gen(), old(self)@.query, (old(self)@.page - 1) as u64, old(self)@.sort)
                } else {
                    final(self)@ == old(self)@ && plain_step(r, true)
                },
                Action::StoreTotalNumberOfCrates(n) => final(self)@ == (PickerView {
                    total: Some(n),
                    ..old(self)@
                }) && plain_step(r, true),
                Action::ScrollDown | Action::ScrollUp | Action::ScrollTop | Action::ScrollBottom => {
                    &&& final(self)@ == (PickerView {
                        selection: scrolled(old(self)@, action),
                        ..old(self)@
                    })
                    &&& r.fetch is None
                &&& r.effect is None
                    &&& r.render
                    &&& r.follow_up == if final(self)@.selection != old(self)@.selection {
                        Some(Action::UpdateCurrentSelectionCrateInfo)
                    } else {
                        None
                    }
                },
                Action::UpdateCurrentSelectionCrateInfo => match old(self)@.selection {
                    Some(i) => {
                        &&& final(self)@ == (PickerView {
                            registry: old(self)@.registry.started(FetchKey::Detail),
                            detail: None,
                            ..old(self)@
                        })
                        &&& r.follow_up is None
                        &&& r.effect is None
                        &&& r.render
                        &&& r.fetch == Some(FetchRequest::Detail {
                            generation: old(self)@.registry.next_gen(),
                            name: old(self)@.rows[i as int].name,
                        })
                    },
                    None => final(self)@ == old(self)@ && plain_step(r, true),
                },
                Action::ClearTaskDetailsHandle(_) => final(self)@ == (PickerView {
                    registry: old(self)@.registry.cancelled(FetchKey::Detail),
                    ..old(self)@
                }) && plain_step(r, true),
                Action::CopyCargoAddCommandToClipboard => final(self)@ == old(self)@ && match old(self)@.selection {
                    Some(i) => effect_step(r, true, cargo_add_command(old(self)@.rows[i as int].name@)),
                    None => plain_step(r, true),
                },
                Action::OpenDocsUrlInBrowser => final(self)@ == old(self)@ && match old(self)@.selection {
                    Some(i) => effect_step(r, false, docs_url(old(self)@.rows[i as int].name@)),
                    None => plain_step(r, true),
                },
                Action::OpenCratesIOUrlInBrowser => final(self)@ == old(self)@ && match old(self)@.selection {
                    Some(i) => effect_step(r, false, crates_io_url(old(self)@.rows[i as int].name@)),
                    None => plain_step(r, true),
                },
                _ => final(self)@ == old(self)@ && plain_step(r, true),
            },
    {
        let plain = Step { follow_up: None, fetch: None, effect: None, render: true };
        match action {
            Action::Tick => {
                self.pending_keys = 0;
                Step { follow_up: None, fetch: None, effect: None, render: false }
            },
            Action::Quit => {
                self.should_quit = true;
                plain
            },
            Action::ShowErrorPopup(s) => {
                self.popup = Some(s);
                plain
            },
            Action::ShowInfoPopup(s) => {
                self.popup = Some(s);
                plain
            },
            Action::ClosePopup => {
                self.popup = None;
                plain
            },
            Action::SwitchMode(m) => {
                let mut next = self.mode;
                next.switch(m);
                self.set_mode(next);
                plain
            },
            Action::Help => {
                let mut next = self.mode;
                next.switch(Mode::Help);
                self.set_mode(next);
                plain
            },
            Action::ToggleShowHelp => {
                let mut next = self.mode;
                if next.current.is_help() {
                    next.escape();
                } else {
                    next.switch(Mode::Help);
                }
                self.set_mode(next);
                plain
            },
            Action::ToggleShowCrateInfo => {
                let mut next = self.mode;
                if matches!(next.current, Mode::CrateInfo) {
                    next.switch(Mode::Common);
                } else {
                    next.switch(Mode::CrateInfo);
                }
                self.set_mode(next);
                plain
            },
            Action::SubmitSearch => {
                if self.mode.current.focused() {
                    self.query = copy_chars(self.input.value());
                    self.input.reset();
                    self.mode.switch(Mode::Common);
                    self.page = 1;
                    self.start_search()
                } else {
                    plain
                }
            },
            Action::ToggleSortBy { reload, forward } => {
                self.sort = self.sort.cycled(forward);
                if reload {
                    self.start_search()
                } else {
                    plain
                }
            },
            Action::ReloadData => self.start_search(),
            Action::GetCrates => self.start_search(),
            Action::IncrementPage => {
                let more = match self.total {
                    None => self.page < u64::MAX,
                    Some(t) => match self.page.checked_mul(PAGE_SIZE) {
                        Some(shown) => shown < t,
                        None => false,
                    },
                };
                if more {
                    self.page = self.page + 1;
                    self.start_search()
                } else {
                    plain
                }
            },
            Action::DecrementPage => {
                if self.page > 1 {
                    self.page = self.page - 1;
                    self.start_search()
                } else {
                    plain
                }
            },
            Action::StoreTotalNumberOfCrates(n) => {
                self.total = Some(n);
                plain
            },
            Action::ScrollDown => self.scroll(action),
            Action::ScrollUp => self.scroll(action),
            Action::ScrollTop => self.scroll(action),
            Action::ScrollBottom => self.scroll(action),
            Action::UpdateCurrentSelectionCrateInfo => {
                match self.results.selected_crate() {
                    Some(c) => {
                        let name = c.name.clone();
                        let generation = self.registry.start(FetchKey::Detail);
                        self.detail = None;
                        Step {
                            follow_up: None,
                            fetch: Some(FetchRequest::Detail { generation, name }),
                            effect: None,
                            render: true,
                        }
                    },
                    None => plain,
                }
            },
            Action::ClearTaskDetailsHandle(_) => {
                self.registry.cancel(FetchKey::Detail);
                plain
            },
            Action::CopyCargoAddCommandToClipboard => match self.results.selected_crate() {
                Some(c) => {
                    let mut text: Vec<char> = Vec::new();
                    append_str(&mut text, "cargo add ");
                    append_str(&mut text, c.name.as_str());
                    assert(text@ =~= cargo_add_command(c.name@));
                    Step {
                        follow_up: None,
                        fetch: None,
                        effect: Some(SideEffect::CopyToClipboard(text)),
                        render: true,
                    }
                },
                None => plain,
            },
            Action::OpenDocsUrlInBrowser => match self.results.selected_crate() {
                Some(c) => {
                    let mut text: Vec<char> = Vec::new();
                    append_str(&mut text, "https://docs.rs/");
                    append_str(&mut text, c.name.as_str());
                    append_str(&mut text, "/latest/");
                    append_str(&mut text, c.name.as_str());
                    assert(text@ =~= docs_url(c.name@));
                    Step { follow_up: None, fetch: None, effect: Some(SideEffect::OpenUrl(text)), render: true }
                },
                None => plain,
            },
            Action::OpenCratesIOUrlInBrowser => match self.results.selected_crate() {
                Some(c) => {
                    let mut text: Vec<char> = Vec::new();
                    append_str(&mut text, "https://crates.io/crates/");
                    append_str(&mut text, c.name.as_str());
                    assert(text@ =~= crates_io_url(c.name@));
                    Step { follow_up: None, fetch: None, effect: Some(SideEffect::OpenUrl(text)), render: true }
                },
                None => plain,
            },
            _ => plain,
        }
    }

    /// Moves the selection for a scroll action, and asks for the detail of
    /// the new row when the selection moved.
    fn scroll(&mut self, action: Action) -> (r: Step)
        requires
            old(self).wf(),
            action is ScrollDown || action is ScrollUp || action is ScrollTop || action is ScrollBottom,
        ensures
            final(self).wf(),
            final(self)@ == (PickerView { selection: scrolled(old(self)@, action), ..old(self)@ }),
            r.fetch is None,
            r.effect is None,
            r.render,
            r.follow_up == if final(self)@.selection != old(self)@.selection {
                Some(Action::UpdateCurrentSelectionCrateInfo)
            } else {
                None
            },
    {
        let before = self.results.selected();
        match action {
            Action::ScrollDown => self.results.scroll_next(1),
            Action::ScrollUp => self.results.scroll_previous(1),
            Action::ScrollTop => self.results.scroll_to_top(),
            _ => self.results.scroll_to_bottom(),
        }
        let after = self.results.selected();
        let moved = match (before, after) {
            (Some(a), Some(b)) => a != b,
            (None, None) => false,
            _ => true,
        };
        Step {
            follow_up: if moved {
                Some(Action::UpdateCurrentSelectionCrateInfo)
            } else {
                None
            },
            fetch: None,
            effect: None,
            render: true,
        }
    }

    /// Applies the page of results that the search fetch tagged `generation`
    /// brought, if that fetch is still the live one: the rows are replaced,
    /// the first row selected, the old detail dropped, the total stored when
    /// known, and the detail of the new selection asked for. A stale result
    /// changes nothing.
    pub fn complete_search(&mut self, generation: u64, crates: Vec<CrateSummary>, total: Option<u64>) -> (r: Step)
        requires
            old(self).wf(),
        ensures
            final(self).wf(),
            old(self)@.registry.live(FetchKey::Search) == Some(generation) ==> {
                &&& final(self)@ == (PickerView {
                    registry: old(self)@.registry.cancelled(FetchKey::Search),
                    rows: crates@,
                    selection: if crates@.len() == 0 {
                        None
                    } else {
                        Some(0usize)
                    },
                    total: if total is Some {
                        total
                    } else {
                        old(self)@.total
                    },
                    detail: None,
                    ..old(self)@
                })
                &&& r.fetch is None
                &&& r.effect is None
                &&& r.render
                &&& r.follow_up == if crates@.len() == 0 {
                    None
                } else {
                    Some(Action::UpdateCurrentSelectionCrateInfo)
                }
            },
            old(self)@.registry.live(FetchKey::Search) != Some(generation) ==> final(self)@ == old(self)@
                && plain_step(r, false),
    {
        if !self.registry.complete(FetchKey::Search, generation) {
            return Step { follow_up: None, fetch: None, effect: None, render: false };
        }
        let any = crates.len() > 0;
        self.results.set_crates(crates);
        if total.is_some() {
            self.total = total;
        }
        self.detail = None;
        Step {
            follow_up: if any {
                Some(Action::UpdateCurrentSelectionCrateInfo)
            } else {
                None
            },
            fetch: None,
            effect: None,
            render: true,
        }
    }

    /// Shows the package record that the detail fetch tagged `generation`
    /// brought, if that fetch is still the live one; returns whether it did.
    /// A stale record changes nothing.
    pub fn complete_detail(&mut self, generation: u64, detail: PackageDetail) -> (applied: bool)
        requires
            old(self).wf(),
        ensures
            final(self).wf(),
            applied == (old(self)@.registry.live(FetchKey::Detail) == Some(generation)),
            applied ==> final(self)@ == (PickerView {
                registry: old(self)@.registry.cancelled(FetchKey::Detail),
                detail: Some(detail),
                ..old(self)@
            }),
            !applied ==> final(self)@ == old(self)@,
    {
        if self.registry.complete(FetchKey::Detail, generation) {
            self.detail = Some(detail);
            true
        } else {
            false
        }
    }

    /// Handles a failed fetch: if it was the live one, its slot is released
    /// and an error popup follows; a stale failure changes nothing.
    pub fn fail_fetch(&mut self, key: FetchKey, generation: u64, message: String) -> (r: Step)
        requires
            old(self).wf(),
        ensures
            final(self).wf(),
            old(self)@.registry.live(key) == Some(generation) ==> {
                &&& final(self)@ == (PickerView {
                    registry: old(self)@.registry.cancelled(key),
                    ..old(self)@
                })
                &&& r.follow_up == Some(Action::ShowErrorPopup(message))
                &&& r.fetch is None
                &&& r.effect is None
                &&& r.render
            },
            old(self)@.registry.live(key) != Some(generation) ==> final(self)@ == old(self)@
                && plain_step(r, false),
    {
        if self.registry.complete(key, generation) {
            Step { follow_up: Some(Action::ShowErrorPopup(message)), fetch: None, effect: None, render: true }
        } else {
            Step { follow_up: None, fetch: None, effect: None, render: false }
        }
    }

    /// Notes a key press for multi-key commands; `Tick` forgets them.
    pub fn record_key(&mut self)
        requires
            old(self).wf(),
        ensures
            final(self).wf(),
            final(self)@ == (PickerView {
                pending_keys: if old(self)@.pending_keys < usize::MAX {
                    old(self)@.pending_keys + 1
                } else {
                    old(self)@.pending_keys
                },
                ..old(self)@
            }),
    {
        self.pending_keys = self.pending_keys.saturating_add(1);
    }

    /// Cancels help or a text-entry mode, back to the mode it was entered
    /// from; leaving a text-entry mode empties the input, nothing else changes.
    pub fn escape(&mut self)
        requires
            old(self).wf(),
        ensures
            final(self).wf(),
            final(self)@ == with_mode(old(self)@, old(self)@.mode.escaped()),
    {
        let mut next = self.mode;
        next.escape();
        self.set_mode(next);
    }

    /// Makes `next` the mode state; the input is emptied when a text-entry
    /// mode is left or entered.
    fn set_mode(&mut self, next: ModeState)
        requires
            old(self).wf(),
            next.wf(),
        ensures
            final(self).wf(),
            final(self)@ == with_mode(old(self)@, next),
    {
        if self.mode.current.focused() || next.current.focused() {
            self.input.reset();
        }
        self.mode = next;
    }

    /// Types `c` into the input field; outside a text-entry mode nothing changes.
    pub fn insert_char(&mut self, c: char)
        requires
            old(self).wf(),
        ensures
            final(self).wf(),
            old(self)@.mode.current.is_prompt() && old(self)@.input.len() < usize::MAX
                ==> final(self)@ == (PickerView {
                input: old(self)@.input.insert(old(self)@.cursor as int, c),
                cursor: old(self)@.cursor + 1,
                ..old(self)@
            }),
            !(old(self)@.mode.current.is_prompt() && old(self)@.input.len() < usize::MAX)
                ==> final(self)@ == old(self)@,
    {
        if self.mode.current.focused() && self.input.value().len() < usize::MAX {
            self.input.insert(c);
        }
    }

    /// Deletes the character before the cursor in a text-entry mode.
    pub fn delete_char(&mut self)
        requires
            old(self).wf(),
        ensures
            final(self).wf(),
            old(self)@.mode.current.is_prompt() && old(self)@.cursor > 0 ==> final(self)@ == (PickerView {
                input: old(self)@.input.remove(old(self)@.cursor - 1),
                cursor: (old(self)@.cursor - 1) as nat,
                ..old(self)@
            }),
            !(old(self)@.mode.current.is_prompt() && old(self)@.cursor > 0) ==> final(self)@ == old(self)@,
    {
        if self.mode.current.focused() {
            self.input.delete_previous();
        }
    }

    pub fn mode(&self) -> (r: Mode)
        ensures
            r == self@.mode.current,
    {
        self.mode.current
    }

    pub fn input(&self) -> (r: &InputField)
        ensures
            r.text() == self@.input,
            r.cursor_at() == self@.cursor,
    {
        &self.input
    }

    pub fn results(&self) -> (r: &SearchResults)
        ensures
            r.rows() == self@.rows,
            r.selection() == self@.selection,
    {
        &self.results
    }

    pub fn sort(&self) -> (r: SortKey)
        ensures
            r == self@.sort,
    {
        self.sort
    }

    pub fn page(&self) -> (r: u64)
        ensures
            r == self@.page,
    {
        self.page
    }

    pub fn total(&self) -> (r: Option<u64>)
        ensures
            r == self@.total,
    {
        self.total
    }

    pub fn query(&self) -> (r: &Vec<char>)
        ensures
            r@ == self@.query,
    {
        &self.query
    }

    pub fn detail(&self) -> (r: &Option<PackageDetail>)
        ensures
            *r == self@.detail,
    {
        &self.detail
    }

    pub fn popup(&self) -> (r: Option<&String>)
        ensures
            match r {
                Some(s) => self@.popup == Some(s@),
                None => self@.popup is None,
            },
    {
        match &self.popup {
            Some(s) => Some(s),
            None => None,
        }
    }

    pub fn pending_keys(&self) -> (r: usize)
        ensures
            r == self@.pending_keys,
    {
        self.pending_keys
    }

    pub fn should_quit(&self) -> (r: bool)
        ensures
            r == self@.should_quit,
    {
        self.should_quit
    }

    /// Whether `update` can hand out another fetch generation.
    pub fn can_start(&self) -> (r: bool)
        ensures
            r == (self@.registry.next_gen() < u64::MAX),
    {
        self.registry.can_start()
    }

    /// The generation live for `k`, if any.
    pub fn live_generation(&self, k: FetchKey) -> (r: Option<u64>)
        ensures
            r == self@.registry.live(k),
    {
        self.registry.live_generation(k)
    }
}

/// A completion whose generation is live for its key changes the session (at
/// the least, the slot is released); together with the contracts of
/// `complete_search`, `complete_detail` and `fail_fetch`, which leave the
/// session as it was otherwise, a completion changes the state exactly when
/// its generation is the live one.
pub proof fn lemma_live_completion_changes_state(v: PickerView, k: FetchKey, g: u64)
    requires
        v.registry.live(k) == Some(g),
    ensures
        (PickerView { registry: v.registry.cancelled(k), ..v }) != v,
{
    crate::task_registry::lemma_cancelled_live(v.registry, k);
}

/// What a well-formed session guarantees: the page is at least one, a
/// selection names a row and exists exactly when there are rows, the input
/// cursor lies within the text, and the fetch registry is well-formed.
pub proof fn lemma_session_wf(p: Picker)
    requires
        p.wf(),
    ensures
        p@.page >= 1,
        p@.selection is None <==> p@.rows.len() == 0,
        p@.selection matches Some(i) ==> i < p@.rows.len(),
        p@.cursor <= p@.input.len(),
        p@.registry.wf(),
        p@.mode.wf(),
{
    crate::search_results::lemma_selection_in_range(p.results);
}

} // verus!
