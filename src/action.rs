use vstd::prelude::*;

use crate::mode::Mode;

verus! {

/// One event of the session: input, a timer tick, or a step that the session
/// itself asks for. Each is handled exactly once, in the order it arrived.
#[derive(Debug, Clone, PartialEq, Eq, Hash)]
pub enum Action {
    Tick,
    Render,
    KeyRefresh,
    Resize(u16, u16),
    Suspend,
    Resume,
    Quit,
    Init,
    Refresh,
    ShowErrorPopup(String),
    ShowInfoPopup(String),
    ClosePopup,
    Help,
    GetCrates,
    SwitchMode(Mode),
    HandleFilterPromptChange,
    IncrementPage,
    DecrementPage,
    NextSummaryMode,
    PreviousSummaryMode,
    ToggleSortBy { reload: bool, forward: bool },
    ScrollBottom,
    ScrollTop,
    ScrollDown,
    ScrollUp,
    ScrollCrateInfoDown,
    ScrollCrateInfoUp,
    SubmitSearch,
    UpdateCurrentSelectionCrateInfo,
    UpdateCurrentSelectionSummary,
    ReloadData,
    ToggleShowHelp,
    ToggleShowCrateInfo,
    StoreTotalNumberOfCrates(u64),
    ClearTaskDetailsHandle(String),
    CopyCargoAddCommandToClipboard,
    OpenDocsUrlInBrowser,
    OpenCratesIOUrlInBrowser,
    ShowFullCrateInfo,
}

impl Action {
    /// Whether handling the action calls for no repaint.
    pub open spec fn is_quiet(&self) -> bool {
        self is Tick
    }
}

} // verus!
