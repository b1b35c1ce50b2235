use vstd::prelude::*;

verus! {

/// The top-level view, which decides how keys are read and what is shown.
#[derive(Debug, Clone, Copy, PartialEq, Eq, Hash, Structural)]
pub enum Mode {
    /// Browsing the results.
    Common,
    /// Typing a search query.
    Search,
    /// Typing a filter.
    Filter,
    /// The summary of the registry.
    Summary,
    /// The detail of one package.
    CrateInfo,
    /// The key-binding help.
    Help,
}

impl Mode {
    /// The text-entry modes, in which every printable key goes to the input field.
    pub open spec fn is_prompt(self) -> bool {
        self == Mode::Search || self == Mode::Filter
    }

    /// Whether the input field has focus.
    pub fn focused(&self) -> (r: bool)
        ensures
            r == self.is_prompt(),
    {
        matches!(self, Mode::Search | Mode::Filter)
    }

    pub fn is_search(&self) -> (r: bool)
        ensures
            r == (*self == Mode::Search),
    {
        matches!(self, Mode::Search)
    }

    pub fn is_filter(&self) -> (r: bool)
        ensures
            r == (*self == Mode::Filter),
    {
        matches!(self, Mode::Filter)
    }

    pub fn is_summary(&self) -> (r: bool)
        ensures
            r == (*self == Mode::Summary),
    {
        matches!(self, Mode::Summary)
    }

    pub fn is_help(&self) -> (r: bool)
        ensures
            r == (*self == Mode::Help),
    {
        matches!(self, Mode::Help)
    }
}

/// The current mode, with the mode that Escape returns to from the help
/// screen and from a text-entry mode.
#[derive(Debug, Clone, Copy, PartialEq, Eq, Structural)]
pub struct ModeState {
    pub current: Mode,
    /// The mode that was current when help was opened.
    pub before_help: Mode,
    /// The mode that was current when a text-entry mode was entered.
    pub before_prompt: Mode,
}

impl ModeState {
    /// Help returns to a mode other than help.
    pub open spec fn wf(&self) -> bool {
        self.before_help != Mode::Help
    }

    /// The state after an explicit switch to `target`.
    pub open spec fn switched(self, target: Mode) -> ModeState {
        if target == Mode::Help {
            if self.current == Mode::Help {
                self
            } else {
                ModeState { current: Mode::Help, before_help: self.current, ..self }
            }
        } else if target.is_prompt() {
            ModeState {
                current: target,
                before_prompt: if self.current == target {
                    self.before_prompt
                } else {
                    self.current
                },
                ..self
            }
        } else {
            ModeState { current: target, ..self }
        }
    }

    /// The state after Escape: help and the text-entry modes go back to the
    /// mode they were entered from; elsewhere nothing changes. Only one level
    /// is kept: a text-entry mode reached this way cancels to `Common`.
    pub open spec fn escaped(self) -> ModeState {
        if self.current == Mode::Help {
            ModeState { current: self.before_help, ..self }
        } else if self.current.is_prompt() {
            ModeState { current: self.before_prompt, before_prompt: Mode::Common, ..self }
        } else {
            self
        }
    }

    /// Starts in `Common`.
    pub fn new() -> (r: ModeState)
        ensures
            r.wf(),
            r.current == Mode::Common,
    {
        ModeState { current: Mode::Common, before_help: Mode::Common, before_prompt: Mode::Common }
    }

    /// Switches to `target`. Opening help from help does nothing; entering a
    /// text-entry mode from another mode remembers that mode for Escape.
    pub fn switch(&mut self, target: Mode)
        requires
            old(self).wf(),
        ensures
            final(self).wf(),
            *final(self) == old(self).switched(target),
            final(self).current == target,
    {
        if target.is_help() {
            if !self.current.is_help() {
                self.before_help = self.current;
                self.current = Mode::Help;
            }
        } else if target.focused() {
            if self.current != target {
                self.before_prompt = self.current;
            }
            self.current = target;
        } else {
            self.current = target;
        }
    }

    /// Leaves help or a text-entry mode for the mode it was entered from.
    pub fn escape(&mut self)
        requires
            old(self).wf(),
        ensures
            final(self).wf(),
            *final(self) == old(self).escaped(),
    {
        if self.current.is_help() {
            self.current = self.before_help;
        } else if self.current.focused() {
            self.current = self.before_prompt;
            self.before_prompt = Mode::Common;
        }
    }
}

/// Escape undoes entering a text-entry mode or help from any other mode:
/// it returns to exactly the mode that was current before.
pub proof fn lemma_escape_returns_to_prior_mode(s: ModeState, target: Mode)
    requires
        s.wf(),
        target.is_prompt() || target == Mode::Help,
        s.current != target,
    ensures
        s.switched(target).escaped().current == s.current,
        s.switched(target).wf(),
{
}

} // verus!
