use vstd::prelude::*;

use crate::input::InputField;
use crate::mode::Mode;
use crate::sort::SortKey;

verus! {

/// A cell on the screen.
#[derive(Debug, Clone, Copy, PartialEq, Eq, Hash, Structural)]
pub struct Position {
    pub x: u16,
    pub y: u16,
}

/// A rectangle of the screen.
#[derive(Debug, Clone, Copy, PartialEq, Eq, Hash, Structural)]
pub struct Area {
    pub x: u16,
    pub y: u16,
    pub width: u16,
    pub height: u16,
}

/// Where the terminal cursor goes after the prompt was drawn.
#[derive(Debug, Clone, Copy, PartialEq, Eq, Hash, Default, Structural)]
pub struct SearchFilterPrompt {
    cursor_position: Option<Position>,
}

/// `a + b`, or the largest `u16` where the sum does not fit.
pub open spec fn sat_add(a: int, b: int) -> u16 {
    if a + b > u16::MAX {
        u16::MAX
    } else {
        (a + b) as u16
    }
}

/// Rightmost column the cursor may take in an area `width` wide: two columns
/// inside the three quarters that the input takes.
pub open spec fn cursor_limit(width: u16) -> u16 {
    let q = width as int * 3 / 4;
    if q >= 2 {
        (q - 2) as u16
    } else {
        0
    }
}

impl SearchFilterPrompt {
    pub closed spec fn cursor_spec(&self) -> Option<Position> {
        self.cursor_position
    }

    /// No cursor shown.
    pub fn new() -> (r: SearchFilterPrompt)
        ensures
            r.cursor_spec() is None,
    {
        SearchFilterPrompt { cursor_position: None }
    }

    pub fn cursor_position(&self) -> (r: Option<Position>)
        ensures
            r == self.cursor_spec(),
    {
        self.cursor_position
    }
}

/// What the prompt's text line holds.
#[derive(Debug, Clone, Copy, PartialEq, Eq, Hash, Structural)]
pub enum PromptText {
    /// The input, being edited.
    Input,
    /// The last query followed by the sort key in parentheses.
    InputWithSort,
    /// Nothing.
    Empty,
}

/// Which hint the prompt's frame carries as its title.
#[derive(Debug, Clone, Copy, PartialEq, Eq, Hash, Structural)]
pub enum PromptTitle {
    /// How to submit a filter.
    Filter,
    /// How to submit a search.
    Search,
    /// How to open the registry page, search, or get help.
    Summary,
    /// How to leave help.
    Help,
    /// How to search, filter, or get help.
    Browse,
}

/// The colour family of the prompt's border.
#[derive(Debug, Clone, Copy, PartialEq, Eq, Hash, Structural)]
pub enum BorderTone {
    Search,
    Filter,
    Plain,
}

/// How the frame around the prompt is drawn.
#[derive(Debug, Clone, Copy, PartialEq, Eq, Hash, Structural)]
pub struct PromptFrame {
    pub title: PromptTitle,
    /// Borders on all sides, else none.
    pub bordered: bool,
    /// Title at the left, else at the right.
    pub title_left: bool,
    pub border: BorderTone,
    /// Whether the hints for toggling the sort and for help are added.
    pub search_hints: bool,
}

/// The layout of the search/filter prompt for one frame.
pub struct SearchFilterPromptWidget {
    mode: Mode,
    sort: SortKey,
    cursor: usize,
    vertical_margin: u16,
    horizontal_margin: u16,
}

impl SearchFilterPromptWidget {
    pub closed spec fn mode_spec(&self) -> Mode {
        self.mode
    }

    pub closed spec fn sort_spec(&self) -> SortKey {
        self.sort
    }

    /// The input field's cursor.
    pub closed spec fn cursor_spec(&self) -> nat {
        self.cursor as nat
    }

    /// Margin around the text, in columns.
    pub closed spec fn horizontal_margin_spec(&self) -> u16 {
        if self.mode.is_prompt() {
            self.horizontal_margin
        } else {
            0
        }
    }

    /// Margin around the text, in rows.
    pub closed spec fn vertical_margin_spec(&self) -> u16 {
        if self.mode.is_prompt() {
            self.vertical_margin
        } else {
            0
        }
    }

    /// A prompt for `mode`, showing `input` and the sort key; with margins of
    /// two when the input has focus, else none.
    pub fn new(mode: Mode, sort: SortKey, input: &InputField) -> (r: SearchFilterPromptWidget)
        ensures
            r.mode_spec() == mode,
            r.sort_spec() == sort,
            r.cursor_spec() == input.cursor_at(),
            r.horizontal_margin_spec() == if mode.is_prompt() {
                2u16
            } else {
                0u16
            },
            r.vertical_margin_spec() == if mode.is_prompt() {
                2u16
            } else {
                0u16
            },
    {
        SearchFilterPromptWidget {
            mode,
            sort,
            cursor: input.cursor(),
            vertical_margin: 2,
            horizontal_margin: 2,
        }
    }

    pub fn mode(&self) -> (r: Mode)
        ensures
            r == self.mode_spec(),
    {
        self.mode
    }

    pub fn sort(&self) -> (r: SortKey)
        ensures
            r == self.sort_spec(),
    {
        self.sort
    }

    pub fn horizontal_margin(&self) -> (r: u16)
        ensures
            r == self.horizontal_margin_spec(),
    {
        if self.mode.focused() {
            self.horizontal_margin
        } else {
            0
        }
    }

    pub fn vertical_margin(&self) -> (r: u16)
        ensures
            r == self.vertical_margin_spec(),
    {
        if self.mode.focused() {
            self.vertical_margin
        } else {
            0
        }
    }

    /// Columns the input text is scrolled by in a field `width` wide, so that
    /// the cursor stays at least four columns inside the right edge.
    pub fn input_scroll(&self, width: usize) -> (r: usize)
        ensures
            r == (if width >= 4 {
                if self.cursor_spec() >= width - 4 {
                    self.cursor_spec() - (width - 4)
                } else {
                    0
                }
            } else {
                self.cursor_spec() as int
            }),
    {
        self.cursor.saturating_sub(width.saturating_sub(4))
    }

    /// Places the terminal cursor for a prompt drawn in `area`: after the
    /// text, inside the margins, and no further right than `cursor_limit`,
    /// when the input has focus; nowhere otherwise.
    pub fn update_cursor_state(&self, area: Area, state: &mut SearchFilterPrompt)
        ensures
            final(state).cursor_spec() == if self.mode_spec().is_prompt() {
                Some(
                    Position {
                        x: if area.x + self.horizontal_margin_spec() + self.cursor_spec() <= cursor_limit(
                            area.width,
                        ) {
                            (area.x + self.horizontal_margin_spec() + self.cursor_spec()) as u16
                        } else {
                            cursor_limit(area.width)
                        },
                        y: sat_add(area.y as int, self.vertical_margin_spec() as int),
                    },
                )
            } else {
                None
            },
    {
        let three_quarters: u32 = (area.width as u32) * 3 / 4;
        let limit: u16 = if three_quarters >= 2 {
            (three_quarters - 2) as u16
        } else {
            0
        };
        if self.mode.focused() {
            let h = self.horizontal_margin();
            let v = self.vertical_margin();
            let x: u16 = if self.cursor >= limit as usize {
                limit
            } else {
                let sum: u32 = area.x as u32 + h as u32 + self.cursor as u32;
                if sum <= limit as u32 {
                    sum as u16
                } else {
                    limit
                }
            };
            state.cursor_position = Some(Position { x, y: area.y.saturating_add(v) });
        } else {
            state.cursor_position = None;
        }
    }

    /// The input while it has focus; nothing on the summary and help
    /// screens; elsewhere the input with the sort key.
    pub fn input_text(&self) -> (r: PromptText)
        ensures
            r == if self.mode_spec().is_prompt() {
                PromptText::Input
            } else if self.mode_spec() == Mode::Summary || self.mode_spec() == Mode::Help {
                PromptText::Empty
            } else {
                PromptText::InputWithSort
            },
    {
        if self.mode.focused() {
            PromptText::Input
        } else if self.mode.is_summary() || self.mode.is_help() {
            PromptText::Empty
        } else {
            PromptText::InputWithSort
        }
    }

    /// The frame for the current mode: a bordered, left-titled frame while
    /// the input has focus, coloured by the text-entry mode, with the sort and
    /// help hints in search mode; else a bare title at the right.
    pub fn input_block(&self) -> (r: PromptFrame)
        ensures
            r.title == (match self.mode_spec() {
                Mode::Filter => PromptTitle::Filter,
                Mode::Search => PromptTitle::Search,
                Mode::Summary => PromptTitle::Summary,
                Mode::Help => PromptTitle::Help,
                _ => PromptTitle::Browse,
            }),
            r.bordered == self.mode_spec().is_prompt(),
            r.title_left == self.mode_spec().is_prompt(),
            r.border == (match self.mode_spec() {
                Mode::Search => BorderTone::Search,
                Mode::Filter => BorderTone::Filter,
                _ => BorderTone::Plain,
            }),
            r.search_hints == (self.mode_spec() == Mode::Search),
    {
        let title = match self.mode {
            Mode::Filter => PromptTitle::Filter,
            Mode::Search => PromptTitle::Search,
            Mode::Summary => PromptTitle::Summary,
            Mode::Help => PromptTitle::Help,
            _ => PromptTitle::Browse,
        };
        let border = match self.mode {
            Mode::Search => BorderTone::Search,
            Mode::Filter => BorderTone::Filter,
            _ => BorderTone::Plain,
        };
        let focused = self.mode.focused();
        PromptFrame { title, bordered: focused, title_left: focused, border, search_hints: self.mode.is_search() }
    }
}

} // verus!
