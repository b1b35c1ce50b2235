use vstd::prelude::*;

verus! {

/// One row of a search: the summary of a package as the registry lists it.
#[derive(Debug, Clone, PartialEq, Eq)]
pub struct CrateSummary {
    pub name: String,
    pub description: Option<String>,
    pub downloads: u64,
    /// Time of the last update, in seconds since the Unix epoch.
    pub updated_at: i64,
}

/// Row reached from row `i` by moving `count` rows down, wrapping past the last row.
pub open spec fn step_down(i: nat, count: nat, len: nat) -> nat
    recommends
        len > 0,
{
    (i + count) % len
}

/// Row reached from row `i` by moving `count` rows up, wrapping before the
/// first row to the last.
pub open spec fn step_up(i: nat, count: nat, len: nat) -> nat
    recommends
        len > 0,
{
    ((i + len - count % len) % (len as int)) as nat
}

/// Selection index after moving `count` rows down; with no selection, the first row.
pub open spec fn next_index(sel: Option<usize>, count: nat, len: nat) -> nat
    recommends
        len > 0,
{
    match sel {
        None => 0,
        Some(i) => step_down(i as nat, count, len),
    }
}

/// Selection index after moving `count` rows up; with no selection, the last row.
pub open spec fn previous_index(sel: Option<usize>, count: nat, len: nat) -> nat
    recommends
        len > 0,
{
    match sel {
        None => (len - 1) as nat,
        Some(i) => step_up(i as nat, count, len),
    }
}

/// Row reached from row `i` by `k` single steps down.
pub open spec fn step_down_times(i: nat, k: nat, len: nat) -> nat
    decreases k,
{
    if k == 0 {
        i
    } else {
        step_down(step_down_times(i, (k - 1) as nat, len), 1, len)
    }
}

proof fn lemma_step_down_times_is_mod(i: nat, k: nat, len: nat)
    requires
        i < len,
    ensures
        step_down_times(i, k, len) == (i + k) % len,
    decreases k,
{
    if k == 0 {
        vstd::arithmetic::div_mod::lemma_small_mod(i, len);
    } else {
        lemma_step_down_times_is_mod(i, (k - 1) as nat, len);
        vstd::arithmetic::div_mod::lemma_add_mod_noop(i + k - 1, 1, len as int);
        vstd::arithmetic::div_mod::lemma_mod_twice(i + k - 1, len as int);
        vstd::arithmetic::div_mod::lemma_mod_pos_bound(i + k - 1, len as int);
        vstd::arithmetic::div_mod::lemma_add_mod_noop((i + k - 1) % (len as int), 1, len as int);
    }
}

/// On a list of `len` rows, moving one row down `len` times comes back to the
/// row where it started.
pub proof fn lemma_scroll_next_full_cycle(i: nat, len: nat)
    requires
        i < len,
    ensures
        step_down_times(i, len, len) == i,
{
    lemma_step_down_times_is_mod(i, len, len);
    vstd::arithmetic::div_mod::lemma_add_mod_noop(i as int, len as int, len as int);
    vstd::arithmetic::div_mod::lemma_mod_self_0(len as int);
    vstd::arithmetic::div_mod::lemma_small_mod(i, len);
}

/// Moving `count` rows up undoes moving `count` rows down, and the other way round.
pub proof fn lemma_scroll_previous_inverts_next(i: nat, count: nat, len: nat)
    requires
        i < len,
    ensures
        step_up(step_down(i, count, len), count, len) == i,
        step_down(step_up(i, count, len), count, len) == i,
{
    let l = len as int;
    let ii = i as int;
    let c = (count % len) as int;
    vstd::arithmetic::div_mod::lemma_mod_pos_bound(count as int, l);
    vstd::arithmetic::div_mod::lemma_small_mod(i, len);
    // down then up
    let d = ((i + count) % len) as int;
    vstd::arithmetic::div_mod::lemma_add_mod_noop(i as int, count as int, l);
    vstd::arithmetic::div_mod::lemma_mod_pos_bound((i + count) as int, l);
    assert(d == (ii + c) % l);
    assert((d + l - c) % l == i) by {
        if ii + c < l {
            vstd::arithmetic::div_mod::lemma_small_mod((ii + c) as nat, len);
            vstd::arithmetic::div_mod::lemma_fundamental_div_mod_converse(ii + l, l, 1, ii);
        } else {
            vstd::arithmetic::div_mod::lemma_fundamental_div_mod_converse(ii + c, l, 1, ii + c - l);
            vstd::arithmetic::div_mod::lemma_small_mod(i, len);
        }
    }
    // up then down
    let u = (ii + l - c) % l;
    vstd::arithmetic::div_mod::lemma_mod_pos_bound(ii + l - c, l);
    assert(u + c < 2 * l);
    assert(step_down(u as nat, count, len) == (u + c) % l) by {
        vstd::arithmetic::div_mod::lemma_add_mod_noop(u, count as int, l);
        vstd::arithmetic::div_mod::lemma_small_mod(u as nat, len);
        vstd::arithmetic::div_mod::lemma_small_mod(c as nat, len);
        vstd::arithmetic::div_mod::lemma_mod_pos_bound(u + c, l);
        vstd::arithmetic::div_mod::lemma_add_mod_noop(u, c, l);
    }
    assert((u + c) % l == i) by {
        if ii >= c {
            vstd::arithmetic::div_mod::lemma_fundamental_div_mod_converse(ii + l - c, l, 1, ii - c);
            vstd::arithmetic::div_mod::lemma_small_mod(i, len);
        } else {
            vstd::arithmetic::div_mod::lemma_small_mod((ii + l - c) as nat, len);
            vstd::arithmetic::div_mod::lemma_fundamental_div_mod_converse(ii + l, l, 1, ii);
        }
    }
}

/// In a well-formed result set a selection names a row, and there is a
/// selection exactly when there are rows.
pub proof fn lemma_selection_in_range(r: SearchResults)
    requires
        r.wf(),
    ensures
        r.selection() is None <==> r.rows().len() == 0,
        r.selection() matches Some(i) ==> i < r.rows().len(),
{
}

/// The ordered rows of a search, with a selection cursor and the position of
/// the scroll bar that follows it.
pub struct SearchResults {
    crates: Vec<CrateSummary>,
    selected: Option<usize>,
    scroll_position: usize,
    content_length: usize,
}

impl SearchResults {
    /// A selection, if present, names a row; an empty list has no selection.
    pub closed spec fn wf(&self) -> bool {
        &&& match self.selected {
            Some(i) => i < self.crates@.len(),
            None => true,
        }
        &&& (self.crates@.len() == 0 <==> self.selected is None)
    }

    pub closed spec fn rows(&self) -> Seq<CrateSummary> {
        self.crates@
    }

    pub closed spec fn selection(&self) -> Option<usize> {
        self.selected
    }

    pub closed spec fn scroll_bar_position(&self) -> usize {
        self.scroll_position
    }

    pub closed spec fn scroll_bar_length(&self) -> usize {
        self.content_length
    }

    /// An empty result set.
    pub fn new() -> (r: SearchResults)
        ensures
            r.wf(),
            r.rows().len() == 0,
            r.selection() is None,
            r.scroll_bar_position() == 0,
            r.scroll_bar_length() == 0,
    {
        SearchResults { crates: Vec::new(), selected: None, scroll_position: 0, content_length: 0 }
    }

    /// Replaces the rows wholesale. The first row is selected, or none when
    /// the list is empty; the scroll bar is sized to the rows and goes to the top.
    pub fn set_crates(&mut self, crates: Vec<CrateSummary>)
        ensures
            final(self).wf(),
            final(self).rows() == crates@,
            final(self).selection() == (if crates@.len() == 0 {
                None
            } else {
                Some(0usize)
            }),
            final(self).scroll_bar_position() == 0,
            final(self).scroll_bar_length() == crates@.len(),
    {
        let n = crates.len();
        self.crates = crates;
        self.selected = if n == 0 {
            None
        } else {
            Some(0)
        };
        self.scroll_position = 0;
        self.content_length = n;
    }

    pub fn crates(&self) -> (r: &Vec<CrateSummary>)
        ensures
            r@ == self.rows(),
    {
        &self.crates
    }

    /// The scroll bar's position and the length it covers.
    pub fn scrollbar(&self) -> (r: (usize, usize))
        ensures
            r == (self.scroll_bar_position(), self.scroll_bar_length()),
    {
        (self.scroll_position, self.content_length)
    }

    pub fn len(&self) -> (r: usize)
        ensures
            r == self.rows().len(),
    {
        self.crates.len()
    }

    /// The row under the selection, if any.
    pub fn selected_crate(&self) -> (r: Option<&CrateSummary>)
        requires
            self.wf(),
        ensures
            r == (match self.selection() {
                Some(i) => Some(&self.rows()[i as int]),
                None => None::<&CrateSummary>,
            }),
    {
        match self.selected {
            Some(i) => Some(&self.crates[i]),
            None => None,
        }
    }

    /// Sets the length that the scroll bar covers.
    pub fn content_length(&mut self, content_length: usize)
        ensures
            final(self).scroll_bar_length() == content_length,
            final(self).rows() == old(self).rows(),
            final(self).selection() == old(self).selection(),
            final(self).scroll_bar_position() == old(self).scroll_bar_position(),
    {
        self.content_length = content_length;
    }

    /// Selects a row; only an empty list may have no selection.
    pub fn select(&mut self, index: Option<usize>)
        requires
            old(self).wf(),
            match index {
                Some(i) => i < old(self).rows().len(),
                None => old(self).rows().len() == 0,
            },
        ensures
            final(self).wf(),
            final(self).selection() == index,
            final(self).rows() == old(self).rows(),
            final(self).scroll_bar_position() == old(self).scroll_bar_position(),
            final(self).scroll_bar_length() == old(self).scroll_bar_length(),
    {
        self.selected = index;
    }

    pub fn selected(&self) -> (r: Option<usize>)
        ensures
            r == self.selection(),
    {
        self.selected
    }

    /// Moves the selection `count` rows down, wrapping past the last row; with
    /// no selection, selects the first row. Does nothing on an empty list.
    pub fn scroll_next(&mut self, count: usize)
        requires
            old(self).wf(),
        ensures
            final(self).wf(),
            old(self).rows().len() == 0 ==> *final(self) == *old(self),
            old(self).rows().len() > 0 ==> {
                let i = next_index(old(self).selection(), count as nat, old(self).rows().len());
                &&& final(self).selection() == Some(i as usize)
                &&& final(self).scroll_bar_position() == i
                &&& final(self).rows() == old(self).rows()
                &&& final(self).scroll_bar_length() == old(self).scroll_bar_length()
            },
    {
        let len = self.crates.len();
        if len == 0 {
            return;
        }
        let i: usize = match self.selected {
            None => 0,
            Some(cur) => {
                let step: usize = count % len;
                if cur >= len - step {
                    cur - (len - step)
                } else {
                    cur + step
                }
            },
        };
        proof {
            if let Some(cur) = self.selected {
                let step = count % len;
                assert((cur + count) % (len as int) == (cur + step) % (len as int)) by {
                    vstd::arithmetic::div_mod::lemma_add_mod_noop(cur as int, count as int, len as int);
                    vstd::arithmetic::div_mod::lemma_mod_twice(cur as int, len as int);
                    vstd::arithmetic::div_mod::lemma_add_mod_noop(cur as int, step as int, len as int);
                    vstd::arithmetic::div_mod::lemma_small_mod(cur as nat, len as nat);
                    vstd::arithmetic::div_mod::lemma_small_mod(step as nat, len as nat);
                }
                if cur >= len - step {
                    vstd::arithmetic::div_mod::lemma_mod_self_0(len as int);
                    vstd::arithmetic::div_mod::lemma_fundamental_div_mod_converse(
                        cur + step, len as int, 1, cur + step - len);
                } else {
                    vstd::arithmetic::div_mod::lemma_small_mod((cur + step) as nat, len as nat);
                }
            }
        }
        self.selected = Some(i);
        self.scroll_position = i;
    }

    /// Moves the selection `count` rows up, wrapping before the first row to
    /// the last; with no selection, selects the last row. Does nothing on an
    /// empty list.
    pub fn scroll_previous(&mut self, count: usize)
        requires
            old(self).wf(),
        ensures
            final(self).wf(),
            old(self).rows().len() == 0 ==> *final(self) == *old(self),
            old(self).rows().len() > 0 ==> {
                let i = previous_index(old(self).selection(), count as nat, old(self).rows().len());
                &&& final(self).selection() == Some(i as usize)
                &&& final(self).scroll_bar_position() == i
                &&& final(self).rows() == old(self).rows()
                &&& final(self).scroll_bar_length() == old(self).scroll_bar_length()
            },
    {
        let len = self.crates.len();
        if len == 0 {
            return;
        }
        let i: usize = match self.selected {
            None => len - 1,
            Some(cur) => {
                let step: usize = count % len;
                if cur >= step {
                    cur - step
                } else {
                    cur + (len - step)
                }
            },
        };
        proof {
            if let Some(cur) = self.selected {
                let step = count % len;
                if cur >= step {
                    vstd::arithmetic::div_mod::lemma_mod_self_0(len as int);
                    vstd::arithmetic::div_mod::lemma_fundamental_div_mod_converse(
                        cur + len - step, len as int, 1, cur - step);
                } else {
                    vstd::arithmetic::div_mod::lemma_small_mod((cur + len - step) as nat, len as nat);
                }
            }
        }
        self.selected = Some(i);
        self.scroll_position = i;
    }

    /// Selects the first row. Does nothing on an empty list.
    pub fn scroll_to_top(&mut self)
        requires
            old(self).wf(),
        ensures
            final(self).wf(),
            old(self).rows().len() == 0 ==> *final(self) == *old(self),
            old(self).rows().len() > 0 ==> {
                &&& final(self).selection() == Some(0usize)
                &&& final(self).scroll_bar_position() == 0
                &&& final(self).rows() == old(self).rows()
                &&& final(self).scroll_bar_length() == old(self).scroll_bar_length()
            },
    {
        if self.crates.len() == 0 {
            return;
        }
        self.selected = Some(0);
        self.scroll_position = 0;
    }

    /// Selects the last row. Does nothing on an empty list.
    pub fn scroll_to_bottom(&mut self)
        requires
            old(self).wf(),
        ensures
            final(self).wf(),
            old(self).rows().len() == 0 ==> *final(self) == *old(self),
            old(self).rows().len() > 0 ==> {
                &&& final(self).selection() == Some((old(self).rows().len() - 1) as usize)
                &&& final(self).scroll_bar_position() == old(self).rows().len() - 1
                &&& final(self).rows() == old(self).rows()
                &&& final(self).scroll_bar_length() == old(self).scroll_bar_length()
            },
    {
        let len = self.crates.len();
        if len == 0 {
            return;
        }
        self.selected = Some(len - 1);
        self.scroll_position = len - 1;
    }
}

/// Which of the two alternating backgrounds a row has.
#[derive(Debug, Clone, Copy, PartialEq, Eq, Hash, Structural)]
pub enum RowShade {
    Even,
    Odd,
}

/// How the result table is drawn for one frame.
pub struct SearchResultsWidget {
    highlight: bool,
}

impl SearchResultsWidget {
    pub closed spec fn highlighted(&self) -> bool {
        self.highlight
    }

    /// A table whose selected row is marked when `highlight` is set.
    pub fn new(highlight: bool) -> (r: SearchResultsWidget)
        ensures
            r.highlighted() == highlight,
    {
        SearchResultsWidget { highlight }
    }

    /// The mark before the selected row: a bullet when highlighting, else blanks.
    pub fn highlight_symbol(&self) -> (r: &'static str)
        ensures
            r@ == if self.highlighted() {
                " \u{2022} "@
            } else {
                "   "@
            },
    {
        if self.highlight {
            " \u{2022} "
        } else {
            "   "
        }
    }

    /// Background of row `i`: rows alternate, starting with `Even`.
    pub fn row_shade(i: usize) -> (r: RowShade)
        ensures
            r == if i % 2 == 0 {
                RowShade::Even
            } else {
                RowShade::Odd
            },
    {
        if i % 2 == 0 {
            RowShade::Even
        } else {
            RowShade::Odd
        }
    }

    /// Height of a row whose description wraps to `lines` lines: a blank
    /// line above the description and one below, at most `u16::MAX`.
    pub fn row_height(lines: usize) -> (r: u16)
        ensures
            r == if lines + 2 <= u16::MAX {
                (lines + 2) as u16
            } else {
                u16::MAX
            },
    {
        if lines <= (u16::MAX - 2) as usize {
            (lines + 2) as u16
        } else {
            u16::MAX
        }
    }
}

} // verus!
