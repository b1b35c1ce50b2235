use vstd::prelude::*;

verus! {

/// A single-line editable text buffer with a cursor between characters.
pub struct InputField {
    chars: Vec<char>,
    cursor: usize,
}

impl InputField {
    /// The text held.
    pub closed spec fn text(&self) -> Seq<char> {
        self.chars@
    }

    /// The cursor, as the number of characters before it.
    pub closed spec fn cursor_at(&self) -> nat {
        self.cursor as nat
    }

    pub open spec fn wf(&self) -> bool {
        self.cursor_at() <= self.text().len()
    }

    /// An empty field.
    pub fn new() -> (r: InputField)
        ensures
            r.wf(),
            r.text() == Seq::<char>::empty(),
            r.cursor_at() == 0,
    {
        InputField { chars: Vec::new(), cursor: 0 }
    }

    /// The text held.
    pub fn value(&self) -> (r: &Vec<char>)
        ensures
            r@ == self.text(),
    {
        &self.chars
    }

    /// The cursor position.
    pub fn cursor(&self) -> (r: usize)
        ensures
            r == self.cursor_at(),
    {
        self.cursor
    }

    /// Replaces the text and puts the cursor after it.
    pub fn set_value(&mut self, value: Vec<char>)
        ensures
            final(self).wf(),
            final(self).text() == value@,
            final(self).cursor_at() == value@.len(),
    {
        self.cursor = value.len();
        self.chars = value;
    }

    /// Empties the field.
    pub fn reset(&mut self)
        ensures
            final(self).wf(),
            final(self).text() == Seq::<char>::empty(),
            final(self).cursor_at() == 0,
    {
        self.chars = Vec::new();
        self.cursor = 0;
    }

    /// Inserts `c` before the cursor and moves the cursor past it.
    pub fn insert(&mut self, c: char)
        requires
            old(self).wf(),
            old(self).text().len() < usize::MAX,
        ensures
            final(self).wf(),
            final(self).text() == old(self).text().insert(old(self).cursor_at() as int, c),
            final(self).cursor_at() == old(self).cursor_at() + 1,
    {
        self.chars.insert(self.cursor, c);
        self.cursor = self.cursor + 1;
    }

    /// Deletes the character before the cursor, if there is one.
    pub fn delete_previous(&mut self)
        requires
            old(self).wf(),
        ensures
            final(self).wf(),
            old(self).cursor_at() == 0 ==> *final(self) == *old(self),
            old(self).cursor_at() > 0 ==> {
                &&& final(self).text() == old(self).text().remove(old(self).cursor_at() - 1)
                &&& final(self).cursor_at() == old(self).cursor_at() - 1
            },
    {
        if self.cursor > 0 {
            self.cursor = self.cursor - 1;
            self.chars.remove(self.cursor);
        }
    }

    /// Deletes the character after the cursor, if there is one.
    pub fn delete_next(&mut self)
        requires
            old(self).wf(),
        ensures
            final(self).wf(),
            old(self).cursor_at() == old(self).text().len() ==> *final(self) == *old(self),
            old(self).cursor_at() < old(self).text().len() ==> {
                &&& final(self).text() == old(self).text().remove(old(self).cursor_at() as int)
                &&& final(self).cursor_at() == old(self).cursor_at()
            },
    {
        if self.cursor < self.chars.len() {
            self.chars.remove(self.cursor);
        }
    }

    /// Moves the cursor one character left, if it can.
    pub fn move_left(&mut self)
        requires
            old(self).wf(),
        ensures
            final(self).wf(),
            final(self).text() == old(self).text(),
            final(self).cursor_at() == if old(self).cursor_at() == 0 {
                0
            } else {
                old(self).cursor_at() - 1
            },
    {
        if self.cursor > 0 {
            self.cursor = self.cursor - 1;
        }
    }

    /// Moves the cursor one character right, if it can.
    pub fn move_right(&mut self)
        requires
            old(self).wf(),
        ensures
            final(self).wf(),
            final(self).text() == old(self).text(),
            final(self).cursor_at() == if old(self).cursor_at() == old(self).text().len() {
                old(self).cursor_at()
            } else {
                old(self).cursor_at() + 1
            },
    {
        if self.cursor < self.chars.len() {
            self.cursor = self.cursor + 1;
        }
    }

    /// Moves the cursor before the first character.
    pub fn move_start(&mut self)
        ensures
            final(self).wf(),
            final(self).text() == old(self).text(),
            final(self).cursor_at() == 0,
    {
        self.cursor = 0;
    }

    /// Moves the cursor after the last character.
    pub fn move_end(&mut self)
        ensures
            final(self).wf(),
            final(self).text() == old(self).text(),
            final(self).cursor_at() == old(self).text().len(),
    {
        self.cursor = self.chars.len();
    }
}

} // verus!
