//! The single-line text input that every form is made of.
use vstd::prelude::*;

use crate::event::KeyCode;
use crate::text;

verus! {

/// What an input holds: its text, and the cursor as a position in it.
#[verifier::ext_equal]
pub struct InputModel {
    pub text: Seq<char>,
    pub cursor: int,
}

impl InputModel {
    pub open spec fn empty() -> InputModel {
        InputModel { text: Seq::empty(), cursor: 0 }
    }

    /// A text with the cursor behind it.
    pub open spec fn of(text: Seq<char>) -> InputModel {
        InputModel { text, cursor: text.len() as int }
    }

    pub open spec fn wf(self) -> bool {
        0 <= self.cursor <= self.text.len()
    }

    pub open spec fn insert(self, c: char) -> InputModel {
        InputModel { text: self.text.insert(self.cursor, c), cursor: self.cursor + 1 }
    }

    pub open spec fn backspace(self) -> InputModel {
        if self.cursor > 0 {
            InputModel { text: self.text.remove(self.cursor - 1), cursor: self.cursor - 1 }
        } else {
            self
        }
    }

    pub open spec fn delete(self) -> InputModel {
        if self.cursor < self.text.len() {
            InputModel { text: self.text.remove(self.cursor), cursor: self.cursor }
        } else {
            self
        }
    }

    pub open spec fn left(self) -> InputModel {
        InputModel { text: self.text, cursor: crate::geometry::less(self.cursor, 1) }
    }

    pub open spec fn right(self) -> InputModel {
        InputModel {
            text: self.text,
            cursor: crate::geometry::min_int(self.cursor + 1, self.text.len() as int),
        }
    }

    pub open spec fn home(self) -> InputModel {
        InputModel { text: self.text, cursor: 0 }
    }

    pub open spec fn end_of_line(self) -> InputModel {
        InputModel { text: self.text, cursor: self.text.len() as int }
    }

    /// What a key does to the input that has the focus.
    pub open spec fn edit(self, key: KeyCode) -> InputModel {
        match key {
            KeyCode::Char(c) => self.insert(c),
            KeyCode::Backspace => self.backspace(),
            KeyCode::Delete => self.delete(),
            KeyCode::Left => self.left(),
            KeyCode::Right => self.right(),
            KeyCode::Home => self.home(),
            KeyCode::End => self.end_of_line(),
            _ => self,
        }
    }

    /// The text without white space at either end.
    pub open spec fn trimmed(self) -> Seq<char> {
        text::trimmed(self.text)
    }
}

/// A single-line text input.
pub struct Input {
    pub chars: Vec<char>,
    pub cursor: usize,
}

impl View for Input {
    type V = InputModel;

    /// A cursor behind the text counts as one at its end.
    open spec fn view(&self) -> InputModel {
        InputModel {
            text: self.chars@,
            cursor: crate::geometry::min_int(self.cursor as int, self.chars@.len() as int),
        }
    }
}

impl DeepView for Input {
    type V = InputModel;

    open spec fn deep_view(&self) -> InputModel {
        self@
    }
}

impl Default for Input {
    fn default() -> (r: Input)
        ensures
            r@ == InputModel::empty(),
    {
        Input { chars: Vec::new(), cursor: 0 }
    }
}

impl Input {
    /// An input that holds `s`, with the cursor at the end.
    pub fn new(s: &str) -> (r: Input)
        ensures
            r@ == InputModel::of(s@),
    {
        let chars = text::chars_of(s);
        let cursor: usize = chars.len();
        Input { chars, cursor }
    }

    pub fn value(&self) -> (r: String)
        ensures
            r@ == self@.text,
    {
        text::text_of(&self.chars)
    }

    /// The text without white space at either end.
    pub fn trimmed(&self) -> (r: String)
        ensures
            r@ == self@.trimmed(),
    {
        text::trim_chars(&self.chars)
    }

    pub fn is_empty(&self) -> (r: bool)
        ensures
            r == (self@.text.len() == 0),
    {
        self.chars.len() == 0
    }

    /// The cursor's position in the text.
    pub fn position(&self) -> (r: usize)
        ensures
            r == self@.cursor,
            self@.wf(),
    {
        if self.cursor <= self.chars.len() {
            self.cursor
        } else {
            self.chars.len()
        }
    }

    pub fn insert(&mut self, c: char)
        ensures
            final(self)@ == old(self)@.insert(c),
            final(self)@.wf(),
    {
        let at: usize = self.position();
        self.chars.insert(at, c);
        assert(at < self.chars.len());
        self.cursor = at + 1;
    }

    pub fn backspace(&mut self)
        ensures
            final(self)@ == old(self)@.backspace(),
            final(self)@.wf(),
    {
        let at: usize = self.position();
        if at > 0 {
            self.chars.remove(at - 1);
            self.cursor = at - 1;
        }
    }

    pub fn delete(&mut self)
        ensures
            final(self)@ == old(self)@.delete(),
            final(self)@.wf(),
    {
        let at: usize = self.position();
        if at < self.chars.len() {
            self.chars.remove(at);
            self.cursor = at;
        }
    }

    pub fn left(&mut self)
        ensures
            final(self)@ == old(self)@.left(),
            final(self)@.wf(),
    {
        let at: usize = self.position();
        self.cursor = at.saturating_sub(1);
    }

    pub fn right(&mut self)
        ensures
            final(self)@ == old(self)@.right(),
            final(self)@.wf(),
    {
        let at: usize = self.position();
        if at < self.chars.len() {
            self.cursor = at + 1;
        }
    }

    pub fn home(&mut self)
        ensures
            final(self)@ == old(self)@.home(),
            final(self)@.wf(),
    {
        self.cursor = 0;
    }

    pub fn end_of_line(&mut self)
        ensures
            final(self)@ == old(self)@.end_of_line(),
            final(self)@.wf(),
    {
        self.cursor = self.chars.len();
    }

    /// What a key does to the input that has the focus.
    pub fn edit(&mut self, key: KeyCode)
        ensures
            final(self)@ == old(self)@.edit(key),
    {
        match key {
            KeyCode::Char(c) => self.insert(c),
            KeyCode::Backspace => self.backspace(),
            KeyCode::Delete => self.delete(),
            KeyCode::Left => self.left(),
            KeyCode::Right => self.right(),
            KeyCode::Home => self.home(),
            KeyCode::End => self.end_of_line(),
            _ => {},
        }
    }

    /// The lowercase of the text.
    pub fn lower(&self) -> (r: String)
        ensures
            r@ == text::lowercase(self@.text),
    {
        let v = self.value();
        v.as_str().to_lowercase()
    }
}

// -------------------------------------------------------------------- laws

/// Backspace undoes typing a character.
pub proof fn backspace_undoes_insert(i: InputModel, c: char)
    requires
        i.wf(),
    ensures
        i.insert(c).backspace() == i,
{
    assert(i.text.insert(i.cursor, c).remove(i.cursor) =~= i.text);
}

/// Delete removes what Backspace would have removed from the place to its right.
pub proof fn delete_is_right_then_backspace(i: InputModel)
    requires
        i.wf(),
        i.cursor < i.text.len(),
    ensures
        i.delete() == i.right().backspace(),
{
}

/// No key moves the cursor out of the text.
pub proof fn editing_keeps_cursor_in_text(i: InputModel, key: KeyCode)
    requires
        i.wf(),
    ensures
        i.edit(key).wf(),
{
}

/// Typing a text character by character into an empty input gives that text.
pub open spec fn typed(i: InputModel, s: Seq<char>) -> InputModel
    decreases s.len(),
{
    if s.len() == 0 {
        i
    } else {
        typed(i, s.drop_last()).edit(KeyCode::Char(s.last()))
    }
}

/// Typing a text character by character at the end of an input appends it.
pub proof fn typing_appends(i: InputModel, s: Seq<char>)
    requires
        i.cursor == i.text.len(),
    ensures
        typed(i, s) == InputModel::of(i.text + s),
    decreases s.len(),
{
    if s.len() == 0 {
        assert(i.text + s =~= i.text);
    } else {
        typing_appends(i, s.drop_last());
        assert((i.text + s.drop_last()).insert((i.text + s.drop_last()).len() as int, s.last())
            =~= i.text + s);
    }
}

} // verus!
