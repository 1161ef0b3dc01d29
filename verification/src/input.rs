//! The line of text being edited at the console prompt.

use vstd::prelude::*;
use crate::text::{cursor_line, string_with_cursor};

verus! {

/// What a `ConsoleInput` holds: the characters of the line and the position
/// of the cursor, counted in characters from the start of the line.
pub struct LineState {
    pub text: Seq<char>,
    pub cursor: nat,
}

impl LineState {
    /// The cursor lies within the line or just after its end.
    pub open spec fn wf(self) -> bool {
        self.cursor <= self.text.len()
    }

    /// The empty line, cursor at the start.
    pub open spec fn empty() -> LineState {
        LineState { text: Seq::empty(), cursor: 0 }
    }

    /// The line `text`, cursor at its end.
    pub open spec fn with_text(text: Seq<char>) -> LineState {
        LineState { text, cursor: text.len() }
    }

    /// The cursor one character to the right, unless it is at the end.
    pub open spec fn cursor_right(self) -> LineState {
        if self.cursor < self.text.len() {
            LineState { cursor: self.cursor + 1, ..self }
        } else {
            self
        }
    }

    /// The cursor one character to the left, unless it is at the start.
    pub open spec fn cursor_left(self) -> LineState {
        if self.cursor > 0 {
            LineState { cursor: (self.cursor - 1) as nat, ..self }
        } else {
            self
        }
    }

    /// `c` inserted at the cursor, and the cursor moved past it.
    pub open spec fn insert(self, c: char) -> LineState {
        LineState { text: self.text.insert(self.cursor as int, c), cursor: self.cursor }.cursor_right()
    }

    /// The character after the cursor removed, if there is one.
    pub open spec fn delete(self) -> LineState {
        if self.cursor < self.text.len() {
            LineState { text: self.text.remove(self.cursor as int), ..self }
        } else {
            self
        }
    }

    /// The character before the cursor removed, if there is one, and the
    /// cursor moved back over it.
    pub open spec fn backspace(self) -> LineState {
        if self.cursor > 0 {
            LineState { text: self.text.remove(self.cursor - 1), cursor: (self.cursor - 1) as nat }
        } else {
            self
        }
    }

    /// The line shown with an underscore at the cursor.
    pub open spec fn rendered(self) -> Seq<char> {
        cursor_line(self.text.take(self.cursor as int), self.text.skip(self.cursor as int))
    }
}

/// The line of text currently being edited in the console.
pub struct ConsoleInput {
    text: Vec<char>,
    curs: usize,
}

impl View for ConsoleInput {
    type V = LineState;

    closed spec fn view(&self) -> LineState {
        LineState { text: self.text@, cursor: self.curs as nat }
    }
}

impl ConsoleInput {
    /// The cursor lies within the line or just after its end.
    #[verifier::type_invariant]
    pub open spec fn wf(&self) -> bool {
        self@.wf()
    }

    /// Hands over the line and the cursor, leaving an empty line behind.
    fn take_parts(&mut self) -> (parts: (Vec<char>, usize))
        ensures
            parts.0@ == old(self)@.text,
            parts.1 == old(self)@.cursor,
            parts.1 <= parts.0@.len(),
    {
        proof { use_type_invariant(&*self); }
        let curs = self.curs;
        self.curs = 0;
        let mut text = Vec::new();
        std::mem::swap(&mut text, &mut self.text);
        (text, curs)
    }

    /// Constructs a new `ConsoleInput`.
    ///
    /// Initializes the text content to be empty and places the cursor at position 0.
    pub fn new() -> (input: ConsoleInput)
        ensures
            input@ == LineState::empty(),
    {
        ConsoleInput { text: Vec::new(), curs: 0 }
    }

    /// Returns the current content of the `ConsoleInput`.
    pub fn get_text(&self) -> (text: Vec<char>)
        ensures
            text@ == self@.text,
    {
        let text = self.text.clone();
        assert(text@ =~= self.text@);
        text
    }

    /// Sets the content of the `ConsoleInput` to `text`.
    ///
    /// This also moves the cursor to the end of the line.
    pub fn set_text(&mut self, text: &Vec<char>)
        ensures
            final(self)@ == LineState::with_text(text@),
    {
        let text = text.clone();
        let curs = text.len();
        *self = ConsoleInput { text, curs };
        assert(self.text@ =~= text@);
    }

    /// Inserts the specified character at the position of the cursor.
    ///
    /// The cursor is moved one character to the right.
    pub fn insert(&mut self, c: char)
        ensures
            final(self)@ == old(self)@.insert(c),
    {
        let (mut text, curs) = self.take_parts();
        text.insert(curs, c);
        *self = ConsoleInput { text, curs };
        self.cursor_right();
    }

    /// Moves the cursor to the right.
    ///
    /// If the cursor is at the end of the current text, no change is made.
    pub fn cursor_right(&mut self)
        ensures
            final(self)@ == old(self)@.cursor_right(),
    {
        proof { use_type_invariant(&*self); }
        if self.curs < self.text.len() {
            self.curs += 1;
        }
    }

    /// Moves the cursor to the left.
    ///
    /// If the cursor is at the beginning of the current text, no change is made.
    pub fn cursor_left(&mut self)
        ensures
            final(self)@ == old(self)@.cursor_left(),
    {
        proof { use_type_invariant(&*self); }
        if self.curs > 0 {
            self.curs -= 1;
        }
    }

    /// Deletes the character to the right of the cursor.
    ///
    /// If the cursor is at the end of the current text, no character is deleted.
    pub fn delete(&mut self)
        ensures
            final(self)@ == old(self)@.delete(),
    {
        let (mut text, curs) = self.take_parts();
        if curs < text.len() {
            text.remove(curs);
        }
        *self = ConsoleInput { text, curs };
    }

    /// Deletes the character to the left of the cursor.
    ///
    /// If the cursor is at the beginning of the current text, no character is deleted.
    pub fn backspace(&mut self)
        ensures
            final(self)@ == old(self)@.backspace(),
    {
        let (mut text, mut curs) = self.take_parts();
        if curs > 0 {
            text.remove(curs - 1);
            curs -= 1;
        }
        *self = ConsoleInput { text, curs };
    }

    /// Clears the contents of the `ConsoleInput`.
    ///
    /// Also moves the cursor to position 0.
    pub fn clear(&mut self)
        ensures
            final(self)@ == LineState::empty(),
    {
        let (mut text, _) = self.take_parts();
        text.clear();
        *self = ConsoleInput { text, curs: 0 };
    }

    /// The line with an underscore marking the cursor: the text before the
    /// cursor, `_`, then the text from the cursor on.
    pub fn debug_string(&self) -> (s: String)
        ensures
            s@ == self@.rendered(),
    {
        proof { use_type_invariant(self); }
        string_with_cursor(&self.text, self.curs)
    }
}

/// Every edit keeps the cursor within the line.
pub proof fn edits_keep_cursor_in_line(line: LineState, c: char, text: Seq<char>)
    requires
        line.wf(),
    ensures
        LineState::empty().wf(),
        LineState::with_text(text).wf(),
        line.insert(c).wf(),
        line.cursor_left().wf(),
        line.cursor_right().wf(),
        line.delete().wf(),
        line.backspace().wf(),
{
}

/// Typing a character puts it just before the cursor: the characters before
/// the cursor keep their places, `c` follows them, then the rest of the line.
pub proof fn insert_puts_char_before_cursor(line: LineState, c: char)
    requires
        line.wf(),
    ensures
        line.insert(c).text == line.text.take(line.cursor as int).push(c) + line.text.skip(
            line.cursor as int,
        ),
        line.insert(c).rendered() == cursor_line(
            line.text.take(line.cursor as int).push(c),
            line.text.skip(line.cursor as int),
        ),
{
    let k = line.cursor as int;
    let t = line.text.insert(k, c);
    assert(t =~= line.text.take(k).push(c) + line.text.skip(k));
    assert(t.take(k + 1) =~= line.text.take(k).push(c));
    assert(t.skip(k + 1) =~= line.text.skip(k));
}

/// Backspace undoes typing a character: the line and the cursor are as they
/// were before.
pub proof fn backspace_undoes_insert(line: LineState, c: char)
    requires
        line.wf(),
    ensures
        line.insert(c).backspace() == line,
{
    assert(line.text.insert(line.cursor as int, c).remove(line.cursor as int) =~= line.text);
}

/// Moving the cursor left and then right brings it back, unless it started
/// at the beginning of the line; likewise right then left, unless it started
/// at the end.
pub proof fn cursor_moves_undo_each_other(line: LineState)
    requires
        line.wf(),
    ensures
        line.cursor > 0 ==> line.cursor_left().cursor_right() == line,
        line.cursor < line.text.len() ==> line.cursor_right().cursor_left() == line,
{
}

/// Delete removes the character under the cursor and leaves the cursor and
/// the characters before it in place; at the end of the line it does nothing.
pub proof fn delete_keeps_text_before_cursor(line: LineState)
    requires
        line.wf(),
    ensures
        line.delete().cursor == line.cursor,
        line.delete().text.take(line.cursor as int) == line.text.take(line.cursor as int),
        line.cursor < line.text.len() ==> line.delete().text.skip(line.cursor as int)
            == line.text.skip(line.cursor + 1int),
        line.cursor == line.text.len() ==> line.delete() == line,
{
    if line.cursor < line.text.len() {
        let k = line.cursor as int;
        assert(line.text.remove(k).take(k) =~= line.text.take(k));
        assert(line.text.remove(k).skip(k) =~= line.text.skip(k + 1));
    }
}

/// Setting a line puts the cursor at its end; the empty line has its cursor
/// at the start.
pub proof fn new_lines_place_cursor(text: Seq<char>)
    ensures
        LineState::with_text(text).text == text,
        LineState::with_text(text).cursor == text.len(),
        LineState::empty().text.len() == 0,
        LineState::empty().cursor == 0,
{
}

/// The rendered line is the text with one `_` slipped in at the cursor: the
/// characters before the cursor keep their places, `_` stands at the
/// cursor, and the characters after it are shifted one place on.
pub proof fn rendered_marks_cursor(line: LineState)
    requires
        line.wf(),
    ensures
        line.rendered().len() == line.text.len() + 1,
        line.rendered()[line.cursor as int] == '_',
        forall|i: int| 0 <= i < line.cursor ==> #[trigger] line.rendered()[i] == line.text[i],
        forall|i: int|
            line.cursor < i <= line.text.len() ==> #[trigger] line.rendered()[i] == line.text[i - 1],
{
}

/// Typing a character moves the cursor one place on, past the new character.
pub proof fn insert_advances_cursor(line: LineState, c: char)
    requires
        line.wf(),
    ensures
        line.insert(c).cursor == line.cursor + 1,
        line.insert(c).text.len() == line.text.len() + 1,
        line.insert(c).text[line.cursor as int] == c,
{
}

/// The cursor keys move the cursor by exactly one character and leave the
/// text alone; at the ends of the line they do nothing.
pub proof fn cursor_keys_move_by_one(line: LineState)
    requires
        line.wf(),
    ensures
        line.cursor_right().text == line.text,
        line.cursor_left().text == line.text,
        line.cursor < line.text.len() ==> line.cursor_right().cursor == line.cursor + 1,
        line.cursor == line.text.len() ==> line.cursor_right() == line,
        line.cursor > 0 ==> line.cursor_left().cursor == line.cursor - 1,
        line.cursor == 0 ==> line.cursor_left() == line,
{
}

/// Backspace removes the character just before the cursor and moves the
/// cursor back over it; at the start of the line it does nothing.
pub proof fn backspace_removes_char_before_cursor(line: LineState)
    requires
        line.wf(),
    ensures
        line.cursor > 0 ==> line.backspace().text == line.text.take(line.cursor - 1) + line.text.skip(
            line.cursor as int,
        ),
        line.cursor > 0 ==> line.backspace().cursor == line.cursor - 1,
        line.cursor == 0 ==> line.backspace() == line,
{
    if line.cursor > 0 {
        let k = line.cursor as int;
        assert(line.text.remove(k - 1) =~= line.text.take(k - 1) + line.text.skip(k));
    }
}

} // verus!
