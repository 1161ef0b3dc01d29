//! The console: the line being edited and the history of entered lines,
//! driven by characters typed and keys pressed.

use vstd::prelude::*;
use crate::history::{down_undoes_up, History, HistoryState};
use crate::input::{
    backspace_removes_char_before_cursor, backspace_undoes_insert, delete_keeps_text_before_cursor,
    insert_puts_char_before_cursor, ConsoleInput, LineState,
};
use crate::text::{contains_word, has_word, is_white_space, string_of};

verus! {

/// The keys that the console reacts to; every other key is `Other`.
#[derive(Clone, Copy, Debug)]
pub enum Key {
    Up,
    Down,
    Left,
    Right,
    Other,
}

/// What a `Console` holds: the line being edited and the history.
pub struct ConsoleState {
    pub input: LineState,
    pub hist: HistoryState,
}

impl ConsoleState {
    /// Both cursors are in range: the line's within the line, the history's
    /// within the history.
    pub open spec fn wf(self) -> bool {
        self.input.wf() && self.hist.wf()
    }

    /// A console with an empty line and an empty history.
    pub open spec fn empty() -> ConsoleState {
        ConsoleState { input: LineState::empty(), hist: HistoryState::empty() }
    }

    /// The state after the line is entered. A line that holds a command is
    /// recorded in the history and the line is cleared; a line that holds
    /// nothing but whitespace is left as it is.
    pub open spec fn submit(self, has_command: bool) -> ConsoleState {
        if has_command {
            ConsoleState { input: LineState::empty(), hist: self.hist.add_line(self.input.text) }
        } else {
            self
        }
    }

    /// The state after the character `c` is typed: return enters the line,
    /// backspace and delete remove a character, tab does nothing, and any other
    /// character is inserted at the cursor.
    pub open spec fn type_char(self, c: char) -> ConsoleState {
        if c == '\r' {
            self.submit(has_word(self.input.text))
        } else if c == '\x08' {
            ConsoleState { input: self.input.backspace(), ..self }
        } else if c == '\x7f' {
            ConsoleState { input: self.input.delete(), ..self }
        } else if c == '\t' {
            self
        } else {
            ConsoleState { input: self.input.insert(c), ..self }
        }
    }

    /// Whether typing `c` shows the line again: always, except for a return
    /// on a line with no command on it.
    pub open spec fn echoes_char(self, c: char) -> bool {
        !(c == '\r' && !has_word(self.input.text))
    }

    /// The state after `key` is pressed: up and down walk the history and put
    /// the line found there in the editor, left and right move the cursor.
    pub open spec fn press_key(self, key: Key) -> ConsoleState {
        match key {
            Key::Up => match self.hist.up_line() {
                Some(line) => ConsoleState { input: LineState::with_text(line), hist: self.hist.up() },
                None => ConsoleState { hist: self.hist.up(), ..self },
            },
            Key::Down => ConsoleState {
                input: LineState::with_text(self.hist.down_line()),
                hist: self.hist.down(),
            },
            Key::Left => ConsoleState { input: self.input.cursor_left(), ..self },
            Key::Right => ConsoleState { input: self.input.cursor_right(), ..self },
            Key::Other => self,
        }
    }

    /// Whether pressing `key` shows the line again: for every key the
    /// console reacts to.
    pub open spec fn echoes_key(key: Key) -> bool {
        !(key is Other)
    }
}

/// The console: the line being edited and the history of entered lines.
pub struct Console {
    input: ConsoleInput,
    hist: History,
}

impl View for Console {
    type V = ConsoleState;

    closed spec fn view(&self) -> ConsoleState {
        ConsoleState { input: self.input@, hist: self.hist@ }
    }
}

impl Console {
    /// The line's cursor lies within it and the history's cursor within the history.
    pub open spec fn wf(&self) -> bool {
        self@.wf()
    }

    /// A console with an empty line and an empty history.
    pub fn new() -> (console: Console)
        ensures
            console@ == ConsoleState::empty(),
    {
        Console { input: ConsoleInput::new(), hist: History::new() }
    }

    /// Enters the line being edited. `has_command` tells whether the line
    /// holds a command name, that is a character that is not whitespace.
    /// A line with a command is recorded in the history and cleared, and the
    /// cleared line is returned for display; otherwise nothing changes and
    /// nothing is to be shown.
    pub fn submit(&mut self, has_command: bool) -> (echo: Option<String>)
        ensures
            final(self)@ == old(self)@.submit(has_command),
            final(self).wf(),
            match echo {
                Some(s) => has_command && s@ == final(self)@.input.rendered(),
                None => !has_command,
            },
    {
        if !has_command {
            proof { use_type_invariant(&self.input); use_type_invariant(&self.hist); }
            return None;
        }
        let line = self.input.get_text();
        self.hist.add_line(line);
        self.input.clear();
        proof { use_type_invariant(&self.input); use_type_invariant(&self.hist); }
        Some(self.debug_string())
    }

    /// Handles a typed character.
    ///
    /// Return enters the line, backspace (`'\x08'`) and delete (`'\x7f'`)
    /// remove the character before or after the cursor, tab is ignored, and
    /// any other character is inserted at the cursor. Returns the line to
    /// show afterwards, with `_` at the cursor, or `None` when a line with no
    /// command on it was entered.
    pub fn send_char(&mut self, c: char) -> (res: Result<Option<String>, ()>)
        ensures
            final(self)@ == old(self)@.type_char(c),
            final(self).wf(),
            match res {
                Ok(Some(s)) => old(self)@.echoes_char(c) && s@ == final(self)@.input.rendered(),
                Ok(None) => !old(self)@.echoes_char(c),
                Err(()) => false,
            },
    {
        match c {
            '\r' => {
                let text = self.input.get_text();
                let has_command = contains_word(&text);
                return Ok(self.submit(has_command));
            },
            // backspace
            '\x08' => self.input.backspace(),
            // delete
            '\x7f' => self.input.delete(),
            '\t' => {},
            c => self.input.insert(c),
        }
        proof { use_type_invariant(&self.input); use_type_invariant(&self.hist); }
        Ok(Some(self.debug_string()))
    }

    /// Handles a pressed key.
    ///
    /// Up and down walk back and forth through the history and put the line
    /// found there in the editor; left and right move the cursor. Returns the
    /// line to show afterwards, with `_` at the cursor, or `None` for a key
    /// the console ignores.
    pub fn send_key(&mut self, key: Key) -> (echo: Option<String>)
        ensures
            final(self)@ == old(self)@.press_key(key),
            final(self).wf(),
            match echo {
                Some(s) => ConsoleState::echoes_key(key) && s@ == final(self)@.input.rendered(),
                None => !ConsoleState::echoes_key(key),
            },
    {
        match key {
            Key::Up => {
                if let Some(line) = self.hist.line_up() {
                    self.input.set_text(&line);
                }
            },
            Key::Down => {
                if let Some(line) = self.hist.line_down() {
                    self.input.set_text(&line);
                }
            },
            Key::Right => self.input.cursor_right(),
            Key::Left => self.input.cursor_left(),
            Key::Other => {
                proof { use_type_invariant(&self.input); use_type_invariant(&self.hist); }
                return None;
            },
        }
        proof { use_type_invariant(&self.input); use_type_invariant(&self.hist); }
        Some(self.debug_string())
    }

    /// The line being edited, as a string.
    pub fn get_string(&self) -> (s: String)
        ensures
            s@ == self@.input.text,
    {
        let text = self.input.get_text();
        string_of(&text)
    }

    /// The line being edited with `_` at the cursor.
    pub fn debug_string(&self) -> (s: String)
        ensures
            s@ == self@.input.rendered(),
    {
        self.input.debug_string()
    }
}

/// Typing a character or pressing a key keeps both cursors in range.
pub proof fn console_steps_keep_wf(s: ConsoleState, c: char, key: Key)
    requires
        s.wf(),
    ensures
        ConsoleState::empty().wf(),
        s.type_char(c).wf(),
        s.press_key(key).wf(),
{
}

/// A line with a command on it, once entered, is cleared from the editor
/// and recorded in the history, and pressing up brings it back with the
/// cursor at its end.
pub proof fn entered_line_is_recalled(s: ConsoleState)
    requires
        s.wf(),
        has_word(s.input.text),
    ensures
        s.type_char('\r').input == LineState::empty(),
        s.type_char('\r').hist.lines[0] == s.input.text,
        s.type_char('\r').press_key(Key::Up).input == LineState::with_text(s.input.text),
{
}

/// Entering a line that holds nothing but whitespace changes nothing.
pub proof fn blank_line_is_not_entered(s: ConsoleState)
    requires
        !has_word(s.input.text),
    ensures
        s.type_char('\r') == s,
        !s.echoes_char('\r'),
{
}

/// Backspace undoes typing an ordinary character.
pub proof fn backspace_undoes_typing(s: ConsoleState, c: char)
    requires
        s.wf(),
        c != '\r',
        c != '\x08',
        c != '\x7f',
        c != '\t',
    ensures
        s.type_char(c).type_char('\x08') == s,
{
    backspace_undoes_insert(s.input, c);
}

/// Pressing down after an up that found a line takes the history back to
/// where it was.
pub proof fn down_undoes_up_key(s: ConsoleState)
    requires
        s.wf(),
        s.hist.up_line() is Some,
    ensures
        s.press_key(Key::Up).press_key(Key::Down).hist == s.hist,
{
    down_undoes_up(s.hist);
}

/// Tab and the keys the console ignores change nothing; tab still shows the
/// line, an ignored key shows nothing.
pub proof fn ignored_input_changes_nothing(s: ConsoleState)
    ensures
        s.type_char('\t') == s,
        s.press_key(Key::Other) == s,
        s.echoes_char('\t'),
        !ConsoleState::echoes_key(Key::Other),
{
}

/// A new console has an empty line with the cursor at the start, and an
/// empty history.
pub proof fn new_console_is_empty()
    ensures
        ConsoleState::empty().input.text.len() == 0,
        ConsoleState::empty().input.cursor == 0,
        ConsoleState::empty().hist.lines.len() == 0,
        ConsoleState::empty().hist.cursor == 0,
{
}

/// Entering the line with a command records the whole line in front of the
/// history, puts the history cursor at the start and clears the editor;
/// without a command nothing changes.
pub proof fn submit_records_line(s: ConsoleState)
    ensures
        s.submit(true).input.text.len() == 0,
        s.submit(true).input.cursor == 0,
        s.submit(true).hist.lines == seq![s.input.text] + s.hist.lines,
        s.submit(true).hist.cursor == 0,
        s.submit(false) == s,
{
}

/// Typing an ordinary character inserts it just before the cursor and moves
/// the cursor past it; the history is untouched and the line is shown.
pub proof fn typing_inserts_before_cursor(s: ConsoleState, c: char)
    requires
        s.wf(),
        c != '\r',
        c != '\x08',
        c != '\x7f',
        c != '\t',
    ensures
        s.type_char(c).input.text == s.input.text.take(s.input.cursor as int).push(c)
            + s.input.text.skip(s.input.cursor as int),
        s.type_char(c).input.cursor == s.input.cursor + 1,
        s.type_char(c).hist == s.hist,
        s.echoes_char(c),
{
    insert_puts_char_before_cursor(s.input, c);
}

/// Backspace removes the character before the cursor and moves the cursor
/// back over it; at the start of the line it changes nothing.
pub proof fn backspace_key_removes_char_before_cursor(s: ConsoleState)
    requires
        s.wf(),
    ensures
        s.input.cursor > 0 ==> s.type_char('\x08').input.text == s.input.text.take(
            s.input.cursor - 1,
        ) + s.input.text.skip(s.input.cursor as int),
        s.input.cursor > 0 ==> s.type_char('\x08').input.cursor == s.input.cursor - 1,
        s.input.cursor == 0 ==> s.type_char('\x08') == s,
        s.type_char('\x08').hist == s.hist,
        s.echoes_char('\x08'),
{
    backspace_removes_char_before_cursor(s.input);
}

/// Delete removes the character under the cursor and leaves the cursor and
/// the text before it in place; at the end of the line it changes nothing.
pub proof fn delete_key_removes_char_under_cursor(s: ConsoleState)
    requires
        s.wf(),
    ensures
        s.type_char('\x7f').input.cursor == s.input.cursor,
        s.type_char('\x7f').input.text.take(s.input.cursor as int) == s.input.text.take(
            s.input.cursor as int,
        ),
        s.input.cursor < s.input.text.len() ==> s.type_char('\x7f').input.text == s.input.text.take(
            s.input.cursor as int,
        ) + s.input.text.skip(s.input.cursor + 1int),
        s.input.cursor == s.input.text.len() ==> s.type_char('\x7f') == s,
        s.type_char('\x7f').hist == s.hist,
        s.echoes_char('\x7f'),
{
    delete_keeps_text_before_cursor(s.input);
    if s.input.cursor < s.input.text.len() {
        let k = s.input.cursor as int;
        assert(s.input.text.remove(k) =~= s.input.text.take(k) + s.input.text.skip(k + 1));
    }
}

/// Return on a line with some non-whitespace character records the whole
/// line in front of the history, puts the history cursor at the start and
/// clears the editor; on a line of whitespace it changes nothing and shows
/// nothing.
pub proof fn return_key_enters_line(s: ConsoleState)
    requires
        s.wf(),
    ensures
        (exists|i: int| 0 <= i < s.input.text.len() && !is_white_space(#[trigger] s.input.text[i]))
            ==> {
            &&& s.type_char('\r').input.text.len() == 0
            &&& s.type_char('\r').input.cursor == 0
            &&& s.type_char('\r').hist.lines == seq![s.input.text] + s.hist.lines
            &&& s.type_char('\r').hist.cursor == 0
            &&& s.echoes_char('\r')
        },
        (forall|i: int| 0 <= i < s.input.text.len() ==> is_white_space(#[trigger] s.input.text[i]))
            ==> s.type_char('\r') == s && !s.echoes_char('\r'),
{
}

/// The right and left keys move the cursor by exactly one character within
/// the line, and change neither the text nor the history; at the ends of the
/// line they change nothing. Both show the line.
pub proof fn arrow_keys_move_cursor_by_one(s: ConsoleState)
    requires
        s.wf(),
    ensures
        s.input.cursor < s.input.text.len() ==> s.press_key(Key::Right) == (ConsoleState {
            input: LineState { text: s.input.text, cursor: s.input.cursor + 1 },
            hist: s.hist,
        }),
        s.input.cursor == s.input.text.len() ==> s.press_key(Key::Right) == s,
        s.input.cursor > 0 ==> s.press_key(Key::Left) == (ConsoleState {
            input: LineState { text: s.input.text, cursor: (s.input.cursor - 1) as nat },
            hist: s.hist,
        }),
        s.input.cursor == 0 ==> s.press_key(Key::Left) == s,
        ConsoleState::echoes_key(Key::Right),
        ConsoleState::echoes_key(Key::Left),
{
}

/// The up key puts the next older line of the history in the editor, with
/// the cursor at its end, and moves the history cursor one line back; past
/// the oldest line it changes nothing.
pub proof fn up_key_recalls_older_line(s: ConsoleState)
    requires
        s.wf(),
    ensures
        s.hist.cursor < s.hist.lines.len() ==> s.press_key(Key::Up) == (ConsoleState {
            input: LineState {
                text: s.hist.lines[s.hist.cursor as int],
                cursor: s.hist.lines[s.hist.cursor as int].len(),
            },
            hist: HistoryState { lines: s.hist.lines, cursor: s.hist.cursor + 1 },
        }),
        s.hist.cursor == s.hist.lines.len() ==> s.press_key(Key::Up) == s,
        ConsoleState::echoes_key(Key::Up),
{
}

/// The down key moves the history cursor one line forward, staying at the
/// start, and puts in the editor the line the cursor then stands after, or
/// the empty line at the start, with the cursor at its end.
pub proof fn down_key_recalls_newer_line(s: ConsoleState)
    requires
        s.wf(),
    ensures
        s.press_key(Key::Down).hist.lines == s.hist.lines,
        s.hist.cursor > 0 ==> s.press_key(Key::Down).hist.cursor == s.hist.cursor - 1,
        s.hist.cursor == 0 ==> s.press_key(Key::Down).hist.cursor == 0,
        s.hist.cursor > 1 ==> s.press_key(Key::Down).input == (LineState {
            text: s.hist.lines[s.hist.cursor - 2],
            cursor: s.hist.lines[s.hist.cursor - 2].len(),
        }),
        s.hist.cursor <= 1 ==> s.press_key(Key::Down).input.text.len() == 0,
        s.hist.cursor <= 1 ==> s.press_key(Key::Down).input.cursor == 0,
        ConsoleState::echoes_key(Key::Down),
{
}

} // verus!
