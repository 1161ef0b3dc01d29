//! The lines entered at the console, most recent first, and a cursor for
//! walking back through them.

use vstd::prelude::*;

verus! {

/// What a `History` holds: the entered lines, most recent first, and how
/// many of them `line_up` has stepped back over.
pub struct HistoryState {
    pub lines: Seq<Seq<char>>,
    pub cursor: nat,
}

impl HistoryState {
    /// The cursor never steps past the oldest line.
    pub open spec fn wf(self) -> bool {
        self.cursor <= self.lines.len()
    }

    /// No lines, cursor at the start.
    pub open spec fn empty() -> HistoryState {
        HistoryState { lines: Seq::empty(), cursor: 0 }
    }

    /// `line` recorded as the most recent line, and the cursor back at the start.
    pub open spec fn add_line(self, line: Seq<char>) -> HistoryState {
        HistoryState { lines: seq![line] + self.lines, cursor: 0 }
    }

    /// Whether `line_up` has an older line to give.
    pub open spec fn can_go_up(self) -> bool {
        self.cursor < self.lines.len()
    }

    /// The state after `line_up`: one line further back, if there is one.
    pub open spec fn up(self) -> HistoryState {
        if self.can_go_up() {
            HistoryState { cursor: self.cursor + 1, ..self }
        } else {
            self
        }
    }

    /// What `line_up` gives: the next older line, if there is one.
    pub open spec fn up_line(self) -> Option<Seq<char>> {
        if self.can_go_up() {
            Some(self.lines[self.cursor as int])
        } else {
            None
        }
    }

    /// The state after `line_down`: one line forward, unless already at the start.
    pub open spec fn down(self) -> HistoryState {
        if self.cursor > 0 {
            HistoryState { cursor: (self.cursor - 1) as nat, ..self }
        } else {
            self
        }
    }

    /// What `line_down` gives: the line the cursor now stands after, or the
    /// empty line once the cursor is back at the start.
    pub open spec fn down_line(self) -> Seq<char> {
        let c = self.down().cursor;
        if c > 0 {
            self.lines[c - 1]
        } else {
            Seq::empty()
        }
    }
}

/// The lines entered at the console, most recent first.
pub struct History {
    lines: std::collections::VecDeque<Vec<char>>,
    curs: usize,
}

impl View for History {
    type V = HistoryState;

    closed spec fn view(&self) -> HistoryState {
        HistoryState { lines: self.lines@.map_values(|l: Vec<char>| l@), cursor: self.curs as nat }
    }
}

impl History {
    /// The cursor never steps past the oldest line.
    #[verifier::type_invariant]
    pub open spec fn wf(&self) -> bool {
        self@.wf()
    }

    /// An empty history.
    pub fn new() -> (hist: History)
        ensures
            hist@ == HistoryState::empty(),
    {
        let hist = History { lines: std::collections::VecDeque::new(), curs: 0 };
        assert(hist@.lines =~= Seq::<Seq<char>>::empty());
        hist
    }

    /// Records `line` as the most recent line and moves the cursor back to the start.
    pub fn add_line(&mut self, line: Vec<char>)
        ensures
            final(self)@ == old(self)@.add_line(line@),
    {
        self.curs = 0;
        let mut lines = std::collections::VecDeque::new();
        std::mem::swap(&mut lines, &mut self.lines);
        lines.push_front(line);
        *self = History { lines, curs: 0 };
        assert(self@.lines =~= seq![line@] + old(self)@.lines);
    }

    /// Steps one line back: returns the next older line, or `None` when the
    /// cursor already stands after the oldest line.
    pub fn line_up(&mut self) -> (line: Option<Vec<char>>)
        ensures
            final(self)@ == old(self)@.up(),
            match line {
                Some(l) => old(self)@.up_line() == Some(l@),
                None => old(self)@.up_line() is None,
            },
    {
        proof { use_type_invariant(&*self); }
        if self.lines.len() == 0 || self.curs >= self.lines.len() {
            None
        } else {
            self.curs += 1;
            let l = self.lines[self.curs - 1].clone();
            assert(l@ =~= self.lines@[self.curs - 1]@);
            Some(l)
        }
    }

    /// Steps one line forward: returns the line the cursor now stands after,
    /// or the empty line once the cursor is back at the start.
    pub fn line_down(&mut self) -> (line: Option<Vec<char>>)
        ensures
            final(self)@ == old(self)@.down(),
            match line {
                Some(l) => l@ == old(self)@.down_line(),
                None => false,
            },
    {
        proof { use_type_invariant(&*self); }
        if self.curs > 0 {
            self.curs -= 1;
        }

        if self.curs > 0 {
            let l = self.lines[self.curs - 1].clone();
            assert(l@ =~= self.lines@[self.curs - 1]@);
            Some(l)
        } else {
            let l: Vec<char> = Vec::new();
            assert(l@ =~= Seq::<char>::empty());
            Some(l)
        }
    }
}

/// Every step keeps the cursor within the history.
pub proof fn steps_keep_cursor_in_history(hist: HistoryState, line: Seq<char>)
    requires
        hist.wf(),
    ensures
        HistoryState::empty().wf(),
        hist.add_line(line).wf(),
        hist.up().wf(),
        hist.down().wf(),
{
}

/// The line just added is the first one that `line_up` gives back.
pub proof fn up_recalls_latest_line(hist: HistoryState, line: Seq<char>)
    ensures
        hist.add_line(line).up_line() == Some(line),
        hist.add_line(line).up().cursor == 1,
{
}

/// Once the cursor stands after the oldest line, `line_up` gives nothing and
/// changes nothing.
pub proof fn up_stops_at_oldest_line(hist: HistoryState)
    requires
        hist.cursor >= hist.lines.len(),
    ensures
        hist.up_line() is None,
        hist.up() == hist,
{
}

/// `line_down` undoes a `line_up` that gave a line: the cursor is back where
/// it was, and the line given is the one the cursor stands after again, or
/// the empty line at the start.
pub proof fn down_undoes_up(hist: HistoryState)
    requires
        hist.wf(),
        hist.up_line() is Some,
    ensures
        hist.up().down() == hist,
        hist.up().down_line() == if hist.cursor > 0 {
            hist.lines[hist.cursor - 1]
        } else {
            Seq::<char>::empty()
        },
{
}

/// `line_up` walks back through the lines from the most recent: after `k`
/// steps from the start, the next one gives the `k`-th most recent line.
pub proof fn up_walks_back_in_order(hist: HistoryState, k: nat)
    requires
        hist.cursor == 0,
        k < hist.lines.len(),
    ensures
        up_n(hist, k).lines == hist.lines,
        up_n(hist, k).cursor == k,
        up_n(hist, k).up_line() == Some(hist.lines[k as int]),
    decreases k,
{
    if k > 0 {
        up_walks_back_in_order(hist, (k - 1) as nat);
    }
}

/// The history after `n` calls of `line_up`.
pub open spec fn up_n(hist: HistoryState, n: nat) -> HistoryState
    decreases n,
{
    if n == 0 {
        hist
    } else {
        up_n(hist, (n - 1) as nat).up()
    }
}

/// A new history has no lines and its cursor at the start.
pub proof fn new_history_is_empty()
    ensures
        HistoryState::empty().lines.len() == 0,
        HistoryState::empty().cursor == 0,
{
}

/// Adding a line puts it in front of all the earlier lines, which all stay,
/// in order, whatever the cursor was; the cursor goes back to the start.
pub proof fn add_line_keeps_earlier_lines(hist: HistoryState, line: Seq<char>)
    ensures
        hist.add_line(line).lines == seq![line] + hist.lines,
        hist.add_line(line).lines.len() == hist.lines.len() + 1,
        hist.add_line(line).lines[0] == line,
        forall|i: int|
            0 <= i < hist.lines.len() ==> #[trigger] hist.add_line(line).lines[i + 1] == hist.lines[i],
        hist.add_line(line).cursor == 0,
{
}

/// `line_up` and `line_down` never change the lines; `line_up` moves the
/// cursor one line back while there is an older line, and `line_down` moves
/// it one line forward, staying put at the start.
pub proof fn steps_move_cursor_by_one(hist: HistoryState)
    ensures
        hist.up().lines == hist.lines,
        hist.down().lines == hist.lines,
        hist.cursor < hist.lines.len() ==> hist.up().cursor == hist.cursor + 1,
        hist.cursor < hist.lines.len() ==> hist.up_line() == Some(hist.lines[hist.cursor as int]),
        hist.cursor > 0 ==> hist.down().cursor == hist.cursor - 1,
        hist.cursor == 0 ==> hist.down() == hist,
        hist.cursor == 0 ==> hist.down().up_line() == hist.up_line(),
{
}

/// What `line_down` gives: the line two places back from the cursor, that is
/// the one after which the cursor now stands, or the empty line once the
/// cursor is at the start.
pub proof fn down_gives_line_before_cursor(hist: HistoryState)
    ensures
        hist.cursor > 1 ==> hist.down_line() == hist.lines[hist.cursor - 2],
        hist.cursor <= 1 ==> hist.down_line() == Seq::<char>::empty(),
{
}

} // verus!
