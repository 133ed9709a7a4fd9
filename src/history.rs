use vstd::prelude::*;
use crate::editor::{edit, readch};
use crate::key::Key;
use crate::text::{chars_of, string_of};

verus! {

/// The stored history seen as lines of characters, oldest first.
pub open spec fn entries(h: Seq<String>) -> Seq<Seq<char>> {
    h.map_values(|s: String| s@)
}

/// The history after a line is submitted: an empty line leaves it as it was,
/// any other is appended as the newest entry.
pub open spec fn submitted(h: Seq<Seq<char>>, line: Seq<char>) -> Seq<Seq<char>> {
    if line.len() == 0 {
        h
    } else {
        h.push(line)
    }
}

/// The abstract state of a read with history recall.
pub ghost struct NavState {
    /// The line that was being written before any recall.
    pub line: Seq<char>,
    /// Working copies of recalled entries: `shadows[d]` is the copy of the
    /// entry at distance `d` from the newest one.
    pub shadows: Seq<Seq<char>>,
    /// The recalled entry's index; `len` means the fresh line.
    pub hpos: nat,
    /// The cursor in the active buffer.
    pub pos: nat,
    /// The number of stored entries when the read began.
    pub len: nat,
}

impl NavState {
    /// Whether the fresh line is the active buffer.
    pub open spec fn is_fresh(self) -> bool {
        self.hpos == self.len
    }

    /// Distance of the recalled entry from the newest one.
    pub open spec fn distance(self) -> int {
        self.len - 1 - self.hpos
    }

    /// The buffer that keys edit: the fresh line, or the working copy of the
    /// recalled entry.
    pub open spec fn active(self) -> Seq<char> {
        if self.is_fresh() {
            self.line
        } else {
            self.shadows[self.distance()]
        }
    }

    /// The recalled index lies within the history, each entry visited has
    /// its working copy, and the cursor lies within the active buffer.
    pub open spec fn wf(self) -> bool {
        &&& self.hpos <= self.len
        &&& self.shadows.len() <= self.len
        &&& !self.is_fresh() ==> self.distance() < self.shadows.len()
        &&& self.pos <= self.active().len()
    }

    /// The state once entry `k` (or the fresh line, for `k == len`) is made
    /// active, with the cursor at its end. The first visit to an entry copies
    /// it from `h`; later visits find the copy as it was left.
    pub open spec fn recall(self, h: Seq<Seq<char>>, k: nat) -> NavState {
        let d = self.len - 1 - k;
        if k == self.len {
            NavState { hpos: k, pos: self.line.len(), ..self }
        } else if d < self.shadows.len() {
            NavState { hpos: k, pos: self.shadows[d].len(), ..self }
        } else {
            NavState { shadows: self.shadows.push(h[k as int]), hpos: k, pos: h[k as int].len(), ..self }
        }
    }

    /// The state with the active buffer replaced by `b` and the cursor at `p`.
    pub open spec fn with_active(self, b: Seq<char>, p: int) -> NavState {
        if self.is_fresh() {
            NavState { line: b, pos: p as nat, ..self }
        } else {
            NavState { shadows: self.shadows.update(self.distance(), b), pos: p as nat, ..self }
        }
    }

    /// The state after `key`, with `h` the stored history.
    pub open spec fn after(self, h: Seq<Seq<char>>, key: Key) -> NavState {
        match key {
            Key::ArrowUp => self.recall(h, if self.hpos > 0 { (self.hpos - 1) as nat } else { 0 }),
            Key::ArrowDown => if self.hpos < self.len {
                self.recall(h, self.hpos + 1)
            } else {
                self
            },
            Key::Enter => self,
            _ => {
                let (b, p) = edit(self.active(), self.pos as int, key);
                self.with_active(b, p)
            },
        }
    }
}

/// The state in which every read starts: an empty fresh line over `len`
/// stored entries.
pub open spec fn start(len: nat) -> NavState {
    NavState { line: Seq::empty(), shadows: Seq::empty(), hpos: len, pos: 0, len }
}

/// From the start of a read over at least two stored entries, two presses of
/// Up make the second newest entry active, with the cursor at its end.
pub proof fn lemma_up_twice(h: Seq<Seq<char>>)
    requires
        h.len() >= 2,
    ensures
        ({
            let s = start(h.len()).after(h, Key::ArrowUp).after(h, Key::ArrowUp);
            &&& s.active() == h[h.len() - 2]
            &&& s.pos == h[h.len() - 2].len()
            &&& s.wf()
        }),
{
}

/// Down on the fresh line changes nothing.
pub proof fn lemma_down_when_fresh(s: NavState, h: Seq<Seq<char>>)
    requires
        s.wf(),
        s.is_fresh(),
    ensures
        s.after(h, Key::ArrowDown) == s,
{
}

/// Up and then Down from the fresh line give back the line being written,
/// as it was.
pub proof fn lemma_up_down_restores_line(s: NavState, h: Seq<Seq<char>>)
    requires
        s.wf(),
        s.is_fresh(),
        s.len > 0,
        h.len() == s.len,
    ensures
        s.after(h, Key::ArrowUp).after(h, Key::ArrowDown).is_fresh(),
        s.after(h, Key::ArrowUp).after(h, Key::ArrowDown).active() == s.active(),
{
}

/// Submitting never changes a stored entry: a non-empty line, recalled and
/// edited or not, becomes one new newest entry after all the others.
pub proof fn lemma_submit_appends(h: Seq<Seq<char>>, line: Seq<char>)
    requires
        line.len() > 0,
    ensures
        submitted(h, line).len() == h.len() + 1,
        submitted(h, line).subrange(0, h.len() as int) == h,
        submitted(h, line)[h.len() as int] == line,
{
    assert(submitted(h, line).subrange(0, h.len() as int) =~= h);
}

/// Submitting an empty line leaves the history as it was.
pub proof fn lemma_submit_empty(h: Seq<Seq<char>>)
    ensures
        submitted(h, Seq::empty()) == h,
{
}

/// One read of a line with recall of earlier lines. The stored history is
/// never changed while keys are applied: recalled entries are edited in
/// working copies, and only `submit` appends to the history.
pub struct HistoryNav {
    line: Vec<char>,
    shadows: Vec<Vec<char>>,
    hpos: usize,
    pos: usize,
    len: usize,
}

impl View for HistoryNav {
    type V = NavState;

    closed spec fn view(&self) -> NavState {
        NavState {
            line: self.line@,
            shadows: self.shadows@.map_values(|v: Vec<char>| v@),
            hpos: self.hpos as nat,
            pos: self.pos as nat,
            len: self.len as nat,
        }
    }
}

impl HistoryNav {
    /// Starts a read on a fresh, empty line, over a history of `history`.
    pub fn new(history: &Vec<String>) -> (r: HistoryNav)
        ensures
            r@ == start(history@.len()),
            r@.wf(),
    {
        let r = HistoryNav {
            line: Vec::new(),
            shadows: Vec::new(),
            hpos: history.len(),
            pos: 0,
            len: history.len(),
        };
        assert(r@.shadows =~= Seq::<Seq<char>>::empty());
        r
    }

    /// The active buffer.
    pub fn active(&self) -> (r: &Vec<char>)
        requires
            self@.wf(),
        ensures
            r@ == self@.active(),
    {
        if self.hpos == self.len {
            &self.line
        } else {
            &self.shadows[self.len - 1 - self.hpos]
        }
    }

    /// The cursor in the active buffer.
    pub fn cursor(&self) -> (r: usize)
        ensures
            r == self@.pos,
    {
        self.pos
    }

    /// Whether the fresh line, rather than a recalled entry, is active.
    pub fn is_fresh(&self) -> (r: bool)
        ensures
            r == self@.is_fresh(),
    {
        self.hpos == self.len
    }

    fn recall(&mut self, history: &Vec<String>, k: usize)
        requires
            old(self)@.wf(),
            entries(history@).len() == old(self)@.len,
            k <= old(self)@.len,
            k < old(self)@.len ==> old(self)@.len - 1 - k <= old(self)@.shadows.len(),
        ensures
            final(self)@ == old(self)@.recall(entries(history@), k as nat),
            final(self)@.wf(),
    {
        let ghost h = entries(history@);
        if k == self.len {
            self.hpos = k;
            self.pos = self.line.len();
        } else {
            let d = self.len - 1 - k;
            if d < self.shadows.len() {
                self.hpos = k;
                self.pos = self.shadows[d].len();
            } else {
                let copy = chars_of(&history[k]);
                let n = copy.len();
                self.shadows.push(copy);
                self.hpos = k;
                self.pos = n;
            }
        }
        assert(self@.shadows =~= old(self)@.recall(h, k as nat).shadows);
    }

    /// Applies `key` and returns it. Up makes the next older entry active
    /// (staying on the oldest), Down the next newer one or, past the newest,
    /// the fresh line as it was left; either puts the cursor at the end. Down
    /// on the fresh line changes nothing. Enter changes nothing (see
    /// `submit`), and every other key edits the active buffer as `readch`
    /// does.
    pub fn step(&mut self, history: &Vec<String>, key: Key) -> (r: Key)
        requires
            old(self)@.wf(),
            entries(history@).len() == old(self)@.len,
        ensures
            r == key,
            final(self)@ == old(self)@.after(entries(history@), key),
            final(self)@.wf(),
    {
        match key {
            Key::ArrowUp => {
                let k = if self.hpos > 0 {
                    self.hpos - 1
                } else {
                    0
                };
                self.recall(history, k);
            },
            Key::ArrowDown => {
                if self.hpos < self.len {
                    self.recall(history, self.hpos + 1);
                }
            },
            Key::Enter => {},
            _ => {
                if self.hpos == self.len {
                    readch(&mut self.line, &mut self.pos, key);
                } else {
                    let d = self.len - 1 - self.hpos;
                    readch(&mut self.shadows[d], &mut self.pos, key);
                    let ghost (b, p) = edit(old(self)@.active(), old(self)@.pos as int, key);
                    assert(self@.shadows =~= old(self)@.shadows.update(d as int, b));
                }
            },
        }
        key
    }

    /// Ends the read: an empty active buffer gives an empty result and leaves
    /// the history as it was; any other is appended to the history as a new
    /// entry, also where it was recalled from an entry, and returned.
    pub fn submit(&self, history: &mut Vec<String>) -> (r: String)
        requires
            self@.wf(),
        ensures
            r@ == self@.active(),
            entries(final(history)@) == submitted(entries(old(history)@), self@.active()),
            self@.active().len() == 0 ==> final(history)@ == old(history)@,
            self@.active().len() > 0 ==> final(history)@ == old(history)@.push(r),
    {
        let line = self.active();
        let r = string_of(line);
        if line.len() > 0 {
            history.push(r.clone());
            assert(entries(history@) =~= submitted(entries(old(history)@), self@.active()));
        }
        r
    }
}

} // verus!
