//! The line being typed and the lines typed before it.
//!
//! The input buffer takes characters at its end only. The command history
//! keeps committed lines, oldest first, with a cursor for walking back through
//! them: 0 means that the buffer is live, `k` that it shows the `k`-th line
//! from the end.

use crate::text::{chars_of, string_of_chars};
use vstd::prelude::*;

verus! {

/// The text that is not yet committed.
pub struct InputBuffer {
    chars: Vec<char>,
}

impl View for InputBuffer {
    type V = Seq<char>;

    closed spec fn view(&self) -> Seq<char> {
        self.chars@
    }
}

impl InputBuffer {
    /// An empty buffer.
    pub fn new() -> (buffer: InputBuffer)
        ensures
            buffer@ == Seq::<char>::empty(),
    {
        InputBuffer { chars: Vec::new() }
    }

    /// Appends one character.
    pub fn insert(&mut self, c: char)
        ensures
            final(self)@ == old(self)@.push(c),
    {
        self.chars.push(c);
    }

    /// Removes the last character, if there is one.
    pub fn delete_last(&mut self)
        ensures
            final(self)@ == if old(self)@.len() > 0 {
                old(self)@.drop_last()
            } else {
                old(self)@
            },
    {
        self.chars.pop();
    }

    /// Empties the buffer.
    pub fn clear(&mut self)
        ensures
            final(self)@ == Seq::<char>::empty(),
    {
        self.chars.clear();
    }

    /// The buffer as text.
    pub fn as_text(&self) -> (text: String)
        ensures
            text@ == self@,
    {
        string_of_chars(&self.chars)
    }

    /// Discards what the buffer holds and loads `text` as it stands.
    pub fn replace(&mut self, text: &str)
        ensures
            final(self)@ == text@,
    {
        self.chars = chars_of(text);
    }

    /// The number of characters held.
    pub fn len(&self) -> (count: usize)
        ensures
            count == self@.len(),
    {
        self.chars.len()
    }

    /// Whether the buffer holds nothing.
    pub fn is_empty(&self) -> (empty: bool)
        ensures
            empty == (self@.len() == 0),
    {
        self.chars.len() == 0
    }
}

/// The command history as the contracts see it.
pub struct Recall {
    pub lines: Seq<Seq<char>>,
    pub cursor: nat,
}

/// The history after a commit of `text`: the line is kept if the cursor was
/// at rest, and the cursor is at rest afterwards either way.
pub open spec fn committed(history: Recall, text: Seq<char>) -> Recall {
    Recall {
        lines: if history.cursor == 0 {
            history.lines.push(text)
        } else {
            history.lines
        },
        cursor: 0,
    }
}

/// The history after one step towards older lines: the cursor moves by one
/// and stops at the oldest line.
pub open spec fn older(history: Recall) -> Recall {
    Recall {
        lines: history.lines,
        cursor: if history.cursor < history.lines.len() {
            history.cursor + 1
        } else {
            history.cursor
        },
    }
}

/// The history after one step towards newer lines: the cursor moves back by
/// one and stops at rest.
pub open spec fn newer(history: Recall) -> Recall {
    Recall {
        lines: history.lines,
        cursor: if history.cursor > 0 {
            (history.cursor - 1) as nat
        } else {
            0
        },
    }
}

/// The line under the cursor; the empty text where the cursor is at rest.
pub open spec fn shown(history: Recall) -> Seq<char> {
    if 0 < history.cursor <= history.lines.len() {
        history.lines[history.lines.len() - history.cursor]
    } else {
        Seq::<char>::empty()
    }
}

/// The history after committing each of `texts` in turn.
pub open spec fn committed_all(history: Recall, texts: Seq<Seq<char>>) -> Recall
    decreases texts.len(),
{
    if texts.len() == 0 {
        history
    } else {
        committed(committed_all(history, texts.drop_last()), texts.last())
    }
}

/// The history after `count` steps towards older lines.
pub open spec fn older_times(history: Recall, count: nat) -> Recall
    decreases count,
{
    if count == 0 {
        history
    } else {
        older(older_times(history, (count - 1) as nat))
    }
}

/// The history after `count` steps towards newer lines.
pub open spec fn newer_times(history: Recall, count: nat) -> Recall
    decreases count,
{
    if count == 0 {
        history
    } else {
        newer(newer_times(history, (count - 1) as nat))
    }
}

/// The committed lines with a cursor for recalling them.
pub struct CommandHistory {
    lines: Vec<String>,
    cursor: usize,
}

impl View for CommandHistory {
    type V = Recall;

    closed spec fn view(&self) -> Recall {
        Recall { lines: self.lines@.map_values(|line: String| line@), cursor: self.cursor as nat }
    }
}

impl CommandHistory {
    /// The invariant of the history: the cursor points at a line or is at
    /// rest.
    pub open spec fn wf(&self) -> bool {
        self@.cursor <= self@.lines.len()
    }

    /// A history without lines, its cursor at rest.
    pub fn new() -> (history: CommandHistory)
        ensures
            history.wf(),
            history@ == (Recall { lines: Seq::empty(), cursor: 0 }),
    {
        let history = CommandHistory { lines: Vec::new(), cursor: 0 };
        assert(history@.lines =~= Seq::<Seq<char>>::empty());
        history
    }

    /// Records a committed line. The line is kept only if the cursor was at
    /// rest, so that a line that was merely recalled is not kept twice; the
    /// cursor is at rest afterwards.
    pub fn commit(&mut self, text: &str)
        requires
            old(self).wf(),
        ensures
            final(self).wf(),
            final(self)@ == committed(old(self)@, text@),
    {
        if self.cursor == 0 {
            self.lines.push(String::from_str(text));
            assert(self@.lines =~= old(self)@.lines.push(text@));
        }
        self.cursor = 0;
    }

    /// Steps to the next older line and returns it; the empty text where the
    /// history holds no line.
    pub fn recall_older(&mut self) -> (text: String)
        requires
            old(self).wf(),
        ensures
            final(self).wf(),
            final(self)@ == older(old(self)@),
            text@ == shown(final(self)@),
    {
        if self.cursor < self.lines.len() {
            self.cursor += 1;
        }
        self.line_under_cursor()
    }

    /// Steps to the next newer line and returns it; the empty text once the
    /// cursor is at rest.
    pub fn recall_newer(&mut self) -> (text: String)
        requires
            old(self).wf(),
        ensures
            final(self).wf(),
            final(self)@ == newer(old(self)@),
            text@ == shown(final(self)@),
    {
        if self.cursor > 0 {
            self.cursor -= 1;
        }
        self.line_under_cursor()
    }

    /// How far back the cursor is: 0 at rest.
    pub fn cursor(&self) -> (cursor: usize)
        ensures
            cursor == self@.cursor,
    {
        self.cursor
    }

    /// The number of lines kept.
    pub fn len(&self) -> (count: usize)
        ensures
            count == self@.lines.len(),
    {
        self.lines.len()
    }

    fn line_under_cursor(&self) -> (text: String)
        requires
            self.wf(),
        ensures
            text@ == shown(self@),
    {
        if self.cursor > 0 {
            self.lines[self.lines.len() - self.cursor].clone()
        } else {
            String::new()
        }
    }
}

/// Committing lines from rest appends them all and leaves the cursor at rest.
pub proof fn lemma_committed_all(history: Recall, texts: Seq<Seq<char>>)
    requires
        history.cursor == 0,
    ensures
        committed_all(history, texts).cursor == 0,
        committed_all(history, texts).lines == history.lines + texts,
    decreases texts.len(),
{
    if texts.len() == 0 {
        assert(history.lines + texts =~= history.lines);
    } else {
        lemma_committed_all(history, texts.drop_last());
        assert((history.lines + texts.drop_last()).push(texts.last()) =~= history.lines + texts);
    }
}

/// Stepping back from rest moves the cursor by the number of steps, as long
/// as there are lines left.
pub proof fn lemma_older_times(history: Recall, count: nat)
    requires
        history.cursor == 0,
        count <= history.lines.len(),
    ensures
        older_times(history, count) == (Recall { lines: history.lines, cursor: count }),
    decreases count,
{
    if count > 0 {
        lemma_older_times(history, (count - 1) as nat);
    }
}

/// Stepping forward moves the cursor back by the number of steps, as long as
/// it has not come to rest.
pub proof fn lemma_newer_times(history: Recall, count: nat)
    requires
        count <= history.cursor,
    ensures
        newer_times(history, count) == (Recall {
            lines: history.lines,
            cursor: (history.cursor - count) as nat,
        }),
    decreases count,
{
    if count > 0 {
        lemma_newer_times(history, (count - 1) as nat);
    }
}

/// The law of recall. Commit any lines from rest. Then the `k`-th step back
/// shows the `k`-th line from the end, so the lines come back newest first;
/// stepping forward shows them again in the order they were committed, and
/// after as many steps forward as back the cursor is at rest and the empty
/// text is shown.
pub proof fn recall_walks_the_commits(history: Recall, texts: Seq<Seq<char>>)
    requires
        history.cursor == 0,
    ensures
        forall|k: nat|
            1 <= k <= texts.len() ==> shown(
                #[trigger] older_times(committed_all(history, texts), k),
            ) == texts[texts.len() - k],
        forall|k: nat|
            0 <= k < texts.len() ==> shown(
                #[trigger] newer_times(
                    older_times(committed_all(history, texts), texts.len()),
                    k,
                ),
            ) == texts[k as int],
        newer_times(older_times(committed_all(history, texts), texts.len()), texts.len()).cursor
            == 0,
        shown(newer_times(older_times(committed_all(history, texts), texts.len()), texts.len()))
            == Seq::<char>::empty(),
{
    let filled = committed_all(history, texts);
    lemma_committed_all(history, texts);
    assert forall|k: nat| 1 <= k <= texts.len() implies shown(
        #[trigger] older_times(filled, k),
    ) == texts[texts.len() - k] by {
        lemma_older_times(filled, k);
    }
    let back = older_times(filled, texts.len());
    lemma_older_times(filled, texts.len());
    assert forall|k: nat| 0 <= k < texts.len() implies shown(#[trigger] newer_times(back, k))
        == texts[k as int] by {
        lemma_newer_times(back, k);
        if k == 0 {
            assert(texts.len() > 0);
        }
    }
    lemma_newer_times(back, texts.len());
}

} // verus!
