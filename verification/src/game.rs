//! The record of the game: every position reached, each with the move that
//! led to it. It grows by one entry per ply and shrinks only by taking the
//! last ply back; the first entry, the initial position, is never removed.

use crate::engine::Move;
use crate::position::{reached, Position};
use vstd::prelude::*;

verus! {

/// One entry of the record as the contracts see it: the FEN of a position
/// and the move that produced it (`None` for the initial position).
pub struct Step {
    pub fen: Seq<char>,
    pub played: Option<Move>,
}

/// One entry of the record: a position and the move that led to it from the
/// entry before.
pub struct GameHistoryEntry {
    pub position: Position,
    pub played: Option<Move>,
}

impl View for GameHistoryEntry {
    type V = Step;

    open spec fn view(&self) -> Step {
        Step { fen: self.position@, played: self.played }
    }
}

/// A record is well formed when it starts with an initial position that no
/// move produced and every later entry carries its move.
pub open spec fn well_formed(steps: Seq<Step>) -> bool {
    &&& steps.len() >= 1
    &&& steps[0].played is None
    &&& forall|i: int| 1 <= i < steps.len() ==> (#[trigger] steps[i]).played is Some
}

/// Whether entry `index` is what the engine makes of the entry before it
/// and its own move.
pub open spec fn follows(steps: Seq<Step>, index: int) -> bool
    recommends
        1 <= index < steps.len(),
{
    &&& steps[index].played is Some
    &&& reached(steps[index - 1].fen, steps[index].played->0) == Some(steps[index].fen)
}

/// Every entry after the first is what the engine makes of the entry before
/// it and its own move.
pub open spec fn linked(steps: Seq<Step>) -> bool {
    forall|i: int| 1 <= i < steps.len() ==> #[trigger] follows(steps, i)
}

/// The record that holds the initial position alone.
pub open spec fn opening(fen: Seq<char>) -> Seq<Step> {
    seq![Step { fen, played: None }]
}

/// The record after one more ply.
pub open spec fn pushed(steps: Seq<Step>, mv: Move, fen: Seq<char>) -> Seq<Step> {
    steps.push(Step { fen, played: Some(mv) })
}

/// The record after taking back the last ply, if there is one to take back.
pub open spec fn undone(steps: Seq<Step>) -> Seq<Step> {
    if steps.len() > 1 {
        steps.drop_last()
    } else {
        steps
    }
}

/// The number of plies in a record.
pub open spec fn plies(steps: Seq<Step>) -> int {
    steps.len() - 1
}

/// The record after each ply of `moves` in turn; a ply is a move and the FEN
/// of the position it reaches.
pub open spec fn pushed_all(steps: Seq<Step>, moves: Seq<(Move, Seq<char>)>) -> Seq<Step>
    decreases moves.len(),
{
    if moves.len() == 0 {
        steps
    } else {
        pushed(pushed_all(steps, moves.drop_last()), moves.last().0, moves.last().1)
    }
}

/// The record after `count` attempts to take a ply back.
pub open spec fn undone_times(steps: Seq<Step>, count: nat) -> Seq<Step>
    decreases count,
{
    if count == 0 {
        steps
    } else {
        undone(undone_times(steps, (count - 1) as nat))
    }
}

/// The ordered record of a game.
pub struct GameHistoryStack {
    entries: Vec<GameHistoryEntry>,
}

impl View for GameHistoryStack {
    type V = Seq<Step>;

    closed spec fn view(&self) -> Seq<Step> {
        self.entries@.map_values(|entry: GameHistoryEntry| entry@)
    }
}

impl GameHistoryStack {
    /// The invariant of the record: see `well_formed`.
    pub open spec fn wf(&self) -> bool {
        well_formed(self@)
    }

    /// A record that holds `initial` and no move.
    pub fn new(initial: Position) -> (stack: GameHistoryStack)
        ensures
            stack.wf(),
            stack@ == opening(initial@),
            linked(stack@),
    {
        let mut entries: Vec<GameHistoryEntry> = Vec::new();
        entries.push(GameHistoryEntry { position: initial, played: None });
        let stack = GameHistoryStack { entries };
        assert(stack@ =~= opening(initial@));
        stack
    }

    /// The current position: that of the last entry.
    pub fn current(&self) -> (position: &Position)
        requires
            self.wf(),
        ensures
            position@ == self@.last().fen,
    {
        &self.entries[self.entries.len() - 1].position
    }

    /// The move that produced the current position; `None` before the first
    /// move.
    pub fn last_move(&self) -> (played: Option<Move>)
        requires
            self.wf(),
        ensures
            played == self@.last().played,
    {
        self.entries[self.entries.len() - 1].played
    }

    /// Appends the entry of one ply. Nothing is checked here: the caller has
    /// `resulting` from playing `mv` in the current position.
    pub fn push(&mut self, mv: Move, resulting: Position)
        requires
            old(self).wf(),
        ensures
            final(self).wf(),
            final(self)@ == pushed(old(self)@, mv, resulting@),
            linked(old(self)@) && reached(old(self)@.last().fen, mv) == Some(resulting@) ==> linked(
                final(self)@,
            ),
    {
        self.entries.push(GameHistoryEntry { position: resulting, played: Some(mv) });
        assert(self@ =~= pushed(old(self)@, mv, resulting@));
        proof {
            linked_is_kept(old(self)@, mv, resulting@);
        }
    }

    /// Takes the last ply back. With the initial position alone the record
    /// stays as it is and the answer is `false`.
    pub fn undo(&mut self) -> (taken_back: bool)
        requires
            old(self).wf(),
        ensures
            final(self).wf(),
            taken_back == (old(self)@.len() > 1),
            final(self)@ == undone(old(self)@),
            linked(old(self)@) ==> linked(final(self)@),
    {
        proof {
            if linked(old(self)@) {
                lemma_undone_linked(old(self)@);
            }
        }
        if self.entries.len() > 1 {
            self.entries.pop();
            assert(self@ =~= old(self)@.drop_last());
            true
        } else {
            false
        }
    }

    /// The number of entries, the initial position among them.
    pub fn len(&self) -> (count: usize)
        ensures
            count == self@.len(),
    {
        self.entries.len()
    }

    /// The number of moves played: the entries but the first.
    pub fn moves_played(&self) -> (count: usize)
        requires
            self.wf(),
        ensures
            count == plies(self@),
    {
        self.entries.len() - 1
    }

    /// The position of entry `index`, the initial position being entry 0.
    pub fn position_at(&self, index: usize) -> (position: &Position)
        requires
            self.wf(),
            index < self@.len(),
        ensures
            position@ == self@[index as int].fen,
    {
        &self.entries[index].position
    }

    /// The move of entry `index`; the initial position, entry 0, has none.
    pub fn move_at(&self, index: usize) -> (played: Option<Move>)
        requires
            self.wf(),
            index < self@.len(),
        ensures
            played == self@[index as int].played,
    {
        self.entries[index].played
    }

    /// Whether every entry after the first is what the engine makes of the
    /// entry before it and its own move. Each move is played again to see.
    pub fn is_linked(&self) -> (yes: bool)
        requires
            self.wf(),
        ensures
            yes == linked(self@),
    {
        let mut index: usize = 1;
        while index < self.entries.len()
            invariant
                self.wf(),
                1 <= index <= self.entries.len(),
                self.entries.len() == self@.len(),
                forall|i: int| 1 <= i < index ==> #[trigger] follows(self@, i),
            decreases self.entries.len() - index,
        {
            let entry = &self.entries[index];
            let before = &self.entries[index - 1];
            assert(self@[index as int] == entry@);
            assert(self@[index - 1] == before@);
            let holds = match entry.played {
                Some(mv) => match before.position.apply(mv) {
                    Some(position) => position.export_fen() == entry.position.export_fen(),
                    None => false,
                },
                None => false,
            };
            if !holds {
                assert(!follows(self@, index as int));
                return false;
            }
            index += 1;
        }
        true
    }

    /// The plies of the game in order, each as the position reached and the
    /// move that reached it. The initial position, which no move produced, is
    /// left out.
    pub fn entries(&self) -> (list: Vec<(Position, Move)>)
        requires
            self.wf(),
        ensures
            list@.len() == plies(self@),
            forall|i: int|
                0 <= i < list@.len() ==> {
                    &&& (#[trigger] list@[i]).0@ == self@[i + 1].fen
                    &&& Some(list@[i].1) == self@[i + 1].played
                },
    {
        let mut list: Vec<(Position, Move)> = Vec::new();
        let mut index: usize = 1;
        while index < self.entries.len()
            invariant
                self.wf(),
                1 <= index <= self.entries.len(),
                self.entries.len() == self@.len(),
                list@.len() == index - 1,
                forall|i: int|
                    0 <= i < list@.len() ==> {
                        &&& (#[trigger] list@[i]).0@ == self@[i + 1].fen
                        &&& Some(list@[i].1) == self@[i + 1].played
                    },
            decreases self.entries.len() - index,
        {
            let entry = &self.entries[index];
            assert(self@[index as int] == entry@);
            match entry.played {
                Some(mv) => {
                    list.push((entry.position.clone(), mv));
                },
                None => {
                    assert(false);
                },
            }
            index += 1;
        }
        list
    }
}

/// Pushing plies one after another keeps a record well formed and adds one
/// ply to the count for each.
pub proof fn lemma_pushed_all(steps: Seq<Step>, moves: Seq<(Move, Seq<char>)>)
    requires
        well_formed(steps),
    ensures
        well_formed(pushed_all(steps, moves)),
        plies(pushed_all(steps, moves)) == plies(steps) + moves.len(),
        pushed_all(steps, moves).len() == steps.len() + moves.len(),
        pushed_all(steps, moves).subrange(0, steps.len() as int) == steps,
    decreases moves.len(),
{
    if moves.len() > 0 {
        lemma_pushed_all(steps, moves.drop_last());
        let before = pushed_all(steps, moves.drop_last());
        let after = pushed_all(steps, moves);
        assert(after == before.push(Step { fen: moves.last().1, played: Some(moves.last().0) }));
        assert(after.subrange(0, steps.len() as int) =~= before.subrange(0, steps.len() as int));
    } else {
        assert(steps.subrange(0, steps.len() as int) =~= steps);
    }
}

/// Taking plies back at most as often as there are plies removes that many
/// entries from the end.
pub proof fn lemma_undone_times(steps: Seq<Step>, count: nat)
    requires
        well_formed(steps),
        count <= plies(steps),
    ensures
        undone_times(steps, count) == steps.subrange(0, steps.len() - count),
    decreases count,
{
    if count == 0 {
        assert(steps.subrange(0, steps.len() as int) =~= steps);
    } else {
        lemma_undone_times(steps, (count - 1) as nat);
        let before = steps.subrange(0, steps.len() - (count - 1));
        assert(before.len() > 1);
        assert(before.drop_last() =~= steps.subrange(0, steps.len() - count));
    }
}

/// The law of the record. Start from a record that holds an initial position
/// alone and push any plies: the count of moves played is the number of plies
/// pushed. Take back as many: the record is the initial one again, with no
/// move played. From there taking back answers no and changes nothing,
/// however often it is tried.
pub proof fn push_then_undo_restores(fen: Seq<char>, moves: Seq<(Move, Seq<char>)>, extra: nat)
    ensures
        plies(pushed_all(opening(fen), moves)) == moves.len(),
        undone_times(pushed_all(opening(fen), moves), moves.len()) == opening(fen),
        plies(opening(fen)) == 0,
        !(opening(fen).len() > 1),
        undone(opening(fen)) == opening(fen),
        undone_times(pushed_all(opening(fen), moves), moves.len() + extra) == opening(fen),
    decreases extra,
{
    let start = opening(fen);
    let full = pushed_all(start, moves);
    lemma_pushed_all(start, moves);
    lemma_undone_times(full, moves.len());
    assert(full.subrange(0, full.len() - moves.len()) == start);
    if extra > 0 {
        push_then_undo_restores(fen, moves, (extra - 1) as nat);
    }
}

/// Taking a ply back keeps a record linked.
pub proof fn lemma_undone_linked(steps: Seq<Step>)
    requires
        linked(steps),
    ensures
        linked(undone(steps)),
{
    let shorter = undone(steps);
    assert forall|i: int| 1 <= i < shorter.len() implies #[trigger] follows(shorter, i) by {
        assert(follows(steps, i));
    }
}

/// Playing what the engine makes of the current position keeps the record
/// linked, and so does taking a ply back; a record that holds an initial
/// position alone is linked.
pub proof fn linked_is_kept(steps: Seq<Step>, mv: Move, fen: Seq<char>)
    requires
        well_formed(steps),
    ensures
        linked(steps) && reached(steps.last().fen, mv) == Some(fen) ==> linked(
            pushed(steps, mv, fen),
        ),
        linked(steps) ==> linked(undone(steps)),
        linked(opening(fen)),
{
    if linked(steps) {
        let longer = pushed(steps, mv, fen);
        if reached(steps.last().fen, mv) == Some(fen) {
            assert forall|i: int| 1 <= i < longer.len() implies #[trigger] follows(longer, i) by {
                if i < steps.len() {
                    assert(follows(steps, i));
                }
            }
        }
        lemma_undone_linked(steps);
    }
}

} // verus!
