//! The move log: the plies of the game in algebraic notation, numbered by
//! full moves, as in `1. e4 e5  2. Nf3`.

use crate::engine::label_of;
use crate::game::{follows, linked, GameHistoryStack, Step};
use crate::text::{chars_of, decimal, decimal_chars, extend_chars, string_of_chars};
use vstd::prelude::*;

verus! {

/// One full move of the log: its number, a dot, and its one or two plies.
pub open spec fn turn_text(number: nat, plies: Seq<Seq<char>>) -> Seq<char>
    recommends
        1 <= plies.len() <= 2,
{
    decimal(number) + seq!['.', ' '] + plies[0] + if plies.len() >= 2 {
        seq![' '] + plies[1]
    } else {
        Seq::<char>::empty()
    }
}

/// Where the last full move of `count` plies begins.
pub open spec fn last_turn_start(count: nat) -> int
    recommends
        count > 0,
{
    2 * ((count - 1) / 2)
}

/// The log of the plies `labels`: the full moves in order, two spaces
/// between one and the next. White's ply and Black's reply make one full
/// move; a last ply of White stands alone.
pub open spec fn move_log(labels: Seq<Seq<char>>) -> Seq<char>
    decreases labels.len(),
{
    if labels.len() == 0 {
        Seq::<char>::empty()
    } else {
        let start = last_turn_start(labels.len());
        let turn = turn_text((start / 2 + 1) as nat, labels.subrange(start, labels.len() as int));
        if start == 0 {
            turn
        } else {
            move_log(labels.subrange(0, start)) + seq![' ', ' '] + turn
        }
    }
}

/// The texts of a vector of strings.
pub open spec fn texts_of(labels: Seq<String>) -> Seq<Seq<char>> {
    labels.map_values(|label: String| label@)
}

/// Writes the log of the plies `labels`.
pub fn join_moves(labels: &Vec<String>) -> (log: String)
    ensures
        log@ == move_log(texts_of(labels@)),
{
    let ghost texts = texts_of(labels@);
    let mut out: Vec<char> = Vec::new();
    let mut index: usize = 0;
    while index < labels.len()
        invariant
            texts == texts_of(labels@),
            index <= labels.len(),
            index % 2 == 0 || index == labels.len(),
            out@ == move_log(texts.subrange(0, index as int)),
        decreases labels.len() - index,
    {
        let ghost before = out@;
        let end: usize = if labels.len() - index >= 2 {
            index + 2
        } else {
            index + 1
        };
        if index > 0 {
            out.push(' ');
            out.push(' ');
        }
        let number = decimal_chars(index / 2 + 1);
        extend_chars(&mut out, &number);
        out.push('.');
        out.push(' ');
        let first = chars_of(labels[index].as_str());
        extend_chars(&mut out, &first);
        if labels.len() - index >= 2 {
            out.push(' ');
            let second = chars_of(labels[index + 1].as_str());
            extend_chars(&mut out, &second);
        }
        proof {
            let done = texts.subrange(0, end as int);
            let start = last_turn_start(done.len());
            assert(start == index);
            let pair = done.subrange(start, done.len() as int);
            assert(pair =~= texts.subrange(index as int, end as int));
            assert(pair[0] == labels@[index as int]@);
            if end == index + 2 {
                assert(pair[1] == labels@[index + 1]@);
            }
            assert(done.subrange(0, start) =~= texts.subrange(0, index as int));
            let turn = turn_text((index / 2 + 1) as nat, pair);
            if index == 0 {
                assert(before =~= Seq::<char>::empty());
                assert(out@ =~= turn);
            } else {
                assert(out@ =~= before + seq![' ', ' '] + turn);
            }
        }
        index = end;
    }
    assert(texts.subrange(0, labels.len() as int) =~= texts);
    string_of_chars(&out)
}

/// The label of ply `index` of a record, `index` from 1: the notation of its
/// move, played from the position before it.
pub open spec fn ply_label(steps: Seq<Step>, index: int) -> Seq<char>
    recommends
        1 <= index < steps.len(),
{
    label_of(steps[index - 1].fen, steps[index].played->0)
}

/// The labels of all plies of a record, in order.
pub open spec fn labels_of(steps: Seq<Step>) -> Seq<Seq<char>> {
    Seq::new((steps.len() - 1) as nat, |i: int| ply_label(steps, i + 1))
}

/// Labels every ply of a game in which every position is what the engine
/// made of the one before it and its move: such a move has a label.
pub fn move_labels(game: &GameHistoryStack) -> (list: Vec<String>)
    requires
        game.wf(),
        linked(game@),
    ensures
        texts_of(list@) == labels_of(game@),
{
    let count = game.len() - 1;
    let mut list: Vec<String> = Vec::new();
    let mut index: usize = 1;
    while index <= count
        invariant
            game.wf(),
            linked(game@),
            count == game@.len() - 1,
            count < usize::MAX,
            1 <= index <= count + 1,
            list@.len() == index - 1,
            forall|j: int| 0 <= j < index - 1 ==> (#[trigger] list@[j])@ == ply_label(game@, j + 1),
        decreases count + 1 - index,
    {
        assert(follows(game@, index as int));
        if let Some(mv) = game.move_at(index) {
            list.push(game.position_at(index - 1).label(mv));
        }
        index += 1;
    }
    assert(texts_of(list@) =~= labels_of(game@));
    list
}

/// The move log of a game in which every position is what the engine made
/// of the one before it and its move.
pub fn format_moves(game: &GameHistoryStack) -> (log: String)
    requires
        game.wf(),
        linked(game@),
    ensures
        log@ == move_log(labels_of(game@)),
{
    join_moves(&move_labels(game))
}

/// The move log of any game: the plies are played again first, and the log
/// is written only where each of them follows from the position before it.
pub fn checked_moves(game: &GameHistoryStack) -> (log: Option<String>)
    requires
        game.wf(),
    ensures
        match log {
            Some(text) => linked(game@) && text@ == move_log(labels_of(game@)),
            None => !linked(game@),
        },
{
    if game.is_linked() {
        Some(format_moves(game))
    } else {
        None
    }
}

} // verus!
