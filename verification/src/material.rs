//! The material that each side has lost: the pieces missing from its
//! starting set, and what they count for.

use crate::engine::{piece_count_in, PieceKind, Side};
use crate::paint::{Frame, Paint, Stroke, Tint, Wipe};
use crate::picture::{glyph, piece_to_str, within};
use crate::position::Position;
use crate::text::{chars_of, decimal, decimal_chars, extend_chars, string_of_chars};
use vstd::prelude::*;

verus! {

/// How many pieces of each kind but the king one side has on the board.
#[derive(Clone, Copy, Debug, PartialEq, Eq)]
pub struct Census {
    pub pawns: u32,
    pub knights: u32,
    pub bishops: u32,
    pub rooks: u32,
    pub queens: u32,
}

/// The kinds that are counted, in the order in which they are listed.
pub open spec fn kind_at(index: int) -> PieceKind {
    if index == 0 {
        PieceKind::Pawn
    } else if index == 1 {
        PieceKind::Knight
    } else if index == 2 {
        PieceKind::Bishop
    } else if index == 3 {
        PieceKind::Rook
    } else {
        PieceKind::Queen
    }
}

/// How many pieces of a kind a side begins with.
pub open spec fn initial_count(kind: PieceKind) -> nat {
    match kind {
        PieceKind::Pawn => 8,
        PieceKind::Queen | PieceKind::King => 1,
        _ => 2,
    }
}

/// What a piece of a kind counts for, in pawns.
pub open spec fn worth(kind: PieceKind) -> nat {
    match kind {
        PieceKind::Pawn => 1,
        PieceKind::Knight | PieceKind::Bishop => 3,
        PieceKind::Rook => 5,
        PieceKind::Queen => 9,
        PieceKind::King => 0,
    }
}

/// How many pieces of a kind a census holds.
pub open spec fn present(census: Census, kind: PieceKind) -> nat {
    match kind {
        PieceKind::Pawn => census.pawns as nat,
        PieceKind::Knight => census.knights as nat,
        PieceKind::Bishop => census.bishops as nat,
        PieceKind::Rook => census.rooks as nat,
        PieceKind::Queen => census.queens as nat,
        PieceKind::King => 1,
    }
}

/// How many pieces of a kind are missing from the starting set. A side that
/// has promoted to more pieces of a kind than it began with misses none.
pub open spec fn missing(census: Census, kind: PieceKind) -> nat {
    if present(census, kind) < initial_count(kind) {
        (initial_count(kind) - present(census, kind)) as nat
    } else {
        0
    }
}

/// A text written a number of times over.
pub open spec fn repeated(text: Seq<char>, times: nat) -> Seq<char>
    decreases times,
{
    if times == 0 {
        Seq::<char>::empty()
    } else {
        repeated(text, (times - 1) as nat) + text
    }
}

/// The groups of missing pieces among the first `count` kinds: for each
/// kind of which any is missing, its sign once for every missing piece.
pub open spec fn groups(census: Census, count: nat) -> Seq<Seq<char>>
    decreases count,
{
    if count == 0 {
        Seq::<Seq<char>>::empty()
    } else {
        let kind = kind_at(count - 1);
        let before = groups(census, (count - 1) as nat);
        if missing(census, kind) > 0 {
            before.push(repeated(glyph(kind), missing(census, kind)))
        } else {
            before
        }
    }
}

/// Texts in a row, a space between one and the next.
pub open spec fn spaced(parts: Seq<Seq<char>>) -> Seq<char>
    decreases parts.len(),
{
    if parts.len() == 0 {
        Seq::<char>::empty()
    } else if parts.len() == 1 {
        parts[0]
    } else {
        spaced(parts.drop_last()) + seq![' '] + parts.last()
    }
}

/// The missing pieces of a side as a text: pawns first, then knights,
/// bishops, rooks and queens.
pub open spec fn lost_text(census: Census) -> Seq<char> {
    spaced(groups(census, 5))
}

/// What the missing pieces among the first `count` kinds count for.
pub open spec fn lost_worth_of(census: Census, count: nat) -> nat
    decreases count,
{
    if count == 0 {
        0
    } else {
        lost_worth_of(census, (count - 1) as nat) + worth(kind_at(count - 1)) * missing(
            census,
            kind_at(count - 1),
        )
    }
}

/// What the missing pieces of a side count for.
pub open spec fn lost_worth(census: Census) -> nat {
    lost_worth_of(census, 5)
}

/// The census of one side in a position.
pub open spec fn census_in(fen: Seq<char>, side: Side) -> Census {
    Census {
        pawns: piece_count_in(fen, PieceKind::Pawn, side),
        knights: piece_count_in(fen, PieceKind::Knight, side),
        bishops: piece_count_in(fen, PieceKind::Bishop, side),
        rooks: piece_count_in(fen, PieceKind::Rook, side),
        queens: piece_count_in(fen, PieceKind::Queen, side),
    }
}

/// The line of one side: its missing pieces in `tint`, and behind them, in
/// dark grey, by how much they outweigh those of the other side, if they do.
pub open spec fn side_strokes(
    own: Census,
    other: Census,
    tint: Tint,
    column: u16,
    row: u16,
) -> Seq<Stroke> {
    seq![
        Stroke::Foreground(tint),
        Stroke::MoveTo(column, row),
        Stroke::Clear(Wipe::UntilNewLine),
        Stroke::Print(lost_text(own)),
    ] + if lost_worth(own) > lost_worth(other) {
        seq![
            Stroke::Foreground(Tint::DarkGrey),
            Stroke::Print(seq![' ', '+'] + decimal((lost_worth(own) - lost_worth(other)) as nat)),
        ]
    } else {
        Seq::<Stroke>::empty()
    }
}

/// The two lines to the right of the board: White's missing pieces in white,
/// and two rows below them Black's in green.
pub open spec fn material_strokes(white: Census, black: Census, origin: (u16, u16)) -> Seq<Stroke> {
    seq![Stroke::ResetColor] + side_strokes(
        white,
        black,
        Tint::White,
        (origin.0 + 40) as u16,
        (origin.1 + 14) as u16,
    ) + side_strokes(black, white, Tint::Green, (origin.0 + 40) as u16, (origin.1 + 16) as u16)
}

fn kind_of(index: usize) -> (kind: PieceKind)
    ensures
        kind == kind_at(index as int),
{
    if index == 0 {
        PieceKind::Pawn
    } else if index == 1 {
        PieceKind::Knight
    } else if index == 2 {
        PieceKind::Bishop
    } else if index == 3 {
        PieceKind::Rook
    } else {
        PieceKind::Queen
    }
}

fn missing_of(census: &Census, kind: PieceKind) -> (count: u32)
    ensures
        count == missing(*census, kind),
        count <= 8,
{
    let (initial, there): (u32, u32) = match kind {
        PieceKind::Pawn => (8, census.pawns),
        PieceKind::Knight => (2, census.knights),
        PieceKind::Bishop => (2, census.bishops),
        PieceKind::Rook => (2, census.rooks),
        PieceKind::Queen => (1, census.queens),
        PieceKind::King => (1, 1),
    };
    if there < initial {
        initial - there
    } else {
        0
    }
}

fn worth_of(kind: PieceKind) -> (points: u32)
    ensures
        points == worth(kind),
        points <= 9,
{
    match kind {
        PieceKind::Pawn => 1,
        PieceKind::Knight | PieceKind::Bishop => 3,
        PieceKind::Rook => 5,
        PieceKind::Queen => 9,
        PieceKind::King => 0,
    }
}

/// What a side has lost, `census` being what it still has: the missing
/// pieces as a text, and what they count for.
pub fn lost(census: &Census) -> (loss: (String, u32))
    ensures
        loss.0@ == lost_text(*census),
        loss.1 == lost_worth(*census),
{
    let mut out: Vec<char> = Vec::new();
    let mut total: u32 = 0;
    let mut any = false;
    let mut index: usize = 0;
    while index < 5
        invariant
            index <= 5,
            total == lost_worth_of(*census, index as nat),
            total <= 72 * index,
            any == (groups(*census, index as nat).len() > 0),
            out@ == spaced(groups(*census, index as nat)),
        decreases 5 - index,
    {
        let kind = kind_of(index);
        let count = missing_of(census, kind);
        let points = worth_of(kind);
        assert(points * count <= 72) by (nonlinear_arith)
            requires
                points <= 9,
                count <= 8,
        ;
        total = total + points * count;
        if count > 0 {
            let ghost before = groups(*census, index as nat);
            let ghost start = out@;
            if any {
                out.push(' ');
            }
            let ghost lead = out@;
            let sign = chars_of(piece_to_str(kind));
            let mut times: u32 = 0;
            while times < count
                invariant
                    times <= count,
                    sign@ == glyph(kind),
                    out@ == lead + repeated(glyph(kind), times as nat),
                decreases count - times,
            {
                extend_chars(&mut out, &sign);
                assert(out@ =~= lead + repeated(glyph(kind), (times + 1) as nat));
                times += 1;
            }
            proof {
                let after = groups(*census, (index + 1) as nat);
                assert(after == before.push(repeated(glyph(kind), count as nat)));
                assert(after.drop_last() =~= before);
                if before.len() == 0 {
                    assert(start =~= Seq::<char>::empty());
                    assert(out@ =~= after[0]);
                } else {
                    assert(out@ =~= start + seq![' '] + after.last());
                }
            }
            any = true;
        }
        index += 1;
    }
    (string_of_chars(&out), total)
}

fn print_side(frame: &mut Frame, own: &Census, other: &Census, tint: Tint, column: u16, row: u16)
    ensures
        final(frame)@ == old(frame)@ + side_strokes(*own, *other, tint, column, row),
{
    let (text, points) = lost(own);
    let (_, against) = lost(other);
    frame.push(Paint::Foreground(tint));
    frame.push(Paint::MoveTo(column, row));
    frame.push(Paint::Clear(Wipe::UntilNewLine));
    frame.push(Paint::Print(text));
    if points > against {
        let mut lead: Vec<char> = Vec::new();
        lead.push(' ');
        lead.push('+');
        let digits = decimal_chars((points - against) as usize);
        extend_chars(&mut lead, &digits);
        assert(lead@ =~= seq![' ', '+'] + decimal((points - against) as nat));
        frame.push(Paint::Foreground(Tint::DarkGrey));
        frame.push(Paint::Print(string_of_chars(&lead)));
    }
    assert(frame@ =~= old(frame)@ + side_strokes(*own, *other, tint, column, row));
}

/// Draws the lost material beside a board at `origin`, `white` and `black`
/// being what the two sides still have. The lines begin 40 columns from the
/// origin, the lower of them 16 rows below it.
pub fn print_census(white: &Census, black: &Census, origin: (u16, u16)) -> (frame: Frame)
    requires
        within(origin, 40, 16),
    ensures
        frame@ == material_strokes(*white, *black, origin),
{
    let mut frame = Frame::new();
    frame.push(Paint::ResetColor);
    print_side(&mut frame, white, black, Tint::White, origin.0 + 40, origin.1 + 14);
    print_side(&mut frame, black, white, Tint::Green, origin.0 + 40, origin.1 + 16);
    assert(frame@ =~= material_strokes(*white, *black, origin));
    frame
}

/// Counts the pieces of one side in a position.
pub fn census_of(position: &Position, side: Side) -> (census: Census)
    ensures
        census == census_in(position@, side),
{
    Census {
        pawns: position.piece_count(PieceKind::Pawn, side),
        knights: position.piece_count(PieceKind::Knight, side),
        bishops: position.piece_count(PieceKind::Bishop, side),
        rooks: position.piece_count(PieceKind::Rook, side),
        queens: position.piece_count(PieceKind::Queen, side),
    }
}

/// Draws the lost material of `position` beside a board at `origin`.
pub fn print_material(position: &Position, origin: (u16, u16)) -> (frame: Frame)
    requires
        within(origin, 40, 16),
    ensures
        frame@ == material_strokes(
            census_in(position@, Side::White),
            census_in(position@, Side::Black),
            origin,
        ),
{
    let white = census_of(position, Side::White);
    let black = census_of(position, Side::Black);
    print_census(&white, &black, origin)
}

} // verus!
