//! The picture of the board: its frame, the marks on the squares of a move,
//! and the pieces. Columns count from the a-file, rows from the eighth rank
//! down, so that White sits at the bottom.

use crate::engine::{Move, PieceKind, Side};
use crate::paint::{Frame, Paint, Stroke, Tint};
use crate::position::{occupant, Position};
use crate::text::{decimal, decimal_chars, string_of_chars};
use vstd::prelude::*;

verus! {

/// Whether a drawing that reaches `columns` to the right of `origin` and
/// `rows` below it stays within the coordinates that a terminal can have.
pub open spec fn within(origin: (u16, u16), columns: int, rows: int) -> bool {
    origin.0 + columns <= u16::MAX && origin.1 + rows <= u16::MAX
}

/// Whether the whole picture anchored at `origin` stays within the
/// coordinates that a terminal can have: the board with the rank numbers at
/// both sides and the lost material to its right, 40 columns and 18 rows.
pub open spec fn fits(origin: (u16, u16)) -> bool {
    within(origin, 40, 18)
}

/// The letters of the files, as they stand above and below the board.
pub open spec fn files_text() -> Seq<char> {
    "a   b   c   d   e   f   g   h"@
}

/// Line `row` of the frame, 0 being its top edge and 16 its bottom edge. The
/// lines between repeat in fours: two ranks of squares, each with the edge
/// below it.
pub open spec fn frame_row(row: int) -> Seq<char>
    recommends
        0 <= row <= 16,
{
    if row == 0 {
        "▗▄▄▄▖   ▗▄▄▄▖   ▗▄▄▄▖   ▗▄▄▄▖    "@
    } else if row == 16 {
        "    ▝▀▀▀▘   ▝▀▀▀▘   ▝▀▀▀▘   ▝▀▀▀▘"@
    } else if (row - 1) % 4 == 0 {
        "▐███▌   ▐███▌   ▐███▌   ▐███▌    "@
    } else if (row - 1) % 4 == 1 {
        "▝▀▀▀▚▄▄▄▞▀▀▀▚▄▄▄▞▀▀▀▚▄▄▄▞▀▀▀▚▄▄▄▖"@
    } else if (row - 1) % 4 == 2 {
        "    ▐███▌   ▐███▌   ▐███▌   ▐███▌"@
    } else {
        "▗▄▄▄▞▀▀▀▚▄▄▄▞▀▀▀▚▄▄▄▞▀▀▀▚▄▄▄▞▀▀▀▘"@
    }
}

fn frame_row_text(row: u16) -> (text: &'static str)
    requires
        row <= 16,
    ensures
        text@ == frame_row(row as int),
{
    if row == 0 {
        "▗▄▄▄▖   ▗▄▄▄▖   ▗▄▄▄▖   ▗▄▄▄▖    "
    } else if row == 16 {
        "    ▝▀▀▀▘   ▝▀▀▀▘   ▝▀▀▀▘   ▝▀▀▀▘"
    } else if (row - 1) % 4 == 0 {
        "▐███▌   ▐███▌   ▐███▌   ▐███▌    "
    } else if (row - 1) % 4 == 1 {
        "▝▀▀▀▚▄▄▄▞▀▀▀▚▄▄▄▞▀▀▀▚▄▄▄▞▀▀▀▚▄▄▄▖"
    } else if (row - 1) % 4 == 2 {
        "    ▐███▌   ▐███▌   ▐███▌   ▐███▌"
    } else {
        "▗▄▄▄▞▀▀▀▚▄▄▄▞▀▀▀▚▄▄▄▞▀▀▀▚▄▄▄▞▀▀▀▘"
    }
}

/// Stroke `index` of the 34 that draw the frame: for each of its 17 lines a
/// move to the line's start and the line itself.
pub open spec fn frame_stroke(origin: (u16, u16), index: int) -> Stroke {
    if index % 2 == 0 {
        Stroke::MoveTo((origin.0 + 2) as u16, (origin.1 + 1 + index / 2) as u16)
    } else {
        Stroke::PrintLine(frame_row(index / 2))
    }
}

/// Stroke `index` of the 32 that number the ranks: for each of the 8 rows
/// its number to the left and to the right of the board, 8 at the top.
pub open spec fn rank_stroke(origin: (u16, u16), index: int) -> Stroke {
    let row = index / 4;
    if index % 4 == 0 {
        Stroke::MoveTo(origin.0, (origin.1 + 2 * row + 2) as u16)
    } else if index % 4 == 2 {
        Stroke::MoveTo((origin.0 + 36) as u16, (origin.1 + 2 * row + 2) as u16)
    } else {
        Stroke::Print(decimal((8 - row) as nat))
    }
}

/// The empty board: the file letters in yellow above and below a frame in
/// dark grey, and the rank numbers at both sides.
pub open spec fn board_strokes(origin: (u16, u16)) -> Seq<Stroke> {
    seq![
        Stroke::Foreground(Tint::Yellow),
        Stroke::MoveTo((origin.0 + 4) as u16, origin.1),
        Stroke::PrintLine(files_text()),
        Stroke::Foreground(Tint::DarkGrey),
    ] + Seq::new(34, |index: int| frame_stroke(origin, index)) + seq![
        Stroke::Foreground(Tint::Yellow),
        Stroke::MoveTo((origin.0 + 4) as u16, (origin.1 + 18) as u16),
        Stroke::PrintLine(files_text()),
    ] + Seq::new(32, |index: int| rank_stroke(origin, index))
}

/// Draws the empty board with its top left corner at `origin`. The rank
/// numbers at the right stand 36 columns from it, the file letters below
/// the board 18 rows.
pub fn print_board(origin: (u16, u16)) -> (frame: Frame)
    requires
        within(origin, 36, 18),
    ensures
        frame@ == board_strokes(origin),
{
    let mut frame = Frame::new();
    frame.push(Paint::Foreground(Tint::Yellow));
    frame.push(Paint::MoveTo(origin.0 + 4, origin.1));
    frame.print_line("a   b   c   d   e   f   g   h");
    frame.push(Paint::Foreground(Tint::DarkGrey));
    let ghost head = frame@;
    let mut row: u16 = 0;
    while row < 17
        invariant
            within(origin, 36, 18),
            row <= 17,
            frame@ == head + Seq::new(2 * row as nat, |index: int| frame_stroke(origin, index)),
        decreases 17 - row,
    {
        frame.push(Paint::MoveTo(origin.0 + 2, origin.1 + 1 + row));
        frame.print_line(frame_row_text(row));
        assert(frame@ =~= head + Seq::new(
            2 * (row + 1) as nat,
            |index: int| frame_stroke(origin, index),
        ));
        row += 1;
    }
    frame.push(Paint::Foreground(Tint::Yellow));
    frame.push(Paint::MoveTo(origin.0 + 4, origin.1 + 18));
    frame.print_line("a   b   c   d   e   f   g   h");
    let ghost body = frame@;
    let mut rank: u16 = 0;
    while rank < 8
        invariant
            within(origin, 36, 18),
            rank <= 8,
            frame@ == body + Seq::new(4 * rank as nat, |index: int| rank_stroke(origin, index)),
        decreases 8 - rank,
    {
        let digits = decimal_chars((8 - rank) as usize);
        frame.push(Paint::MoveTo(origin.0, origin.1 + 2 * rank + 2));
        frame.push(Paint::Print(string_of_chars(&digits)));
        frame.push(Paint::MoveTo(origin.0 + 36, origin.1 + 2 * rank + 2));
        frame.push(Paint::Print(string_of_chars(&digits)));
        assert(frame@ =~= body + Seq::new(
            4 * (rank + 1) as nat,
            |index: int| rank_stroke(origin, index),
        ));
        rank += 1;
    }
    assert(frame@ =~= board_strokes(origin));
    frame
}

/// The column of a square on the screen: its file, a = 0.
pub open spec fn column_of(square: u8) -> int {
    square as int % 8
}

/// The row of a square on the screen: 0 for the eighth rank.
pub open spec fn row_of(square: u8) -> int {
    7 - square as int / 8
}

/// Whether the square at a column and a row is drawn on dark grey; the
/// others are drawn on black.
pub open spec fn on_grey(column: int, row: int) -> bool {
    (column + row) % 2 == 0
}

/// The colours of a mark, foreground first. The mark of a move that is only
/// being typed is yellow; that of the move played last barely differs from
/// its square.
pub open spec fn mark_tints(pending: bool, column: int, row: int) -> (Tint, Tint) {
    if on_grey(column, row) {
        (
            if pending {
                Tint::Yellow
            } else {
                Tint::Black
            },
            Tint::DarkGrey,
        )
    } else {
        (
            if pending {
                Tint::Yellow
            } else {
                Tint::DarkGrey
            },
            Tint::Black,
        )
    }
}

/// The mark on one square: brackets around the place of its piece. A number
/// past h8 is no square and gets no mark.
pub open spec fn mark_strokes(square: u8, origin: (u16, u16), pending: bool) -> Seq<Stroke> {
    let column = column_of(square);
    let row = row_of(square);
    if square < 64 {
        seq![
            Stroke::MoveTo((origin.0 + 4 * column + 3) as u16, (origin.1 + 2 * row + 2) as u16),
            Stroke::Foreground(mark_tints(pending, column, row).0),
            Stroke::Background(mark_tints(pending, column, row).1),
            Stroke::Print("[ ]"@),
        ]
    } else {
        Seq::<Stroke>::empty()
    }
}

/// The marks of a move: one on the square it leaves, one on the square it
/// reaches.
pub open spec fn move_strokes(mv: Move, origin: (u16, u16), pending: bool) -> Seq<Stroke> {
    mark_strokes(mv.source, origin, pending) + mark_strokes(mv.dest, origin, pending)
}

fn print_mark(frame: &mut Frame, square: u8, origin: (u16, u16), pending: bool)
    requires
        within(origin, 31, 16),
    ensures
        final(frame)@ == old(frame)@ + mark_strokes(square, origin, pending),
{
    if square >= 64 {
        assert(frame@ =~= old(frame)@ + mark_strokes(square, origin, pending));
        return ;
    }
    let column: u16 = (square % 8) as u16;
    let row: u16 = 7 - (square / 8) as u16;
    let grey = (column + row) % 2 == 0;
    let foreground = if pending {
        Tint::Yellow
    } else if grey {
        Tint::Black
    } else {
        Tint::DarkGrey
    };
    let background = if grey {
        Tint::DarkGrey
    } else {
        Tint::Black
    };
    frame.push(Paint::MoveTo(origin.0 + 4 * column + 3, origin.1 + 2 * row + 2));
    frame.push(Paint::Foreground(foreground));
    frame.push(Paint::Background(background));
    frame.print("[ ]");
    assert(frame@ =~= old(frame)@ + mark_strokes(square, origin, pending));
}

/// Marks the two squares of a move on a board at `origin`; `pending` tells
/// the move that the line being typed would play from the move played last.
/// The mark furthest from the origin, that of h1, stands 31 columns and 16
/// rows from it.
pub fn print_move(mv: Move, origin: (u16, u16), pending: bool) -> (frame: Frame)
    requires
        within(origin, 31, 16),
    ensures
        frame@ == move_strokes(mv, origin, pending),
{
    let mut frame = Frame::new();
    print_mark(&mut frame, mv.source, origin, pending);
    print_mark(&mut frame, mv.dest, origin, pending);
    assert(frame@ =~= move_strokes(mv, origin, pending));
    frame
}

/// The sign that stands for a piece of a kind.
pub open spec fn glyph(kind: PieceKind) -> Seq<char> {
    match kind {
        PieceKind::Pawn => "󰡙"@,
        PieceKind::Knight => "󰡘"@,
        PieceKind::Bishop => "󰡜"@,
        PieceKind::Rook => "󰡛"@,
        PieceKind::Queen => "󰡚"@,
        PieceKind::King => "󰡗"@,
    }
}

/// The sign that stands for a piece of a kind.
pub fn piece_to_str(kind: PieceKind) -> (sign: &'static str)
    ensures
        sign@ == glyph(kind),
{
    match kind {
        PieceKind::Pawn => "󰡙",
        PieceKind::Knight => "󰡘",
        PieceKind::Bishop => "󰡜",
        PieceKind::Rook => "󰡛",
        PieceKind::Queen => "󰡚",
        PieceKind::King => "󰡗",
    }
}

/// The square that is drawn at a column and a row.
pub open spec fn square_at(column: int, row: int) -> u8 {
    ((7 - row) * 8 + column) as u8
}

/// What is drawn on one square: the sign of its piece, green for Black and
/// white for White, on the colour of the square. An empty square gets an
/// empty text.
pub open spec fn cell_strokes(
    piece: Option<(PieceKind, Side)>,
    column: int,
    row: int,
    origin: (u16, u16),
) -> Seq<Stroke> {
    seq![
        Stroke::MoveTo((origin.0 + 4 * column + 4) as u16, (origin.1 + 2 * row + 2) as u16),
        Stroke::Foreground(
            match piece {
                Some((_, Side::Black)) => Tint::Green,
                _ => Tint::White,
            },
        ),
        Stroke::Background(
            if on_grey(column, row) {
                Tint::DarkGrey
            } else {
                Tint::Black
            },
        ),
        Stroke::Print(
            match piece {
                Some((kind, _)) => glyph(kind),
                None => Seq::<char>::empty(),
            },
        ),
    ]
}

/// Draws one square of the board, `piece` being what stands on it.
pub fn print_cell(piece: Option<(PieceKind, Side)>, column: u16, row: u16, origin: (u16, u16)) -> (frame:
    Frame)
    requires
        column < 8,
        row < 8,
        within(origin, 4 * column + 4, 2 * row + 2),
    ensures
        frame@ == cell_strokes(piece, column as int, row as int, origin),
{
    let mut frame = Frame::new();
    frame.push(Paint::MoveTo(origin.0 + 4 * column + 4, origin.1 + 2 * row + 2));
    frame.push(
        Paint::Foreground(
            match piece {
                Some((_, Side::Black)) => Tint::Green,
                _ => Tint::White,
            },
        ),
    );
    frame.push(
        Paint::Background(
            if (column + row) % 2 == 0 {
                Tint::DarkGrey
            } else {
                Tint::Black
            },
        ),
    );
    match piece {
        Some((kind, _)) => frame.print(piece_to_str(kind)),
        None => frame.push(Paint::Print(String::new())),
    }
    assert(frame@ =~= cell_strokes(piece, column as int, row as int, origin));
    frame
}

/// Stroke `index` of the 256 that draw the pieces: four for each square, the
/// squares taken row by row from the top left.
pub open spec fn piece_stroke(fen: Seq<char>, origin: (u16, u16), index: int) -> Stroke {
    let cell = index / 4;
    let column = cell % 8;
    let row = cell / 8;
    cell_strokes(occupant(fen, square_at(column, row)), column, row, origin)[index % 4]
}

/// The pieces of a position, square by square.
pub open spec fn pieces_strokes(fen: Seq<char>, origin: (u16, u16)) -> Seq<Stroke> {
    Seq::new(256, |index: int| piece_stroke(fen, origin, index))
}

/// Draws the pieces of `position` on a board at `origin`. The piece
/// furthest from the origin, that on h1, stands 32 columns and 16 rows from
/// it.
pub fn print_pieces(position: &Position, origin: (u16, u16)) -> (frame: Frame)
    requires
        within(origin, 32, 16),
    ensures
        frame@ == pieces_strokes(position@, origin),
{
    let mut frame = Frame::new();
    let mut cell: u16 = 0;
    while cell < 64
        invariant
            within(origin, 32, 16),
            cell <= 64,
            frame@ == Seq::new(4 * cell as nat, |index: int| piece_stroke(position@, origin, index)),
        decreases 64 - cell,
    {
        let column: u16 = cell % 8;
        let row: u16 = cell / 8;
        let square: u8 = ((7 - row) * 8 + column) as u8;
        assert(square == square_at(column as int, row as int));
        let ghost strokes = cell_strokes(
            occupant(position@, square),
            column as int,
            row as int,
            origin,
        );
        frame.append(print_cell(position.piece_at(square), column, row, origin));
        assert(frame@ =~= Seq::new(
            4 * (cell + 1) as nat,
            |index: int| piece_stroke(position@, origin, index),
        )) by {
            assert forall|index: int| 4 * cell <= index < 4 * cell + 4 implies frame@[index]
                == piece_stroke(position@, origin, index) by {
                assert(index / 4 == cell);
                assert(frame@[index] == strokes[index - 4 * cell]);
                assert(index % 4 == index - 4 * cell);
            }
        }
        cell += 1;
    }
    frame
}

} // verus!
