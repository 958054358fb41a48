//! The chess rules, as this library consumes them from the `timecat` engine.
//!
//! A position is the engine's own value, carried through the library unread;
//! what the library says of it is said of its FEN text. A move is held as its
//! two squares and its promotion. Each question that only the engine can
//! answer is one function here whose contract is believed, not proved: it
//! names the answer as a function of the FEN and the other values asked about.

use timecat::BoardMethodOverload;
use timecat::BoardPositionMethodOverload;
use timecat::ChessEngine;
use timecat::StringifyMove;
use vstd::prelude::*;

verus! {

/// The engine's board state, opaque to the verifier.
#[verifier::external_type_specification]
#[verifier::external_body]
pub struct ExChessPosition(timecat::ChessPosition);

/// One of the two players.
#[derive(Clone, Copy, Debug, PartialEq, Eq, Structural)]
pub enum Side {
    White,
    Black,
}

/// The kind of a chess piece.
#[derive(Clone, Copy, Debug, PartialEq, Eq, Structural)]
pub enum PieceKind {
    Pawn,
    Knight,
    Bishop,
    Rook,
    Queen,
    King,
}

/// One ply. Squares are numbered from a1 = 0 along the ranks to h8 = 63; a
/// promotion is the engine's number of the piece promoted to (knight 1,
/// bishop 2, rook 3, queen 4).
#[derive(Clone, Copy, Debug, PartialEq, Eq)]
pub struct Move {
    pub source: u8,
    pub dest: u8,
    pub promotion: Option<u8>,
}

/// The FEN text that the engine writes for a position.
pub uninterp spec fn fen_of(position: timecat::ChessPosition) -> Seq<char>;

/// How many legal moves the position written as `fen` has.
pub uninterp spec fn legal_move_count_of(fen: Seq<char>) -> usize;

/// The legal move of the position `fen` whose algebraic notation is `text`;
/// `None` where there is none. The engine answers where its counters have
/// room for a ply: see `has_room`.
pub uninterp spec fn move_named(fen: Seq<char>, text: Seq<char>) -> Option<Move>;

/// The FEN of the position that `mv` leads to from `fen`; `None` where `mv`
/// is not legal there. The engine answers where its counters have room for
/// a ply: see `has_room`.
pub uninterp spec fn position_after(fen: Seq<char>, mv: Move) -> Option<Seq<char>>;

/// The short algebraic notation of `mv` played from `fen`, for a move that
/// is legal there.
pub uninterp spec fn label_of(fen: Seq<char>, mv: Move) -> Seq<char>;

/// The half-move clock of `fen`: the plies played since a pawn moved or a
/// piece was taken.
pub uninterp spec fn halfmove_clock_in(fen: Seq<char>) -> u8;

/// The number of the full move that is being played in `fen`.
pub uninterp spec fn fullmove_number_in(fen: Seq<char>) -> u16;

/// Whether the side to move in `fen` is in check.
pub uninterp spec fn check_in(fen: Seq<char>) -> bool;

/// Whether the side to move in `fen` is checkmated.
pub uninterp spec fn checkmate_in(fen: Seq<char>) -> bool;

/// Whether the side to move in `fen` is stalemated.
pub uninterp spec fn stalemate_in(fen: Seq<char>) -> bool;

/// The side to move in `fen`.
pub uninterp spec fn side_to_move_in(fen: Seq<char>) -> Side;

/// The kind of the piece on `square` in `fen`; `None` on an empty square and
/// on a number past h8.
pub uninterp spec fn piece_kind_at(fen: Seq<char>, square: u8) -> Option<PieceKind>;

/// The owner of the piece on `square` in `fen`; `None` as for `piece_kind_at`.
pub uninterp spec fn piece_side_at(fen: Seq<char>, square: u8) -> Option<Side>;

/// How many pieces of `kind` the player `side` has on the board in `fen`.
pub uninterp spec fn piece_count_in(fen: Seq<char>, kind: PieceKind, side: Side) -> u32;

/// Whether the engine's counters have room for one more ply from `fen`. To
/// play a ply the engine adds one to its half-move clock, which it keeps in
/// eight bits, and after a ply of Black one to its full-move number, which
/// it keeps in sixteen; it does not look whether the sum fits.
pub open spec fn has_room(fen: Seq<char>) -> bool {
    &&& halfmove_clock_in(fen) < 255
    &&& side_to_move_in(fen) == Side::Black ==> fullmove_number_in(fen) < 65535
}

/// Whether the full-move number of `fen` leaves room for the longest line
/// that a search looks at: the engine's search stops 255 plies below its
/// root.
pub open spec fn has_room_to_search(fen: Seq<char>) -> bool {
    has_room(fen) && fullmove_number_in(fen) <= 65280
}

/// The FEN of the position in which every game of chess begins.
pub open spec fn start_fen() -> Seq<char> {
    "rnbqkbnr/pppppppp/8/8/8/8/PPPPPPPP/RNBQKBNR w KQkq - 0 1"@
}

/// `ChessPosition::default`. Believed: it is the starting position of chess,
/// whose FEN is `start_fen()`.
#[verifier::external_body]
pub(crate) fn engine_start() -> (position: timecat::ChessPosition)
    ensures
        fen_of(position) == start_fen(),
{
    timecat::ChessPosition::default()
}

/// `Clone::clone` of a `ChessPosition`. Believed: the copy has the same FEN.
#[verifier::external_body]
pub(crate) fn engine_copy(position: &timecat::ChessPosition) -> (copy: timecat::ChessPosition)
    ensures
        fen_of(copy) == fen_of(*position),
{
    position.clone()
}

/// `ChessPosition::get_fen`. This call is what `fen_of` names.
#[verifier::external_body]
pub(crate) fn engine_fen(position: &timecat::ChessPosition) -> (fen: String)
    ensures
        fen@ == fen_of(*position),
{
    position.get_fen()
}

/// `ChessPosition::generate_legal_moves`, counted by `MoveGenerator::len`.
/// Believed: the count depends on the position alone.
#[verifier::external_body]
pub(crate) fn engine_legal_move_count(position: &timecat::ChessPosition) -> (count: usize)
    ensures
        count == legal_move_count_of(fen_of(*position)),
{
    position.generate_legal_moves().len()
}

/// `ChessPosition::get_halfmove_clock`.
#[verifier::external_body]
pub(crate) fn engine_halfmove_clock(position: &timecat::ChessPosition) -> (clock: u8)
    ensures
        clock == halfmove_clock_in(fen_of(*position)),
{
    position.get_halfmove_clock()
}

/// `ChessPosition::get_fullmove_number`.
#[verifier::external_body]
pub(crate) fn engine_fullmove_number(position: &timecat::ChessPosition) -> (number: u16)
    ensures
        number == fullmove_number_in(fen_of(*position)),
{
    position.get_fullmove_number()
}

/// `ChessPosition::parse_san` for a `timecat::Move`: the legal move whose
/// notation is the text, or an error. The engine looks for the move by
/// playing the legal moves one after another, so the counters must have
/// room. As its source shows, it goes through the legal moves in their
/// order and returns the first whose notation is the text, trimmed and with
/// `O` for `0`; so the notation of the move it returns, read again, gives
/// the same move. Believed: the outcome depends on the position and the
/// text alone, and a move that was found is found again by its own label.
#[verifier::external_body]
pub(crate) fn engine_parse_san(position: &timecat::ChessPosition, text: &str) -> (found: Option<
    Move,
>)
    requires
        has_room(fen_of(*position)),
    ensures
        found == move_named(fen_of(*position), text@),
        match found {
            Some(mv) => position_after(fen_of(*position), mv) is Some ==> move_named(
                fen_of(*position),
                label_of(fen_of(*position), mv),
            ) == Some(mv),
            None => true,
        },
{
    let found: timecat::Move = position.parse_san(text).ok()?;
    Some(Move {
        source: found.get_source().to_int(),
        dest: found.get_dest().to_int(),
        promotion: found.get_promotion().map(|piece| piece.to_int()),
    })
}

/// `Board::push` on a board made of the position: the engine refuses a move
/// that is not legal there and otherwise plays it, for which the counters
/// must have room. Believed: the outcome depends on the position and the
/// move alone.
#[verifier::external_body]
pub(crate) fn engine_apply(position: &timecat::ChessPosition, mv: Move) -> (next: Option<
    timecat::ChessPosition,
>)
    requires
        has_room(fen_of(*position)),
    ensures
        match next {
            Some(reached) => position_after(fen_of(*position), mv) == Some(fen_of(reached)),
            None => position_after(fen_of(*position), mv) is None,
        },
{
    let source = *timecat::ALL_SQUARES.get(usize::from(mv.source))?;
    let dest = *timecat::ALL_SQUARES.get(usize::from(mv.dest))?;
    let promotion = match mv.promotion {
        Some(code) => Some(*timecat::ALL_PIECE_TYPES.get(usize::from(code))?),
        None => None,
    };
    let step = timecat::Move::new(source, dest, promotion).ok()?;
    let mut board = timecat::Board::from(position);
    board.push(step).ok()?;
    Some(board.get_position().clone())
}

/// `StringifyMove::algebraic` in its short form, for a move that is legal in
/// the position. The engine plays the move to see whether it gives check, so
/// the counters must have room. As its source shows, the call fails only for
/// a move from an empty square, which no legal move is. Believed: a legal
/// move gets a label, and the label depends on the position and the move
/// alone.
#[verifier::external_body]
pub(crate) fn engine_algebraic(position: &timecat::ChessPosition, mv: Move) -> (label: Option<
    String,
>)
    requires
        has_room(fen_of(*position)),
        position_after(fen_of(*position), mv) is Some,
    ensures
        match label {
            Some(text) => text@ == label_of(fen_of(*position), mv),
            None => false,
        },
{
    let source = *timecat::ALL_SQUARES.get(usize::from(mv.source))?;
    let dest = *timecat::ALL_SQUARES.get(usize::from(mv.dest))?;
    let promotion = match mv.promotion {
        Some(code) => Some(*timecat::ALL_PIECE_TYPES.get(usize::from(code))?),
        None => None,
    };
    let step = timecat::Move::new(source, dest, promotion).ok()?;
    Some(step.algebraic(position, false).ok()?.into_owned())
}

/// `ChessPosition::is_check`.
#[verifier::external_body]
pub(crate) fn engine_is_check(position: &timecat::ChessPosition) -> (yes: bool)
    ensures
        yes == check_in(fen_of(*position)),
{
    position.is_check()
}

/// `ChessPosition::is_checkmate`.
#[verifier::external_body]
pub(crate) fn engine_is_checkmate(position: &timecat::ChessPosition) -> (yes: bool)
    ensures
        yes == checkmate_in(fen_of(*position)),
{
    position.is_checkmate()
}

/// `ChessPosition::is_stalemate`.
#[verifier::external_body]
pub(crate) fn engine_is_stalemate(position: &timecat::ChessPosition) -> (yes: bool)
    ensures
        yes == stalemate_in(fen_of(*position)),
{
    position.is_stalemate()
}

/// `ChessPosition::turn`.
#[verifier::external_body]
pub(crate) fn engine_side_to_move(position: &timecat::ChessPosition) -> (side: Side)
    ensures
        side == side_to_move_in(fen_of(*position)),
{
    match position.turn() {
        timecat::Color::White => Side::White,
        timecat::Color::Black => Side::Black,
    }
}

/// `ChessPosition::get_piece_type_at`.
#[verifier::external_body]
pub(crate) fn engine_piece_kind_at(position: &timecat::ChessPosition, square: u8) -> (kind: Option<PieceKind>)
    ensures
        kind == piece_kind_at(fen_of(*position), square),
{
    let square = *timecat::ALL_SQUARES.get(usize::from(square))?;
    Some(match position.get_piece_type_at(square)? {
        timecat::PieceType::Pawn => PieceKind::Pawn,
        timecat::PieceType::Knight => PieceKind::Knight,
        timecat::PieceType::Bishop => PieceKind::Bishop,
        timecat::PieceType::Rook => PieceKind::Rook,
        timecat::PieceType::Queen => PieceKind::Queen,
        timecat::PieceType::King => PieceKind::King,
    })
}

/// `ChessPosition::color_at`.
#[verifier::external_body]
pub(crate) fn engine_piece_side_at(position: &timecat::ChessPosition, square: u8) -> (side: Option<Side>)
    ensures
        side == piece_side_at(fen_of(*position), square),
{
    let square = *timecat::ALL_SQUARES.get(usize::from(square))?;
    Some(match position.color_at(square)? {
        timecat::Color::White => Side::White,
        timecat::Color::Black => Side::Black,
    })
}

/// `ChessPosition::get_colored_piece_mask`, counted by `BitBoard::popcnt`.
#[verifier::external_body]
pub(crate) fn engine_piece_count(position: &timecat::ChessPosition, kind: PieceKind, side: Side) -> (count: u32)
    ensures
        count == piece_count_in(fen_of(*position), kind, side),
{
    let kind = match kind {
        PieceKind::Pawn => timecat::PieceType::Pawn,
        PieceKind::Knight => timecat::PieceType::Knight,
        PieceKind::Bishop => timecat::PieceType::Bishop,
        PieceKind::Rook => timecat::PieceType::Rook,
        PieceKind::Queen => timecat::PieceType::Queen,
        PieceKind::King => timecat::PieceType::King,
    };
    let side = match side {
        Side::White => timecat::Color::White,
        Side::Black => timecat::Color::Black,
    };
    position.get_colored_piece_mask(kind, side).popcnt()
}

/// `Engine::from_board` and `ChessEngine::search_depth_quiet`, then
/// `SearchInfo::get_best_move`. The search plays moves below its root, so
/// the counters must have room for its longest line. It runs threads against
/// a clock, so which move it offers is not claimed. As its source shows, the
/// line that comes back begins with a legal move of the position: the search
/// writes the head of its line from the legal moves of its root alone, and
/// where it comes back with an empty line and the position has a legal
/// move, the engine puts one of them in. Believed: there is an offer, and it
/// is a legal move of the position.
#[verifier::external_body]
pub(crate) fn engine_search(position: &timecat::ChessPosition, depth: i8) -> (found: Option<Move>)
    requires
        legal_move_count_of(fen_of(*position)) > 0,
        has_room_to_search(fen_of(*position)),
        depth > 0,
    ensures
        match found {
            Some(mv) => position_after(fen_of(*position), mv) is Some,
            None => false,
        },
{
    let mut engine = timecat::Engine::from_board(timecat::Board::from(position));
    let found = engine.search_depth_quiet(depth).get_best_move()?;
    Some(Move {
        source: found.get_source().to_int(),
        dest: found.get_dest().to_int(),
        promotion: found.get_promotion().map(|piece| piece.to_int()),
    })
}

} // verus!
