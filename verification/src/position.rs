//! A position of the game: the engine's snapshot with the questions that the
//! session and the screen put to it.

use crate::engine::{
    check_in, checkmate_in, engine_algebraic, engine_apply, engine_copy, engine_fen,
    engine_fullmove_number, engine_halfmove_clock, engine_is_check, engine_is_checkmate,
    engine_is_stalemate, engine_legal_move_count, engine_parse_san, engine_piece_count,
    engine_piece_kind_at, engine_piece_side_at, engine_search, engine_side_to_move, engine_start,
    fen_of, fullmove_number_in, halfmove_clock_in, has_room, has_room_to_search, label_of,
    legal_move_count_of, move_named, piece_count_in, piece_kind_at, piece_side_at, position_after,
    side_to_move_in, stalemate_in, start_fen, Move, PieceKind, Side,
};
use vstd::prelude::*;

verus! {

/// An immutable snapshot of the whole board state. Its view is its FEN text:
/// two positions with the same text are the same position to this library.
pub struct Position {
    inner: timecat::ChessPosition,
}

impl View for Position {
    type V = Seq<char>;

    closed spec fn view(&self) -> Seq<char> {
        fen_of(self.inner)
    }
}

impl Clone for Position {
    fn clone(&self) -> (copy: Self)
        ensures
            copy@ == self@,
    {
        Position { inner: engine_copy(&self.inner) }
    }
}

/// The move that `text` names in `fen`. A position whose counters the engine
/// has run to their end takes no further move, so nothing names one there.
pub open spec fn parsed(fen: Seq<char>, text: Seq<char>) -> Option<Move> {
    if has_room(fen) {
        move_named(fen, text)
    } else {
        None
    }
}

/// The FEN of the position that `mv` reaches from `fen`: what the engine
/// makes of a legal move, and nothing where the move is not legal or the
/// counters have no room for it.
pub open spec fn reached(fen: Seq<char>, mv: Move) -> Option<Seq<char>> {
    if has_room(fen) {
        position_after(fen, mv)
    } else {
        None
    }
}

/// What the label of `mv` played from `fen` is: the engine's notation where
/// the move can be played there, and nothing where it cannot.
pub open spec fn algebraic_label(fen: Seq<char>, mv: Move) -> Option<Seq<char>> {
    if reached(fen, mv) is Some {
        Some(label_of(fen, mv))
    } else {
        None
    }
}

/// What stands on `square` in `fen`: a piece with its owner, or nothing.
pub open spec fn occupant(fen: Seq<char>, square: u8) -> Option<(PieceKind, Side)> {
    match (piece_kind_at(fen, square), piece_side_at(fen, square)) {
        (Some(kind), Some(side)) => Some((kind, side)),
        _ => None,
    }
}

impl Position {
    /// The position in which every game begins.
    pub fn start() -> (position: Position)
        ensures
            position@ == start_fen(),
    {
        Position { inner: engine_start() }
    }

    /// The position as FEN text.
    pub fn export_fen(&self) -> (fen: String)
        ensures
            fen@ == self@,
    {
        engine_fen(&self.inner)
    }

    /// The number of legal moves.
    pub fn legal_move_count(&self) -> (count: usize)
        ensures
            count == legal_move_count_of(self@),
    {
        engine_legal_move_count(&self.inner)
    }

    /// The half-move clock: the plies played since a pawn moved or a piece
    /// was taken.
    pub fn halfmove_clock(&self) -> (clock: u8)
        ensures
            clock == halfmove_clock_in(self@),
    {
        engine_halfmove_clock(&self.inner)
    }

    /// The number of the full move that is being played.
    pub fn fullmove_number(&self) -> (number: u16)
        ensures
            number == fullmove_number_in(self@),
    {
        engine_fullmove_number(&self.inner)
    }

    /// Whether the engine's counters have room for one more ply from here.
    pub fn has_room(&self) -> (room: bool)
        ensures
            room == has_room(self@),
    {
        if engine_halfmove_clock(&self.inner) == 255 {
            false
        } else {
            match engine_side_to_move(&self.inner) {
                Side::White => true,
                Side::Black => engine_fullmove_number(&self.inner) < 65535,
            }
        }
    }

    /// Reads `text` as a move in algebraic notation: the legal move so written,
    /// or `None` where the text names no legal move here. Where the counters
    /// have no room for another ply, no text names a move. The notation
    /// goes round: the label of a move that was read and can be played, read
    /// again here, names the same move and so leads to the same position.
    pub fn parse_and_validate(&self, text: &str) -> (found: Option<Move>)
        ensures
            found == parsed(self@, text@),
            found is Some && reached(self@, found->0) is Some ==> parsed(
                self@,
                label_of(self@, found->0),
            ) == found,
    {
        if self.has_room() {
            engine_parse_san(&self.inner, text)
        } else {
            None
        }
    }

    /// Plays `mv`: the position reached, or `None` where the move is not
    /// legal here or the counters have no room for it.
    pub fn apply(&self, mv: Move) -> (next: Option<Position>)
        ensures
            match next {
                Some(position) => reached(self@, mv) == Some(position@),
                None => reached(self@, mv) is None,
            },
    {
        if self.has_room() {
            match engine_apply(&self.inner, mv) {
                Some(position) => Some(Position { inner: position }),
                None => None,
            }
        } else {
            None
        }
    }

    /// The short algebraic notation of `mv` played from here; `None` where
    /// the move cannot be played from here.
    pub fn format_algebraic(&self, mv: Move) -> (label: Option<String>)
        ensures
            match label {
                Some(text) => algebraic_label(self@, mv) == Some(text@),
                None => algebraic_label(self@, mv) is None,
            },
    {
        match self.apply(mv) {
            Some(_) => Some(self.label(mv)),
            None => None,
        }
    }

    /// The short algebraic notation of a move that can be played from here.
    pub fn label(&self, mv: Move) -> (text: String)
        requires
            reached(self@, mv) is Some,
        ensures
            text@ == label_of(self@, mv),
    {
        match engine_algebraic(&self.inner, mv) {
            Some(text) => text,
            None => String::new(),
        }
    }

    /// Whether the side to move is in check.
    pub fn is_check(&self) -> (yes: bool)
        ensures
            yes == check_in(self@),
    {
        engine_is_check(&self.inner)
    }

    /// Whether the side to move is checkmated.
    pub fn is_checkmate(&self) -> (yes: bool)
        ensures
            yes == checkmate_in(self@),
    {
        engine_is_checkmate(&self.inner)
    }

    /// Whether the side to move is stalemated.
    pub fn is_stalemate(&self) -> (yes: bool)
        ensures
            yes == stalemate_in(self@),
    {
        engine_is_stalemate(&self.inner)
    }

    /// The side to move.
    pub fn side_to_move(&self) -> (side: Side)
        ensures
            side == side_to_move_in(self@),
    {
        engine_side_to_move(&self.inner)
    }

    /// The piece on `square` (a1 = 0, h8 = 63) with its owner.
    pub fn piece_at(&self, square: u8) -> (piece: Option<(PieceKind, Side)>)
        ensures
            piece == occupant(self@, square),
    {
        match engine_piece_kind_at(&self.inner, square) {
            Some(kind) => match engine_piece_side_at(&self.inner, square) {
                Some(side) => Some((kind, side)),
                None => None,
            },
            None => None,
        }
    }

    /// How many pieces of `kind` the player `side` has on the board.
    pub fn piece_count(&self, kind: PieceKind, side: Side) -> (count: u32)
        ensures
            count == piece_count_in(self@, kind, side),
    {
        engine_piece_count(&self.inner, kind, side)
    }

    /// Asks the engine for a move, searching `depth` plies deep. The search is
    /// not made where it would be meaningless or could run the engine's
    /// counters over: with no legal move, a depth below one, or a full-move
    /// number that leaves no room for the lines searched. Everywhere else the
    /// engine offers a move, and the move can be played from here; which of
    /// the legal moves it is depends on the search.
    pub fn search_best_move(&self, depth: i8) -> (found: Option<Move>)
        ensures
            found is Some <==> legal_move_count_of(self@) > 0 && has_room_to_search(self@) && depth
                > 0,
            found is Some ==> reached(self@, found->0) is Some,
    {
        if depth > 0 && engine_legal_move_count(&self.inner) > 0 && self.has_room()
            && engine_fullmove_number(&self.inner) <= 65280 {
            engine_search(&self.inner, depth)
        } else {
            None
        }
    }
}

} // verus!
