//! The whole screen of a session: the prompt, what is to be said of the
//! position and of the last input, the board, the FEN, the move log and the
//! line being typed.

use crate::engine::{check_in, checkmate_in, side_to_move_in, stalemate_in, Move, Side};
use crate::material::{census_in, material_strokes, print_material};
use crate::notation::{format_moves, labels_of, move_log};
use crate::paint::{Frame, Paint, Stroke, Tint, Wipe};
use crate::picture::{
    board_strokes, fits, move_strokes, pieces_strokes, print_board, print_move, print_pieces,
};
use crate::position::{parsed, Position};
use crate::session::{command_of, current_fen, Command, Outcome, Session, SessionState};
use crate::text::{chars_of, decimal, decimal_chars, extend_chars, string_of_chars};
use vstd::prelude::*;

verus! {

/// What the line being typed would do if it were committed now.
#[derive(Clone, Copy, Debug, PartialEq, Eq)]
pub enum Hint {
    /// It is empty or one of the reserved words.
    Command,
    /// It names this legal move.
    Candidate(Move),
    /// It names no legal move.
    Unreadable,
}

/// What is to be said of a position.
#[derive(Clone, Copy, Debug, PartialEq, Eq, Structural)]
pub enum Standing {
    Stalemate,
    Checkmate,
    Check,
    Quiet,
}

/// The hint for a buffer in a position.
pub open spec fn hint_of(fen: Seq<char>, buffer: Seq<char>) -> Hint {
    if command_of(buffer) != Command::Play {
        Hint::Command
    } else {
        match parsed(fen, buffer) {
            Some(mv) => Hint::Candidate(mv),
            None => Hint::Unreadable,
        }
    }
}

/// The move that a hint holds.
pub open spec fn candidate(hint: Hint) -> Option<Move> {
    match hint {
        Hint::Candidate(mv) => Some(mv),
        _ => None,
    }
}

/// The standing of a position. Stalemate is asked first, then checkmate,
/// then check.
pub open spec fn standing_of(fen: Seq<char>) -> Standing {
    if stalemate_in(fen) {
        Standing::Stalemate
    } else if checkmate_in(fen) {
        Standing::Checkmate
    } else if check_in(fen) {
        Standing::Check
    } else {
        Standing::Quiet
    }
}

/// The name of a side.
pub open spec fn side_name(side: Side) -> Seq<char> {
    match side {
        Side::White => "White"@,
        Side::Black => "Black"@,
    }
}

/// The prompt at the start of the input line: blue for a command, green
/// for a move that can be played, red for anything else.
pub open spec fn prompt_strokes(hint: Hint) -> Seq<Stroke> {
    seq![
        Stroke::MoveTo(0, 22),
        Stroke::HideCursor,
        Stroke::Clear(Wipe::CurrentLine),
        Stroke::Foreground(
            match hint {
                Hint::Command => Tint::Blue,
                Hint::Candidate(_) => Tint::Green,
                Hint::Unreadable => Tint::Red,
            },
        ),
        Stroke::PrintLine(
            match hint {
                Hint::Command => "‣"@,
                Hint::Candidate(_) => "󰸞"@,
                Hint::Unreadable => "×"@,
            },
        ),
    ]
}

/// What is said of a standing, `side` being the side to move; nothing of a
/// quiet position.
pub open spec fn standing_text(standing: Standing, side: Side) -> Option<Seq<char>> {
    match standing {
        Standing::Stalemate => Some(side_name(side) + " is stalemated!"@),
        Standing::Checkmate => Some(side_name(side) + " is checkmated!"@),
        Standing::Check => Some(side_name(side) + " is in check!"@),
        Standing::Quiet => None,
    }
}

/// The line that tells the standing.
pub open spec fn standing_strokes(standing: Standing, side: Side) -> Seq<Stroke> {
    seq![Stroke::MoveTo(40, 3), Stroke::Clear(Wipe::CurrentLine)] + match standing_text(
        standing,
        side,
    ) {
        Some(text) => seq![Stroke::Print(text)],
        None => Seq::<Stroke>::empty(),
    }
}

/// What is said of the outcome of the last input, `echo` being the line
/// committed last and `side` the side to move. A refused line is echoed as
/// it was typed.
pub open spec fn status_text(outcome: Outcome, echo: Seq<char>, side: Side) -> Option<Seq<char>> {
    match outcome {
        Outcome::LegalMoves(count) => Some(
            side_name(side) + " has "@ + decimal(count as nat) + " possible move"@ + if count
                != 1 {
                "s"@
            } else {
                Seq::<char>::empty()
            },
        ),
        Outcome::Rejected => Some("Illegal move: "@ + echo),
        Outcome::NothingToUndo => Some("Nothing to undo"@),
        Outcome::EngineIdle => Some("No move for the engine"@),
        _ => None,
    }
}

/// The status line.
pub open spec fn status_strokes(outcome: Outcome, echo: Seq<char>, side: Side) -> Seq<Stroke> {
    seq![Stroke::MoveTo(40, 2), Stroke::Clear(Wipe::UntilNewLine)] + match status_text(
        outcome,
        echo,
        side,
    ) {
        Some(text) => seq![Stroke::Print(text)],
        None => Seq::<Stroke>::empty(),
    }
}

/// The marks of a move, if there is one.
pub open spec fn marks(mv: Option<Move>, origin: (u16, u16), pending: bool) -> Seq<Stroke> {
    match mv {
        Some(mv) => move_strokes(mv, origin, pending),
        None => Seq::<Stroke>::empty(),
    }
}

/// The board with everything on it: the frame, the marks of the move played
/// last and of the move being typed, the pieces and the lost material.
pub open spec fn picture_strokes(
    fen: Seq<char>,
    last: Option<Move>,
    next: Option<Move>,
    origin: (u16, u16),
) -> Seq<Stroke> {
    board_strokes(origin) + marks(last, origin, false) + marks(next, origin, true)
        + pieces_strokes(fen, origin) + material_strokes(
        census_in(fen, Side::White),
        census_in(fen, Side::Black),
        origin,
    ) + seq![Stroke::ResetColor]
}

/// The column of the cursor behind a buffer of `length` characters; it
/// stops at the last column that a terminal can have.
pub open spec fn cursor_column(length: nat) -> u16 {
    if length <= u16::MAX - 2 {
        (length + 2) as u16
    } else {
        u16::MAX
    }
}

/// The lines around the board: the FEN at the top, the move log below the
/// board, and the line being typed with the cursor behind it.
pub open spec fn caption_strokes(fen: Seq<char>, log: Seq<char>, buffer: Seq<char>) -> Seq<Stroke> {
    seq![
        Stroke::MoveTo(0, 0),
        Stroke::Clear(Wipe::CurrentLine),
        Stroke::PrintLine(fen),
        Stroke::MoveTo(0, 24),
        Stroke::PrintLine("Moves played: "@ + log),
        Stroke::MoveTo(2, 22),
        Stroke::PrintLine(buffer),
        Stroke::MoveTo(cursor_column(buffer.len()), 22),
        Stroke::ShowCursor,
    ]
}

/// Where the board stands on the screen.
pub open spec fn board_origin() -> (u16, u16) {
    (1, 2)
}

/// The screen of a session after an input with `outcome`, `log` being the
/// move log of its record.
pub open spec fn screen_strokes(state: SessionState, outcome: Outcome, log: Seq<char>) -> Seq<
    Stroke,
> {
    let fen = current_fen(state.game);
    let hint = hint_of(fen, state.buffer);
    prompt_strokes(hint) + standing_strokes(standing_of(fen), side_to_move_in(fen))
        + status_strokes(outcome, state.echo, side_to_move_in(fen)) + picture_strokes(
        fen,
        state.game.last().played,
        candidate(hint),
        board_origin(),
    ) + caption_strokes(fen, log, state.buffer)
}

fn name_of(side: Side) -> (name: Vec<char>)
    ensures
        name@ == side_name(side),
{
    match side {
        Side::White => chars_of("White"),
        Side::Black => chars_of("Black"),
    }
}

/// Draws the prompt for a hint.
pub fn print_prompt(hint: Hint) -> (frame: Frame)
    ensures
        frame@ == prompt_strokes(hint),
{
    let mut frame = Frame::new();
    frame.push(Paint::MoveTo(0, 22));
    frame.push(Paint::HideCursor);
    frame.push(Paint::Clear(Wipe::CurrentLine));
    match hint {
        Hint::Command => {
            frame.push(Paint::Foreground(Tint::Blue));
            frame.print_line("‣");
        },
        Hint::Candidate(_) => {
            frame.push(Paint::Foreground(Tint::Green));
            frame.print_line("󰸞");
        },
        Hint::Unreadable => {
            frame.push(Paint::Foreground(Tint::Red));
            frame.print_line("×");
        },
    }
    assert(frame@ =~= prompt_strokes(hint));
    frame
}

/// Draws the line that tells a standing, `side` being the side to move.
pub fn print_standing(standing: Standing, side: Side) -> (frame: Frame)
    ensures
        frame@ == standing_strokes(standing, side),
{
    let mut frame = Frame::new();
    frame.push(Paint::MoveTo(40, 3));
    frame.push(Paint::Clear(Wipe::CurrentLine));
    let mut text = name_of(side);
    match standing {
        Standing::Stalemate => {
            extend_chars(&mut text, &chars_of(" is stalemated!"));
            frame.push(Paint::Print(string_of_chars(&text)));
        },
        Standing::Checkmate => {
            extend_chars(&mut text, &chars_of(" is checkmated!"));
            frame.push(Paint::Print(string_of_chars(&text)));
        },
        Standing::Check => {
            extend_chars(&mut text, &chars_of(" is in check!"));
            frame.push(Paint::Print(string_of_chars(&text)));
        },
        Standing::Quiet => {},
    }
    assert(frame@ =~= standing_strokes(standing, side));
    frame
}

/// Draws the status line for the outcome of the last input.
pub fn print_status(outcome: Outcome, echo: &str, side: Side) -> (frame: Frame)
    ensures
        frame@ == status_strokes(outcome, echo@, side),
{
    let mut frame = Frame::new();
    frame.push(Paint::MoveTo(40, 2));
    frame.push(Paint::Clear(Wipe::UntilNewLine));
    match outcome {
        Outcome::LegalMoves(count) => {
            let mut text = name_of(side);
            extend_chars(&mut text, &chars_of(" has "));
            extend_chars(&mut text, &decimal_chars(count));
            extend_chars(&mut text, &chars_of(" possible move"));
            if count != 1 {
                extend_chars(&mut text, &chars_of("s"));
            }
            assert(text@ =~= status_text(outcome, echo@, side)->0);
            frame.push(Paint::Print(string_of_chars(&text)));
        },
        Outcome::Rejected => {
            let mut text = chars_of("Illegal move: ");
            extend_chars(&mut text, &chars_of(echo));
            frame.push(Paint::Print(string_of_chars(&text)));
        },
        Outcome::NothingToUndo => {
            frame.print("Nothing to undo");
        },
        Outcome::EngineIdle => {
            frame.print("No move for the engine");
        },
        _ => {},
    }
    assert(frame@ =~= status_strokes(outcome, echo@, side));
    frame
}

/// Draws the board of `position` at `origin` with everything on it: `last`
/// is the move played last, `next` the move that the line being typed would
/// play.
pub fn print(position: &Position, last: Option<Move>, next: Option<Move>, origin: (u16, u16)) -> (frame:
    Frame)
    requires
        fits(origin),
    ensures
        frame@ == picture_strokes(position@, last, next, origin),
{
    let mut frame = print_board(origin);
    if let Some(mv) = last {
        frame.append(print_move(mv, origin, false));
    }
    if let Some(mv) = next {
        frame.append(print_move(mv, origin, true));
    }
    frame.append(print_pieces(position, origin));
    frame.append(print_material(position, origin));
    frame.push(Paint::ResetColor);
    assert(frame@ =~= picture_strokes(position@, last, next, origin));
    frame
}

/// Draws the lines around the board.
pub fn print_caption(fen: &str, log: &str, buffer: &str) -> (frame: Frame)
    ensures
        frame@ == caption_strokes(fen@, log@, buffer@),
{
    let mut frame = Frame::new();
    frame.push(Paint::MoveTo(0, 0));
    frame.push(Paint::Clear(Wipe::CurrentLine));
    frame.print_line(fen);
    frame.push(Paint::MoveTo(0, 24));
    let mut line = chars_of("Moves played: ");
    extend_chars(&mut line, &chars_of(log));
    frame.push(Paint::PrintLine(string_of_chars(&line)));
    frame.push(Paint::MoveTo(2, 22));
    frame.print_line(buffer);
    let length = buffer.unicode_len();
    let column: u16 = if length <= 65533 {
        (length + 2) as u16
    } else {
        65535
    };
    frame.push(Paint::MoveTo(column, 22));
    frame.push(Paint::ShowCursor);
    assert(frame@ =~= caption_strokes(fen@, log@, buffer@));
    frame
}

/// Reads the line being typed against a position.
pub fn hint(position: &Position, buffer: &str) -> (hint: Hint)
    ensures
        hint == hint_of(position@, buffer@),
{
    match crate::session::classify(buffer) {
        Command::Play => match position.parse_and_validate(buffer) {
            Some(mv) => Hint::Candidate(mv),
            None => Hint::Unreadable,
        },
        _ => Hint::Command,
    }
}

/// Asks the engine for the standing of a position.
pub fn standing(position: &Position) -> (standing: Standing)
    ensures
        standing == standing_of(position@),
{
    if position.is_stalemate() {
        Standing::Stalemate
    } else if position.is_checkmate() {
        Standing::Checkmate
    } else if position.is_check() {
        Standing::Check
    } else {
        Standing::Quiet
    }
}

/// Draws the whole screen of a session after an input with `outcome`.
pub fn print_screen(session: &Session, outcome: Outcome) -> (frame: Frame)
    requires
        session.wf(),
    ensures
        frame@ == screen_strokes(session@, outcome, move_log(labels_of(session@.game))),
{
    let log = format_moves(session.game());
    let position = session.current();
    let side = position.side_to_move();
    let buffer = session.buffer().as_text();
    let fen = position.export_fen();
    let hint = hint(position, buffer.as_str());
    let next = match hint {
        Hint::Candidate(mv) => Some(mv),
        _ => None,
    };
    let mut frame = print_prompt(hint);
    frame.append(print_standing(standing(position), side));
    frame.append(print_status(outcome, session.last_committed().as_str(), side));
    frame.append(print(position, session.game().last_move(), next, (1, 2)));
    frame.append(print_caption(fen.as_str(), log.as_str(), buffer.as_str()));
    frame
}

} // verus!
