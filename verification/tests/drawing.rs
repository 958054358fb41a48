use chess_session::engine::{Move, PieceKind, Side};
use chess_session::material::{census_of, lost, print_census, print_material, Census};
use chess_session::paint::{Frame, Paint, Tint, Wipe};
use chess_session::picture::{
    piece_to_str, print_board, print_cell, print_move, print_pieces,
};
use chess_session::position::Position;
use chess_session::screen::{
    hint, print, print_caption, print_prompt, print_screen, print_standing, print_status,
    standing, Hint, Standing,
};
use chess_session::session::{Key, Outcome, Session};

const FILES: &str = "a   b   c   d   e   f   g   h";
const TOP: &str = "▗▄▄▄▖   ▗▄▄▄▖   ▗▄▄▄▖   ▗▄▄▄▖    ";
const ROW_A: &str = "▐███▌   ▐███▌   ▐███▌   ▐███▌    ";
const ROW_B: &str = "▝▀▀▀▚▄▄▄▞▀▀▀▚▄▄▄▞▀▀▀▚▄▄▄▞▀▀▀▚▄▄▄▖";
const ROW_C: &str = "    ▐███▌   ▐███▌   ▐███▌   ▐███▌";
const ROW_D: &str = "▗▄▄▄▞▀▀▀▚▄▄▄▞▀▀▀▚▄▄▄▞▀▀▀▚▄▄▄▞▀▀▀▘";
const BOTTOM: &str = "    ▝▀▀▀▘   ▝▀▀▀▘   ▝▀▀▀▘   ▝▀▀▀▘";
const PAWN: &str = "󰡙";
const KNIGHT: &str = "󰡘";
const BISHOP: &str = "󰡜";
const ROOK: &str = "󰡛";
const QUEEN: &str = "󰡚";
const KING: &str = "󰡗";

fn text(s: &str) -> Paint {
    Paint::Print(s.to_string())
}

fn line(s: &str) -> Paint {
    Paint::PrintLine(s.to_string())
}

fn full() -> Census {
    Census { pawns: 8, knights: 2, bishops: 2, rooks: 2, queens: 1 }
}

#[test]
fn a_frame_keeps_its_instructions_in_order() {
    let mut frame = Frame::new();
    assert_eq!(frame.len(), 0);
    frame.push(Paint::HideCursor);
    frame.print("a");
    frame.print_line("b");
    let mut other = Frame::new();
    other.push(Paint::ShowCursor);
    frame.append(other);
    assert_eq!(frame.len(), 4);
    assert_eq!(
        frame.into_paints(),
        vec![Paint::HideCursor, text("a"), line("b"), Paint::ShowCursor]
    );
}

#[test]
fn the_empty_board_is_drawn_line_by_line() {
    let paints = print_board((1, 2)).into_paints();
    assert_eq!(paints.len(), 73);
    assert_eq!(
        paints[..4],
        [
            Paint::Foreground(Tint::Yellow),
            Paint::MoveTo(5, 2),
            line(FILES),
            Paint::Foreground(Tint::DarkGrey),
        ]
    );
    let rows = [
        TOP, ROW_A, ROW_B, ROW_C, ROW_D, ROW_A, ROW_B, ROW_C, ROW_D, ROW_A, ROW_B, ROW_C, ROW_D,
        ROW_A, ROW_B, ROW_C, BOTTOM,
    ];
    for (index, row) in rows.iter().enumerate() {
        assert_eq!(paints[4 + 2 * index], Paint::MoveTo(3, 3 + index as u16));
        assert_eq!(paints[5 + 2 * index], line(row));
    }
    assert_eq!(
        paints[38..41],
        [Paint::Foreground(Tint::Yellow), Paint::MoveTo(5, 20), line(FILES)]
    );
    for rank in 0..8u16 {
        let at = 41 + 4 * usize::from(rank);
        let number = (8 - rank).to_string();
        assert_eq!(
            paints[at..at + 4],
            [
                Paint::MoveTo(1, 4 + 2 * rank),
                text(&number),
                Paint::MoveTo(37, 4 + 2 * rank),
                text(&number),
            ]
        );
    }
}

#[test]
fn the_board_can_stand_at_the_far_corner() {
    let paints = print_board((65499, 65517)).into_paints();
    assert_eq!(paints.len(), 73);
    assert_eq!(paints[1], Paint::MoveTo(65503, 65517));
    assert_eq!(paints[39], Paint::MoveTo(65503, 65535));
    assert_eq!(paints[69], Paint::MoveTo(65499, 65533));
    assert_eq!(paints[71], Paint::MoveTo(65535, 65533));
}

#[test]
fn each_part_of_the_picture_can_stand_as_far_out_as_it_reaches() {
    let h1a8 = Move { source: 7, dest: 56, promotion: None };
    let paints = print_move(h1a8, (65504, 65519), true).into_paints();
    assert_eq!(paints[0], Paint::MoveTo(65535, 65535));
    assert_eq!(paints[4], Paint::MoveTo(65507, 65521));
    let paints = print_pieces(&Position::start(), (65503, 65519)).into_paints();
    assert_eq!(paints.len(), 256);
    assert_eq!(paints[0], Paint::MoveTo(65507, 65521));
    assert_eq!(paints[252], Paint::MoveTo(65535, 65535));
    assert_eq!(paints[255], text(ROOK));
    let paints = print_cell(None, 0, 0, (65531, 65533)).into_paints();
    assert_eq!(paints[0], Paint::MoveTo(65535, 65535));
    let paints = print_cell(None, 7, 7, (65503, 65519)).into_paints();
    assert_eq!(paints[0], Paint::MoveTo(65535, 65535));
    let paints = print_material(&Position::start(), (65495, 65519)).into_paints();
    assert_eq!(paints[2], Paint::MoveTo(65535, 65533));
    assert_eq!(paints[6], Paint::MoveTo(65535, 65535));
    let paints = print_census(&full(), &full(), (65495, 65519)).into_paints();
    assert_eq!(paints[6], Paint::MoveTo(65535, 65535));
    let paints = print(&Position::start(), None, None, (65495, 65517)).into_paints();
    assert_eq!(paints.len(), 73 + 256 + 9 + 1);
    assert_eq!(paints[39], Paint::MoveTo(65499, 65535));
}

#[test]
fn the_move_played_last_is_marked_in_the_colours_of_its_squares() {
    let e2e4 = Move { source: 12, dest: 28, promotion: None };
    assert_eq!(
        print_move(e2e4, (1, 2), false).into_paints(),
        vec![
            Paint::MoveTo(20, 16),
            Paint::Foreground(Tint::Black),
            Paint::Background(Tint::DarkGrey),
            text("[ ]"),
            Paint::MoveTo(20, 12),
            Paint::Foreground(Tint::Black),
            Paint::Background(Tint::DarkGrey),
            text("[ ]"),
        ]
    );
    let g1f3 = Move { source: 6, dest: 21, promotion: None };
    assert_eq!(
        print_move(g1f3, (0, 0), false).into_paints(),
        vec![
            Paint::MoveTo(27, 16),
            Paint::Foreground(Tint::DarkGrey),
            Paint::Background(Tint::Black),
            text("[ ]"),
            Paint::MoveTo(23, 12),
            Paint::Foreground(Tint::Black),
            Paint::Background(Tint::DarkGrey),
            text("[ ]"),
        ]
    );
}

#[test]
fn the_move_being_typed_is_marked_in_yellow() {
    let a1h8 = Move { source: 0, dest: 63, promotion: None };
    assert_eq!(
        print_move(a1h8, (1, 2), true).into_paints(),
        vec![
            Paint::MoveTo(4, 18),
            Paint::Foreground(Tint::Yellow),
            Paint::Background(Tint::Black),
            text("[ ]"),
            Paint::MoveTo(32, 4),
            Paint::Foreground(Tint::Yellow),
            Paint::Background(Tint::Black),
            text("[ ]"),
        ]
    );
    let a8h1 = Move { source: 56, dest: 7, promotion: None };
    let paints = print_move(a8h1, (1, 2), true).into_paints();
    assert_eq!(paints[0], Paint::MoveTo(4, 4));
    assert_eq!(paints[2], Paint::Background(Tint::DarkGrey));
    assert_eq!(paints[4], Paint::MoveTo(32, 18));
    assert_eq!(paints[6], Paint::Background(Tint::DarkGrey));
}

#[test]
fn a_number_past_h8_gets_no_mark() {
    let odd = Move { source: 64, dest: 28, promotion: None };
    let paints = print_move(odd, (1, 2), false).into_paints();
    assert_eq!(paints.len(), 4);
    assert_eq!(paints[0], Paint::MoveTo(20, 12));
    let none = Move { source: 200, dest: 255, promotion: None };
    assert!(print_move(none, (1, 2), true).into_paints().is_empty());
}

#[test]
fn every_kind_has_its_sign() {
    assert_eq!(piece_to_str(PieceKind::Pawn), PAWN);
    assert_eq!(piece_to_str(PieceKind::Knight), KNIGHT);
    assert_eq!(piece_to_str(PieceKind::Bishop), BISHOP);
    assert_eq!(piece_to_str(PieceKind::Rook), ROOK);
    assert_eq!(piece_to_str(PieceKind::Queen), QUEEN);
    assert_eq!(piece_to_str(PieceKind::King), KING);
}

#[test]
fn a_square_is_drawn_with_its_piece() {
    assert_eq!(
        print_cell(Some((PieceKind::Rook, Side::Black)), 0, 0, (1, 2)).into_paints(),
        vec![
            Paint::MoveTo(5, 4),
            Paint::Foreground(Tint::Green),
            Paint::Background(Tint::DarkGrey),
            text(ROOK),
        ]
    );
    assert_eq!(
        print_cell(Some((PieceKind::King, Side::White)), 4, 7, (1, 2)).into_paints(),
        vec![
            Paint::MoveTo(21, 18),
            Paint::Foreground(Tint::White),
            Paint::Background(Tint::Black),
            text(KING),
        ]
    );
    assert_eq!(
        print_cell(None, 7, 7, (0, 0)).into_paints(),
        vec![
            Paint::MoveTo(32, 16),
            Paint::Foreground(Tint::White),
            Paint::Background(Tint::DarkGrey),
            text(""),
        ]
    );
}

#[test]
fn the_pieces_are_drawn_from_the_eighth_rank_down() {
    let paints = print_pieces(&Position::start(), (1, 2)).into_paints();
    assert_eq!(paints.len(), 256);
    let back = [ROOK, KNIGHT, BISHOP, QUEEN, KING, BISHOP, KNIGHT, ROOK];
    for row in 0..8u16 {
        for column in 0..8u16 {
            let at = 4 * usize::from(row * 8 + column);
            let (tint, sign) = match row {
                0 => (Tint::Green, back[usize::from(column)]),
                1 => (Tint::Green, PAWN),
                6 => (Tint::White, PAWN),
                7 => (Tint::White, back[usize::from(column)]),
                _ => (Tint::White, ""),
            };
            let ground = if (row + column) % 2 == 0 { Tint::DarkGrey } else { Tint::Black };
            assert_eq!(
                paints[at..at + 4],
                [
                    Paint::MoveTo(5 + 4 * column, 4 + 2 * row),
                    Paint::Foreground(tint),
                    Paint::Background(ground),
                    text(sign),
                ]
            );
        }
    }
}

#[test]
fn nothing_is_lost_at_the_start() {
    assert_eq!(lost(&full()), (String::new(), 0));
    assert_eq!(census_of(&Position::start(), Side::White), full());
    assert_eq!(census_of(&Position::start(), Side::Black), full());
    assert_eq!(
        print_material(&Position::start(), (1, 2)).into_paints(),
        vec![
            Paint::ResetColor,
            Paint::Foreground(Tint::White),
            Paint::MoveTo(41, 16),
            Paint::Clear(Wipe::UntilNewLine),
            text(""),
            Paint::Foreground(Tint::Green),
            Paint::MoveTo(41, 18),
            Paint::Clear(Wipe::UntilNewLine),
            text(""),
        ]
    );
}

#[test]
fn lost_pieces_are_listed_by_kind_and_counted_in_pawns() {
    let census = Census { pawns: 6, knights: 2, bishops: 1, rooks: 0, queens: 0 };
    let expected = format!("{PAWN}{PAWN} {BISHOP} {ROOK}{ROOK} {QUEEN}");
    assert_eq!(lost(&census), (expected, 2 + 3 + 10 + 9));
    let census = Census { pawns: 8, knights: 1, bishops: 2, rooks: 2, queens: 1 };
    assert_eq!(lost(&census), (KNIGHT.to_string(), 3));
    let census = Census { pawns: 0, knights: 0, bishops: 0, rooks: 0, queens: 0 };
    let expected = format!(
        "{} {KNIGHT}{KNIGHT} {BISHOP}{BISHOP} {ROOK}{ROOK} {QUEEN}",
        PAWN.repeat(8)
    );
    assert_eq!(lost(&census), (expected, 8 + 6 + 6 + 10 + 9));
}

#[test]
fn more_pieces_than_at_the_start_count_as_none_missing() {
    let census = Census { pawns: 7, knights: 2, bishops: 2, rooks: 2, queens: 2 };
    assert_eq!(lost(&census), (PAWN.to_string(), 1));
    let census = Census { pawns: 9, knights: 10, bishops: 3, rooks: 4, queens: u32::MAX };
    assert_eq!(lost(&census), (String::new(), 0));
}

#[test]
fn the_side_that_lost_more_shows_by_how_much() {
    let white = Census { pawns: 7, knights: 2, bishops: 2, rooks: 2, queens: 0 };
    let black = Census { pawns: 8, knights: 1, bishops: 2, rooks: 2, queens: 1 };
    assert_eq!(
        print_census(&white, &black, (1, 2)).into_paints(),
        vec![
            Paint::ResetColor,
            Paint::Foreground(Tint::White),
            Paint::MoveTo(41, 16),
            Paint::Clear(Wipe::UntilNewLine),
            text(&format!("{PAWN} {QUEEN}")),
            Paint::Foreground(Tint::DarkGrey),
            text(" +7"),
            Paint::Foreground(Tint::Green),
            Paint::MoveTo(41, 18),
            Paint::Clear(Wipe::UntilNewLine),
            text(KNIGHT),
        ]
    );
    let paints = print_census(&black, &white, (0, 0)).into_paints();
    assert_eq!(paints.len(), 11);
    assert_eq!(paints[4], text(KNIGHT));
    assert_eq!(paints[5], Paint::Foreground(Tint::Green));
    assert_eq!(paints[6], Paint::MoveTo(40, 16));
    assert_eq!(paints[8], text(&format!("{PAWN} {QUEEN}")));
    assert_eq!(paints[10], text(" +7"));
}

#[test]
fn a_capture_shows_in_the_material() {
    let mut session = Session::new();
    for line in ["e4", "d5", "exd5"] {
        assert!(session.commit(line).succeeded());
    }
    let black = census_of(session.current(), Side::Black);
    assert_eq!(black, Census { pawns: 7, ..full() });
    let paints = print_material(session.current(), (1, 2)).into_paints();
    assert_eq!(paints.len(), 11);
    assert_eq!(paints[4], text(""));
    assert_eq!(paints[8], text(PAWN));
    assert_eq!(paints[10], text(" +1"));
}

#[test]
fn the_prompt_tells_a_command_from_a_move_and_from_neither() {
    let start = Position::start();
    assert_eq!(hint(&start, ""), Hint::Command);
    assert_eq!(hint(&start, "undo"), Hint::Command);
    assert_eq!(hint(&start, "?"), Hint::Command);
    assert_eq!(hint(&start, "bot"), Hint::Command);
    assert_eq!(hint(&start, "e4"), Hint::Candidate(Move { source: 12, dest: 28, promotion: None }));
    assert_eq!(hint(&start, "e"), Hint::Unreadable);
    assert_eq!(hint(&start, "zz9"), Hint::Unreadable);
    let head = [Paint::MoveTo(0, 22), Paint::HideCursor, Paint::Clear(Wipe::CurrentLine)];
    let paints = print_prompt(Hint::Command).into_paints();
    assert_eq!(paints[..3], head);
    assert_eq!(paints[3..], [Paint::Foreground(Tint::Blue), line("‣")]);
    let paints = print_prompt(hint(&start, "Nf3")).into_paints();
    assert_eq!(paints[..3], head);
    assert_eq!(paints[3..], [Paint::Foreground(Tint::Green), line("󰸞")]);
    let paints = print_prompt(Hint::Unreadable).into_paints();
    assert_eq!(paints[..3], head);
    assert_eq!(paints[3..], [Paint::Foreground(Tint::Red), line("×")]);
}

#[test]
fn the_standing_is_told_for_the_side_to_move() {
    let head = [Paint::MoveTo(40, 3), Paint::Clear(Wipe::CurrentLine)];
    assert_eq!(print_standing(Standing::Quiet, Side::White).into_paints(), head);
    let paints = print_standing(Standing::Check, Side::Black).into_paints();
    assert_eq!(paints[..2], head);
    assert_eq!(paints[2..], [text("Black is in check!")]);
    let paints = print_standing(Standing::Checkmate, Side::White).into_paints();
    assert_eq!(paints[2..], [text("White is checkmated!")]);
    let paints = print_standing(Standing::Stalemate, Side::Black).into_paints();
    assert_eq!(paints[2..], [text("Black is stalemated!")]);
    assert_eq!(standing(&Position::start()), Standing::Quiet);
    let mut session = Session::new();
    for line in ["f3", "e5", "g4"] {
        session.commit(line);
    }
    assert_eq!(standing(session.current()), Standing::Quiet);
    session.commit("Qh4#");
    assert_eq!(standing(session.current()), Standing::Checkmate);
    session.commit("undo");
    session.commit("Qh4#");
    assert_eq!(standing(session.current()), Standing::Checkmate);
    let mut session = Session::new();
    for line in ["e4", "f5", "Qh5+"] {
        session.commit(line);
    }
    assert_eq!(standing(session.current()), Standing::Check);
}

#[test]
fn the_status_line_tells_what_failed() {
    let head = [Paint::MoveTo(40, 2), Paint::Clear(Wipe::UntilNewLine)];
    let status = |outcome: Outcome, echo: &str, side: Side| {
        let paints = print_status(outcome, echo, side).into_paints();
        assert_eq!(paints[..2], head);
        paints.into_iter().skip(2).collect::<Vec<Paint>>()
    };
    assert_eq!(status(Outcome::LegalMoves(20), "?", Side::White), [text("White has 20 possible moves")]);
    assert_eq!(status(Outcome::LegalMoves(1), "?", Side::Black), [text("Black has 1 possible move")]);
    assert_eq!(status(Outcome::LegalMoves(0), "?", Side::Black), [text("Black has 0 possible moves")]);
    assert_eq!(status(Outcome::Rejected, "zz9", Side::White), [text("Illegal move: zz9")]);
    assert_eq!(status(Outcome::NothingToUndo, "undo", Side::White), [text("Nothing to undo")]);
    assert_eq!(status(Outcome::EngineIdle, "bot", Side::White), [text("No move for the engine")]);
    let e2e4 = Move { source: 12, dest: 28, promotion: None };
    for outcome in [
        Outcome::Ended,
        Outcome::Interrupted,
        Outcome::Ignored,
        Outcome::Edited,
        Outcome::Undone,
        Outcome::Moved(e2e4),
        Outcome::EngineMoved(e2e4),
    ] {
        assert_eq!(status(outcome, "e4", Side::White), []);
    }
}

#[test]
fn the_caption_puts_the_cursor_behind_the_buffer() {
    assert_eq!(
        print_caption("fen", "1. e4", "Nf").into_paints(),
        vec![
            Paint::MoveTo(0, 0),
            Paint::Clear(Wipe::CurrentLine),
            line("fen"),
            Paint::MoveTo(0, 24),
            line("Moves played: 1. e4"),
            Paint::MoveTo(2, 22),
            line("Nf"),
            Paint::MoveTo(4, 22),
            Paint::ShowCursor,
        ]
    );
    let paints = print_caption("", "", "").into_paints();
    assert_eq!(paints[4], line("Moves played: "));
    assert_eq!(paints[7], Paint::MoveTo(2, 22));
    let long = "x".repeat(65533);
    assert_eq!(print_caption("", "", &long).into_paints()[7], Paint::MoveTo(65535, 22));
    let longer = "x".repeat(65534);
    assert_eq!(print_caption("", "", &longer).into_paints()[7], Paint::MoveTo(65535, 22));
    let wide = "é".repeat(10);
    assert_eq!(print_caption("", "", &wide).into_paints()[7], Paint::MoveTo(12, 22));
}

#[test]
fn the_picture_is_the_board_the_marks_the_pieces_and_the_material() {
    let start = Position::start();
    let e2e4 = Move { source: 12, dest: 28, promotion: None };
    let bare = print(&start, None, None, (1, 2)).into_paints();
    assert_eq!(bare.len(), 73 + 256 + 9 + 1);
    assert_eq!(bare[72], text("1"));
    assert_eq!(bare[73], Paint::MoveTo(5, 4));
    assert_eq!(bare[73 + 256], Paint::ResetColor);
    assert_eq!(bare[73 + 256 + 9], Paint::ResetColor);
    let marked = print(&start, Some(e2e4), Some(e2e4), (1, 2)).into_paints();
    assert_eq!(marked.len(), 73 + 8 + 8 + 256 + 9 + 1);
    assert_eq!(marked[73], Paint::MoveTo(20, 16));
    assert_eq!(marked[74], Paint::Foreground(Tint::Black));
    assert_eq!(marked[81], Paint::MoveTo(20, 16));
    assert_eq!(marked[82], Paint::Foreground(Tint::Yellow));
    assert_eq!(marked[89], Paint::MoveTo(5, 4));
}

#[test]
fn the_screen_of_a_session_is_put_together_in_order() {
    let mut session = Session::new();
    let outcome = session.commit("e4");
    session.press(Key::Char('e'));
    session.press(Key::Char('5'));
    let paints = print_screen(&session, outcome).into_paints();
    let fen = "rnbqkbnr/pppppppp/8/8/4P3/8/PPPP1PPP/RNBQKBNR b KQkq - 0 1";
    assert_eq!(paints.len(), 5 + 2 + 2 + (73 + 8 + 8 + 256 + 9 + 1) + 9);
    assert_eq!(paints[3], Paint::Foreground(Tint::Green));
    assert_eq!(paints[5..9], [
        Paint::MoveTo(40, 3),
        Paint::Clear(Wipe::CurrentLine),
        Paint::MoveTo(40, 2),
        Paint::Clear(Wipe::UntilNewLine),
    ]);
    assert_eq!(paints[9], Paint::Foreground(Tint::Yellow));
    assert_eq!(paints[9 + 73], Paint::MoveTo(20, 16));
    assert_eq!(paints[9 + 73 + 8], Paint::MoveTo(20, 6));
    assert_eq!(paints[9 + 73 + 9], Paint::Foreground(Tint::Yellow));
    let tail = &paints[paints.len() - 9..];
    assert_eq!(tail[2], line(fen));
    assert_eq!(tail[4], line("Moves played: 1. e4"));
    assert_eq!(tail[6], line("e5"));
    assert_eq!(tail[7], Paint::MoveTo(4, 22));
    assert_eq!(tail[8], Paint::ShowCursor);
}

#[test]
fn the_screen_echoes_a_refused_line() {
    let mut session = Session::new();
    let outcome = session.commit("zz9");
    let paints = print_screen(&session, outcome).into_paints();
    assert_eq!(paints[3], Paint::Foreground(Tint::Blue));
    assert_eq!(paints[7..10], [
        Paint::MoveTo(40, 2),
        Paint::Clear(Wipe::UntilNewLine),
        text("Illegal move: zz9"),
    ]);
    let outcome = session.commit("?");
    let paints = print_screen(&session, outcome).into_paints();
    assert_eq!(paints[9], text("White has 20 possible moves"));
}

#[test]
fn the_screen_tells_a_checkmate() {
    let mut session = Session::new();
    let mut outcome = Outcome::Edited;
    for line in ["f3", "e5", "g4", "Qh4#"] {
        outcome = session.commit(line);
    }
    let paints = print_screen(&session, outcome).into_paints();
    assert_eq!(paints[5..8], [
        Paint::MoveTo(40, 3),
        Paint::Clear(Wipe::CurrentLine),
        text("White is checkmated!"),
    ]);
    let tail = &paints[paints.len() - 9..];
    assert_eq!(tail[4], line("Moves played: 1. f3 e5  2. g4 Qh4#"));
}
