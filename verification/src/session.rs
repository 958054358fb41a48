//! The session controller: it owns the record of the game, the input buffer
//! and the command history, and decides for each committed line whether it
//! is a command, a move or neither.
//!
//! What a commit does is a function of the state before it, the line, and,
//! for the engine command alone, the move that the engine offered. That
//! function is `step`; every way into the controller is stated against it.

use crate::engine::{has_room_to_search, legal_move_count_of, Move};
use crate::game::{
    lemma_undone_linked, linked, linked_is_kept, plies, pushed, undone, well_formed,
    GameHistoryStack, Step,
};
use crate::input::{committed, newer, older, shown, CommandHistory, InputBuffer, Recall};
use crate::position::{parsed, reached, Position};
use vstd::prelude::*;

verus! {

/// How deep the engine searches for the engine command, in plies.
pub const SEARCH_DEPTH: i8 = 6;

/// What a committed line asks for.
#[derive(Clone, Copy, Debug, PartialEq, Eq, Structural)]
pub enum Command {
    /// The empty line: end the session.
    Quit,
    /// `undo`: take the last ply back.
    Undo,
    /// `?`: report the number of legal moves.
    CountMoves,
    /// `bot`: let the engine move.
    EngineMove,
    /// Anything else: a move in algebraic notation.
    Play,
}

/// What became of an input.
#[derive(Clone, Copy, Debug, PartialEq, Eq)]
pub enum Outcome {
    /// The session ended in the ordinary way.
    Ended,
    /// The session was interrupted.
    Interrupted,
    /// The session had ended before; nothing was done.
    Ignored,
    /// The buffer or the recall cursor changed; nothing was committed.
    Edited,
    /// The last ply was taken back.
    Undone,
    /// There was no ply to take back.
    NothingToUndo,
    /// The current position has this many legal moves.
    LegalMoves(usize),
    /// The engine's move was played.
    EngineMoved(Move),
    /// The engine was not asked, or offered nothing that can be played.
    EngineIdle,
    /// The move that the line names was played.
    Moved(Move),
    /// The line names no legal move.
    Rejected,
}

/// Where the controller stands.
#[derive(Clone, Copy, Debug, PartialEq, Eq, Structural)]
pub enum Phase {
    /// Waiting for input, with nothing typed.
    Idle,
    /// The buffer holds text that is not committed.
    AwaitingCommit,
    /// The session has ended for good.
    Halted { interrupted: bool },
}

/// One event of the keyboard.
#[derive(Clone, Copy, Debug, PartialEq, Eq)]
pub enum Key {
    /// A character to type.
    Char(char),
    /// Delete the last character.
    Backspace,
    /// Commit the buffer.
    Enter,
    /// Recall the next older line.
    Up,
    /// Recall the next newer line.
    Down,
    /// End the session.
    Escape,
    /// Interrupt the session.
    Interrupt,
    /// Clear the line being typed.
    ClearLine,
    /// Let the engine move, without committing anything.
    EngineMove,
    /// Any other key.
    Other,
}

/// The controller's state as the contracts see it.
pub struct SessionState {
    pub game: Seq<Step>,
    pub buffer: Seq<char>,
    pub recall: Recall,
    /// `Some(interrupted)` once the session has ended.
    pub halted: Option<bool>,
    /// The line committed last.
    pub echo: Seq<char>,
}

/// The reserved words are matched against the whole line, letter for letter.
pub open spec fn command_of(text: Seq<char>) -> Command {
    if text.len() == 0 {
        Command::Quit
    } else if text == "undo"@ {
        Command::Undo
    } else if text == "?"@ {
        Command::CountMoves
    } else if text == "bot"@ {
        Command::EngineMove
    } else {
        Command::Play
    }
}

/// Whether an outcome counts as a success.
pub open spec fn succeeded(outcome: Outcome) -> bool {
    match outcome {
        Outcome::NothingToUndo | Outcome::EngineIdle | Outcome::Rejected | Outcome::Ignored => false,
        _ => true,
    }
}

/// The FEN of the current position of a record.
pub open spec fn current_fen(game: Seq<Step>) -> Seq<char> {
    game.last().fen
}

/// Playing `offer` where it is a legal move of the current position.
pub open spec fn played(game: Seq<Step>, offer: Option<Move>) -> Option<Seq<Step>> {
    match offer {
        Some(mv) => match reached(current_fen(game), mv) {
            Some(fen) => Some(pushed(game, mv, fen)),
            None => None,
        },
        None => None,
    }
}

/// What the engine command does to the record, `offer` being the move that
/// the engine came up with. With no legal move the engine is not asked and
/// the offer counts for nothing.
pub open spec fn engine_turn(game: Seq<Step>, offer: Option<Move>) -> (Seq<Step>, Outcome) {
    if legal_move_count_of(current_fen(game)) == 0 {
        (game, Outcome::EngineIdle)
    } else {
        match played(game, offer) {
            Some(next) => (next, Outcome::EngineMoved(offer->0)),
            None => (game, Outcome::EngineIdle),
        }
    }
}

/// What a committed line does to the record.
pub open spec fn ruling(game: Seq<Step>, text: Seq<char>, offer: Option<Move>) -> (
    Seq<Step>,
    Outcome,
) {
    match command_of(text) {
        Command::Quit => (game, Outcome::Ended),
        Command::Undo => (
            undone(game),
            if game.len() > 1 {
                Outcome::Undone
            } else {
                Outcome::NothingToUndo
            },
        ),
        Command::CountMoves => (game, Outcome::LegalMoves(legal_move_count_of(current_fen(game)))),
        Command::EngineMove => engine_turn(game, offer),
        Command::Play => match played(game, parsed(current_fen(game), text)) {
            Some(next) => (next, Outcome::Moved(parsed(current_fen(game), text)->0)),
            None => (game, Outcome::Rejected),
        },
    }
}

/// The state and the outcome after the commit of `text`. The line goes to
/// the command history, the buffer is emptied, and the line is kept to be
/// echoed. A session that has ended takes no commit.
pub open spec fn step(state: SessionState, text: Seq<char>, offer: Option<Move>) -> (
    SessionState,
    Outcome,
) {
    if state.halted is Some {
        (state, Outcome::Ignored)
    } else {
        let (game, outcome) = ruling(state.game, text, offer);
        (
            SessionState {
                game,
                buffer: Seq::empty(),
                recall: committed(state.recall, text),
                halted: if outcome == Outcome::Ended {
                    Some(false)
                } else {
                    None
                },
                echo: text,
            },
            outcome,
        )
    }
}

/// The state and the outcome after a key that commits nothing. `Enter` is
/// not among them: it is the commit of the buffer.
pub open spec fn touched(state: SessionState, key: Key, offer: Option<Move>) -> (
    SessionState,
    Outcome,
) {
    if state.halted is Some {
        (state, Outcome::Ignored)
    } else {
        match key {
            Key::Char(c) => (
                SessionState { buffer: state.buffer.push(c), ..state },
                Outcome::Edited,
            ),
            Key::Backspace => (
                SessionState {
                    buffer: if state.buffer.len() > 0 {
                        state.buffer.drop_last()
                    } else {
                        state.buffer
                    },
                    ..state
                },
                Outcome::Edited,
            ),
            Key::ClearLine => (SessionState { buffer: Seq::empty(), ..state }, Outcome::Edited),
            Key::Up => (
                SessionState {
                    buffer: shown(older(state.recall)),
                    recall: older(state.recall),
                    ..state
                },
                Outcome::Edited,
            ),
            Key::Down => (
                SessionState {
                    buffer: shown(newer(state.recall)),
                    recall: newer(state.recall),
                    ..state
                },
                Outcome::Edited,
            ),
            Key::Escape => (SessionState { halted: Some(false), ..state }, Outcome::Ended),
            Key::Interrupt => (SessionState { halted: Some(true), ..state }, Outcome::Interrupted),
            Key::EngineMove => {
                let (game, outcome) = engine_turn(state.game, offer);
                (SessionState { game, ..state }, outcome)
            },
            Key::Enter | Key::Other => (state, Outcome::Ignored),
        }
    }
}

/// The state and the outcome after any key.
pub open spec fn pressed(state: SessionState, key: Key, offer: Option<Move>) -> (
    SessionState,
    Outcome,
) {
    if key == Key::Enter {
        step(state, state.buffer, offer)
    } else {
        touched(state, key, offer)
    }
}

/// In which phase a state is.
pub open spec fn phase_of(state: SessionState) -> Phase {
    match state.halted {
        Some(interrupted) => Phase::Halted { interrupted },
        None => if state.buffer.len() == 0 {
            Phase::Idle
        } else {
            Phase::AwaitingCommit
        },
    }
}

/// The state in which a session over `fen` begins.
pub open spec fn fresh(fen: Seq<char>) -> SessionState {
    SessionState {
        game: crate::game::opening(fen),
        buffer: Seq::empty(),
        recall: Recall { lines: Seq::empty(), cursor: 0 },
        halted: None,
        echo: Seq::empty(),
    }
}

/// The invariant of a state: its record is well formed and every position
/// in it is what the engine made of the one before and its move, and the
/// cursor of its history points at a line or is at rest.
pub open spec fn sound(state: SessionState) -> bool {
    &&& well_formed(state.game)
    &&& linked(state.game)
    &&& state.recall.cursor <= state.recall.lines.len()
}

/// The exit code of the process for a session that has ended: 0 after an
/// ordinary end, 130 after an interrupt.
pub fn exit_code(interrupted: bool) -> (code: i32)
    ensures
        code == if interrupted {
            130i32
        } else {
            0i32
        },
{
    if interrupted {
        130
    } else {
        0
    }
}

/// Whether two texts are the same, character for character.
fn same_text(left: &str, right: &str) -> (same: bool)
    ensures
        same == (left@ == right@),
{
    String::from_str(left) == String::from_str(right)
}

/// Reads a committed line as a command.
pub fn classify(text: &str) -> (command: Command)
    ensures
        command == command_of(text@),
{
    if text.unicode_len() == 0 {
        Command::Quit
    } else if same_text(text, "undo") {
        Command::Undo
    } else if same_text(text, "?") {
        Command::CountMoves
    } else if same_text(text, "bot") {
        Command::EngineMove
    } else {
        Command::Play
    }
}

impl Outcome {
    /// The success flag of an outcome: whether what was asked for was done.
    pub fn succeeded(&self) -> (flag: bool)
        ensures
            flag == succeeded(*self),
    {
        match self {
            Outcome::NothingToUndo | Outcome::EngineIdle | Outcome::Rejected | Outcome::Ignored => {
                false
            },
            _ => true,
        }
    }
}

/// The session controller.
pub struct Session {
    game: GameHistoryStack,
    buffer: InputBuffer,
    recall: CommandHistory,
    halted: Option<bool>,
    echo: String,
}

impl View for Session {
    type V = SessionState;

    closed spec fn view(&self) -> SessionState {
        SessionState {
            game: self.game@,
            buffer: self.buffer@,
            recall: self.recall@,
            halted: self.halted,
            echo: self.echo@,
        }
    }
}

impl Session {
    /// The invariant of the controller: see `sound`.
    pub open spec fn wf(&self) -> bool {
        sound(self@)
    }

    /// A session at the starting position of chess.
    pub fn new() -> (session: Session)
        ensures
            session.wf(),
            session@ == fresh(crate::engine::start_fen()),
    {
        Session::at(Position::start())
    }

    /// A session that begins at `initial`.
    pub fn at(initial: Position) -> (session: Session)
        ensures
            session.wf(),
            session@ == fresh(initial@),
    {
        Session {
            game: GameHistoryStack::new(initial),
            buffer: InputBuffer::new(),
            recall: CommandHistory::new(),
            halted: None,
            echo: String::new(),
        }
    }

    /// The record of the game.
    pub fn game(&self) -> (game: &GameHistoryStack)
        ensures
            game@ == self@.game,
    {
        &self.game
    }

    /// The line being typed.
    pub fn buffer(&self) -> (buffer: &InputBuffer)
        ensures
            buffer@ == self@.buffer,
    {
        &self.buffer
    }

    /// The lines committed so far.
    pub fn history(&self) -> (history: &CommandHistory)
        ensures
            history@ == self@.recall,
    {
        &self.recall
    }

    /// The line committed last, for the status line to echo.
    pub fn last_committed(&self) -> (text: &String)
        ensures
            text@ == self@.echo,
    {
        &self.echo
    }

    /// `Some(interrupted)` once the session has ended.
    pub fn halted(&self) -> (halted: Option<bool>)
        ensures
            halted == self@.halted,
    {
        self.halted
    }

    /// The phase of the controller.
    pub fn phase(&self) -> (phase: Phase)
        ensures
            phase == phase_of(self@),
    {
        match self.halted {
            Some(interrupted) => Phase::Halted { interrupted },
            None => if self.buffer.is_empty() {
                Phase::Idle
            } else {
                Phase::AwaitingCommit
            },
        }
    }

    /// The current position.
    pub fn current(&self) -> (position: &Position)
        requires
            self.wf(),
        ensures
            position@ == current_fen(self@.game),
    {
        self.game.current()
    }

    /// The number of moves played.
    pub fn moves_played(&self) -> (count: usize)
        requires
            self.wf(),
        ensures
            count == plies(self@.game),
    {
        self.game.moves_played()
    }

    /// Plays `offer` if it is a legal move of the current position.
    fn play(&mut self, offer: Option<Move>) -> (done: bool)
        requires
            old(self).wf(),
        ensures
            final(self).wf(),
            done == played(old(self)@.game, offer).is_some(),
            final(self)@ == (SessionState {
                game: if done {
                    played(old(self)@.game, offer)->0
                } else {
                    old(self)@.game
                },
                ..old(self)@
            }),
    {
        match offer {
            Some(mv) => match self.game.current().apply(mv) {
                Some(reached) => {
                    self.game.push(mv, reached);
                    true
                },
                None => false,
            },
            None => false,
        }
    }

    /// The engine command, `offer` being what the engine came up with.
    fn take_engine_turn(&mut self, offer: Option<Move>) -> (outcome: Outcome)
        requires
            old(self).wf(),
        ensures
            final(self).wf(),
            final(self)@ == (SessionState {
                game: engine_turn(old(self)@.game, offer).0,
                ..old(self)@
            }),
            outcome == engine_turn(old(self)@.game, offer).1,
    {
        if self.game.current().legal_move_count() == 0 {
            Outcome::EngineIdle
        } else if self.play(offer) {
            match offer {
                Some(mv) => Outcome::EngineMoved(mv),
                None => Outcome::EngineIdle,
            }
        } else {
            Outcome::EngineIdle
        }
    }

    /// What the committed line does to the record.
    fn rule(&mut self, text: &str, offer: Option<Move>) -> (outcome: Outcome)
        requires
            old(self).wf(),
        ensures
            final(self).wf(),
            final(self)@ == (SessionState {
                game: ruling(old(self)@.game, text@, offer).0,
                ..old(self)@
            }),
            outcome == ruling(old(self)@.game, text@, offer).1,
    {
        match classify(text) {
            Command::Quit => Outcome::Ended,
            Command::Undo => if self.game.undo() {
                Outcome::Undone
            } else {
                Outcome::NothingToUndo
            },
            Command::CountMoves => Outcome::LegalMoves(self.game.current().legal_move_count()),
            Command::EngineMove => self.take_engine_turn(offer),
            Command::Play => {
                let found = self.game.current().parse_and_validate(text);
                if self.play(found) {
                    match found {
                        Some(mv) => Outcome::Moved(mv),
                        None => Outcome::Rejected,
                    }
                } else {
                    Outcome::Rejected
                }
            },
        }
    }

    /// Commits `text`, the engine having offered `offer`: the commit as a
    /// function of its inputs. The offer matters to the engine command alone.
    pub fn commit_with(&mut self, text: &str, offer: Option<Move>) -> (outcome: Outcome)
        requires
            old(self).wf(),
        ensures
            final(self).wf(),
            (final(self)@, outcome) == step(old(self)@, text@, offer),
    {
        if self.halted.is_some() {
            return Outcome::Ignored;
        }
        let outcome = self.rule(text, offer);
        self.recall.commit(text);
        self.buffer.clear();
        self.echo = String::from_str(text);
        if let Outcome::Ended = outcome {
            self.halted = Some(false);
        }
        outcome
    }

    /// Asks the engine for a move where the engine command would play one:
    /// the session is running and the current position has a legal move and
    /// room for the search. There the engine offers a move that can be
    /// played; anywhere else it is not asked and there is no offer.
    fn consult(&self) -> (offer: Option<Move>)
        requires
            self.wf(),
        ensures
            offer is Some <==> engine_answers(self@),
            offer is Some ==> reached(current_fen(self@.game), offer->0) is Some,
    {
        if self.halted.is_none() {
            self.game.current().search_best_move(SEARCH_DEPTH)
        } else {
            None
        }
    }

    /// Commits one line of text. For the engine command the engine is
    /// searched first, and the commit is that of the line with the engine's
    /// offer, whatever the offer is; every other line is settled by the line
    /// and the state alone.
    pub fn commit(&mut self, text: &str) -> (outcome: Outcome)
        requires
            old(self).wf(),
        ensures
            final(self).wf(),
            exists|offer: Option<Move>| (final(self)@, outcome) == step(old(self)@, text@, offer),
            command_of(text@) != Command::EngineMove ==> (final(self)@, outcome) == step(
                old(self)@,
                text@,
                None,
            ),
            command_of(text@) == Command::EngineMove && engine_answers(old(self)@) ==> {
                &&& outcome is EngineMoved
                &&& plies(final(self)@.game) == plies(old(self)@.game) + 1
            },
    {
        let offer = match classify(text) {
            Command::EngineMove => self.consult(),
            _ => None,
        };
        self.commit_with(text, offer)
    }

    /// Handles one key, the engine having offered `offer`: the key as a
    /// function of its inputs.
    pub fn press_with(&mut self, key: Key, offer: Option<Move>) -> (outcome: Outcome)
        requires
            old(self).wf(),
        ensures
            final(self).wf(),
            (final(self)@, outcome) == pressed(old(self)@, key, offer),
    {
        if let Key::Enter = key {
            let text = self.buffer.as_text();
            return self.commit_with(text.as_str(), offer);
        }
        if self.halted.is_some() {
            return Outcome::Ignored;
        }
        match key {
            Key::Char(c) => {
                self.buffer.insert(c);
                Outcome::Edited
            },
            Key::Backspace => {
                self.buffer.delete_last();
                Outcome::Edited
            },
            Key::ClearLine => {
                self.buffer.clear();
                Outcome::Edited
            },
            Key::Up => {
                let text = self.recall.recall_older();
                self.buffer.replace(text.as_str());
                Outcome::Edited
            },
            Key::Down => {
                let text = self.recall.recall_newer();
                self.buffer.replace(text.as_str());
                Outcome::Edited
            },
            Key::Escape => {
                self.halted = Some(false);
                Outcome::Ended
            },
            Key::Interrupt => {
                self.halted = Some(true);
                Outcome::Interrupted
            },
            Key::EngineMove => self.take_engine_turn(offer),
            Key::Enter | Key::Other => Outcome::Ignored,
        }
    }

    /// Handles one key. Where the key lets the engine move, the engine is
    /// searched first and the key is handled with its offer, whatever the
    /// offer is; every other key is settled by the key and the state alone.
    pub fn press(&mut self, key: Key) -> (outcome: Outcome)
        requires
            old(self).wf(),
        ensures
            final(self).wf(),
            exists|offer: Option<Move>| (final(self)@, outcome) == pressed(old(self)@, key, offer),
            !asks_engine(old(self)@, key) ==> (final(self)@, outcome) == pressed(
                old(self)@,
                key,
                None,
            ),
            asks_engine(old(self)@, key) && engine_answers(old(self)@) ==> {
                &&& outcome is EngineMoved
                &&& plies(final(self)@.game) == plies(old(self)@.game) + 1
            },
    {
        let asks = match key {
            Key::EngineMove => true,
            Key::Enter => {
                let text = self.buffer.as_text();
                match classify(text.as_str()) {
                    Command::EngineMove => true,
                    _ => false,
                }
            },
            _ => false,
        };
        let offer = if asks {
            self.consult()
        } else {
            None
        };
        self.press_with(key, offer)
    }
}

/// Whether the engine is asked in a state and has a move to offer: the
/// session is running, and the current position has a legal move and room
/// for the search.
pub open spec fn engine_answers(state: SessionState) -> bool {
    &&& state.halted is None
    &&& legal_move_count_of(current_fen(state.game)) > 0
    &&& has_room_to_search(current_fen(state.game))
}

/// Whether a key in a state is one that lets the engine move.
pub open spec fn asks_engine(state: SessionState, key: Key) -> bool {
    key == Key::EngineMove || (key == Key::Enter && command_of(state.buffer)
        == Command::EngineMove)
}

/// The record of a session stays what the engine made it: whatever line is
/// committed and whatever the engine offers, a state that is sound stays
/// sound, so that every position of its record comes from the one before it
/// by its move.
pub proof fn step_keeps_the_record(state: SessionState, text: Seq<char>, offer: Option<Move>)
    requires
        sound(state),
    ensures
        sound(step(state, text, offer).0),
{
    let game = state.game;
    lemma_undone_linked(game);
    assert forall|mv: Move, fen: Seq<char>|
        reached(current_fen(game), mv) == Some(fen) implies linked(
        #[trigger] pushed(game, mv, fen),
    ) by {
        linked_is_kept(game, mv, fen);
    }
}

/// The same for any key.
pub proof fn press_keeps_the_record(state: SessionState, key: Key, offer: Option<Move>)
    requires
        sound(state),
    ensures
        sound(pressed(state, key, offer).0),
{
    step_keeps_the_record(state, state.buffer, offer);
    let game = state.game;
    assert forall|mv: Move, fen: Seq<char>|
        reached(current_fen(game), mv) == Some(fen) implies linked(
        #[trigger] pushed(game, mv, fen),
    ) by {
        linked_is_kept(game, mv, fen);
    }
}

/// A session begins sound and idle.
pub proof fn fresh_is_sound(fen: Seq<char>)
    ensures
        sound(fresh(fen)),
        phase_of(fresh(fen)) == Phase::Idle,
{
}

/// Once a session has ended nothing moves it: no line and no key changes the
/// state.
pub proof fn halted_is_final(state: SessionState, text: Seq<char>, key: Key, offer: Option<Move>)
    requires
        state.halted is Some,
    ensures
        step(state, text, offer) == (state, Outcome::Ignored),
        pressed(state, key, offer) == (state, Outcome::Ignored),
{
}

/// A line that is not played leaves the record as it was, and the record
/// changes only with an outcome that counts as a success.
pub proof fn failure_changes_no_record(state: SessionState, text: Seq<char>, offer: Option<Move>)
    ensures
        !succeeded(step(state, text, offer).1) ==> step(state, text, offer).0.game == state.game,
{
}

} // verus!
