//! The vocabulary shared with the engine: colours, vertices, moves, the
//! errors an engine may report, and the `Gtp` trait that an engine
//! implements.

use crate::text::{
    chars_of, decimal_text, is_float_literal, lemma_decimal_round_trip, lemma_decimal_text,
    parse_unsigned, push_decimal, texts_of, unsigned_of,
};
use vstd::prelude::*;

verus! {

/// The errors that an engine may report.
///
/// Each operation of `Gtp` documents the errors that it may answer with;
/// an engine answers with no other.
#[derive(Clone, Copy, PartialEq, Eq, Debug, Structural)]
pub enum GTPError {
    NotImplemented,
    InvalidBoardSize,
    InvalidMove,
    BadVertexList,
    BoardNotEmpty,
    CannotUndo,
    CannotScore,
}

/// A player, Black or White.
#[derive(Clone, Copy, PartialEq, Eq, Debug, Structural)]
pub enum Colour {
    Black,
    White,
}

/// A vertex of the board: a column and a row, each from 1 to 25.
#[derive(Clone, Copy, PartialEq, Eq, Debug, Structural)]
pub struct Vertex {
    x: u8,  // letter
    y: u8,  // number
}

/// A move: placing a stone, passing or resigning.
#[derive(Clone, Copy, PartialEq, Eq, Debug, Structural)]
pub enum Move {
    Stone(Vertex),
    Pass,
    Resign,
}

/// A move together with the player who makes it.
#[derive(Clone, Copy, PartialEq, Eq, Debug, Structural)]
pub struct ColouredMove {
    pub player: Colour,
    pub mov: Move,
}

/// The status of a stone: alive, dead or seki.
#[derive(Clone, Copy, PartialEq, Eq, Debug, Structural)]
pub enum StoneStatus {
    Alive,
    Seki,
    Dead,
}

/// The outcome of a game as the engine scores it. The margin of a win is
/// carried as the text that the protocol prints after the winner's letter.
#[derive(PartialEq, Eq, Debug)]
pub enum Score {
    Draw,
    Win(Colour, String),
}

/// The optional operations of an engine, one for each entry of the table of
/// commands that a handler enables.
#[derive(Clone, Copy, PartialEq, Eq, Debug, Structural)]
pub enum Capability {
    RegGenmove,
    Undo,
    FixedHandicap,
    PlaceFreeHandicap,
    SetFreeHandicap,
    TimeSettings,
    FinalStatusList,
    FinalScore,
    Showboard,
}

// ---------------------------------------------------------------------
// The engine
// ---------------------------------------------------------------------

/// A call of one operation of an engine, with what is handed to it.
pub enum Call {
    Name,
    Version,
    ClearBoard,
    Komi(Seq<char>),
    Boardsize(usize),
    Play(ColouredMove),
    Genmove(Colour),
    RegGenmove(Colour),
    Undo,
    FixedHandicap(usize),
    PlaceFreeHandicap(usize),
    SetFreeHandicap(Seq<Vertex>),
    TimeSettings(usize, usize, usize),
    FinalStatusList(StoneStatus),
    FinalScore,
    Showboard,
    CustomCommand(Seq<char>, Seq<char>),
    KnownCustomCommand(Seq<char>),
    ListCustomCommands,
    Loadsgf(Seq<char>, usize),
}

/// What an engine hands back from a call.
pub enum Answer {
    /// Nothing: the call cannot fail and has nothing to say.
    Nothing,
    /// A text, as a name.
    Text(Seq<char>),
    /// Yes or no.
    Flag(bool),
    /// Success or an error.
    Done(Result<(), GTPError>),
    /// A move, or an error.
    Moved(Result<Move, GTPError>),
    /// A list of stones, or an error.
    Stones(Result<Seq<Vertex>, GTPError>),
    /// A score, or an error.
    Scored(Result<Score, GTPError>),
    /// A board, or an error: the size, the black stones, the white stones,
    /// and the stones captured by each side.
    Board(Result<(usize, Seq<Vertex>, Seq<Vertex>, usize, usize), GTPError>),
    /// The outcome of a command of the engine's own: whether it succeeded,
    /// and what to print.
    Outcome(bool, Seq<char>),
    /// A list of names.
    Names(Seq<Seq<char>>),
}

/// Whether `r` is an answer that an optional operation may give: "not
/// implemented" exactly where the engine lacks the operation, and
/// otherwise success or one of the errors that the operation documents.
pub open spec fn answers<R>(r: Result<R, GTPError>, implemented: bool, errors: Set<GTPError>)
    -> bool {
    match r {
        Ok(_) => implemented,
        Err(GTPError::NotImplemented) => !implemented,
        Err(e) => implemented && errors.contains(e),
    }
}

/// Whether `answer` is one that an engine with the given capabilities may
/// give to `call`: of the right kind, and with no error but those that the
/// operation documents.
///
/// A mandatory operation never answers "not implemented". An optional one
/// answers it exactly where the engine lacks the operation. A board is at
/// most 25 by 25.
pub open spec fn documented(call: Call, answer: Answer, capabilities: Set<Capability>) -> bool {
    match (call, answer) {
        (Call::Name, Answer::Text(_)) => true,
        (Call::Version, Answer::Text(_)) => true,
        (Call::ClearBoard, Answer::Nothing) => true,
        (Call::Komi(_), Answer::Nothing) => true,
        (Call::Boardsize(_), Answer::Done(r)) => answers(
            r,
            true,
            set![GTPError::InvalidBoardSize],
        ),
        (Call::Play(_), Answer::Done(r)) => answers(r, true, set![GTPError::InvalidMove]),
        (Call::Genmove(_), Answer::Moved(r)) => r is Ok,
        (Call::RegGenmove(_), Answer::Moved(r)) => answers(
            r,
            capabilities.contains(Capability::RegGenmove),
            Set::empty(),
        ),
        (Call::Undo, Answer::Done(r)) => answers(
            r,
            capabilities.contains(Capability::Undo),
            set![GTPError::CannotUndo],
        ),
        (Call::FixedHandicap(_), Answer::Stones(r)) => answers(
            r,
            capabilities.contains(Capability::FixedHandicap),
            set![GTPError::BoardNotEmpty],
        ),
        (Call::PlaceFreeHandicap(_), Answer::Stones(r)) => answers(
            r,
            capabilities.contains(Capability::PlaceFreeHandicap),
            set![GTPError::BoardNotEmpty],
        ),
        (Call::SetFreeHandicap(_), Answer::Done(r)) => answers(
            r,
            capabilities.contains(Capability::SetFreeHandicap),
            set![GTPError::BadVertexList, GTPError::BoardNotEmpty],
        ),
        (Call::TimeSettings(_, _, _), Answer::Done(r)) => answers(
            r,
            capabilities.contains(Capability::TimeSettings),
            Set::empty(),
        ),
        (Call::FinalStatusList(_), Answer::Stones(r)) => answers(
            r,
            capabilities.contains(Capability::FinalStatusList),
            Set::empty(),
        ),
        (Call::FinalScore, Answer::Scored(r)) => answers(
            r,
            capabilities.contains(Capability::FinalScore),
            set![GTPError::CannotScore],
        ),
        (Call::Showboard, Answer::Board(r)) => answers(
            r,
            capabilities.contains(Capability::Showboard),
            Set::empty(),
        ) && (r matches Ok(board) ==> 1 <= board.0 <= 25),
        (Call::CustomCommand(_, _), Answer::Outcome(_, _)) => true,
        (Call::KnownCustomCommand(_), Answer::Flag(_)) => true,
        (Call::ListCustomCommands, Answer::Names(_)) => true,
        (Call::Loadsgf(_, _), Answer::Done(_)) => true,
        _ => false,
    }
}

/// The list of stones that an engine handed back, as an answer.
pub open spec fn stones_answer(r: Result<Vec<Vertex>, GTPError>) -> Answer {
    Answer::Stones(
        match r {
            Ok(stones) => Ok(stones@),
            Err(e) => Err(e),
        },
    )
}

/// The board that an engine handed back, as an answer.
pub open spec fn board_answer(
    r: Result<(usize, Vec<Vertex>, Vec<Vertex>, usize, usize), GTPError>,
) -> Answer {
    Answer::Board(
        match r {
            Ok((size, black, white, black_cp, white_cp)) => Ok(
                (size, black@, white@, black_cp, white_cp),
            ),
            Err(e) => Err(e),
        },
    )
}

/// The callbacks of an engine.
///
/// The first seven operations are mandatory. The others are optional: an
/// engine that lacks one answers `Err(GTPError::NotImplemented)` from it,
/// always, and an engine that has one never gives that answer.
/// `capabilities` says which ones the engine implements; no operation
/// changes that.
///
/// The clauses below are what an engine owes to the handler, the same three
/// for every operation: the call is one that `answered` tells of, the
/// answer is one that `documented` allows, and the capabilities stay. The
/// handler is proved for engines that keep them. An engine that is not
/// itself verified should be wrapped so that a broken clause stops the
/// program.
pub trait Gtp {
    /// The optional operations that the engine implements: none, unless
    /// the engine says otherwise.
    open spec fn capabilities(&self) -> Set<Capability> {
        Set::empty()
    }

    /// Whether the game is in the state that `clear_board` leaves. An
    /// engine that keeps no game always is.
    open spec fn is_cleared(&self) -> bool {
        true
    }

    /// Whether the engine, in the state `self`, may take `call` by going
    /// to the state `after` and handing back `answer`. This is the
    /// engine's own account of what it does; the contracts of the handler
    /// tell in its terms which calls were made. An engine that gives no
    /// account allows everything.
    open spec fn answered(&self, call: Call, after: &Self, answer: Answer) -> bool {
        true
    }

    /// The name of the engine.
    fn name(&self) -> (r: String)
        ensures
            self.answered(Call::Name, self, Answer::Text(r@)),
    ;

    /// The version of the engine.
    fn version(&self) -> (r: String)
        ensures
            self.answered(Call::Version, self, Answer::Text(r@)),
    ;

    /// Clears the board. Cannot fail.
    fn clear_board(&mut self)
        ensures
            old(self).answered(Call::ClearBoard, final(self), Answer::Nothing),
            final(self).is_cleared(),
            final(self).capabilities() == old(self).capabilities(),
    ;

    /// Sets the komi, which comes as the literal of a floating-point
    /// number. Cannot fail: any number is accepted, however absurd.
    fn komi(&mut self, literal: &str)
        requires
            is_float_literal(literal@),
        ensures
            old(self).answered(Call::Komi(literal@), final(self), Answer::Nothing),
            final(self).capabilities() == old(self).capabilities(),
    ;

    /// Sets the board size; `Err(InvalidBoardSize)` if the size is not
    /// supported. The protocol has no board beyond 25 by 25.
    fn boardsize(&mut self, size: usize) -> (r: Result<(), GTPError>)
        ensures
            old(self).answered(Call::Boardsize(size), final(self), Answer::Done(r)),
            documented(Call::Boardsize(size), Answer::Done(r), old(self).capabilities()),
            final(self).capabilities() == old(self).capabilities(),
    ;

    /// Plays the move; `Err(InvalidMove)` if it is not legal. The same
    /// player may move twice in a row.
    fn play(&mut self, mov: ColouredMove) -> (r: Result<(), GTPError>)
        ensures
            old(self).answered(Call::Play(mov), final(self), Answer::Done(r)),
            documented(Call::Play(mov), Answer::Done(r), old(self).capabilities()),
            final(self).capabilities() == old(self).capabilities(),
    ;

    /// Chooses a move for `player` and plays it. Cannot fail.
    fn genmove(&mut self, player: Colour) -> (mov: Move)
        ensures
            old(self).answered(Call::Genmove(player), final(self), Answer::Moved(Ok(mov))),
            final(self).capabilities() == old(self).capabilities(),
    ;

    /// Chooses a move for `player` without playing it. Never fails where
    /// it is implemented.
    fn reg_genmove(&self, player: Colour) -> (r: Result<Move, GTPError>)
        ensures
            self.answered(Call::RegGenmove(player), self, Answer::Moved(r)),
            documented(Call::RegGenmove(player), Answer::Moved(r), self.capabilities()),
    ;

    /// Takes back the last move; `Err(CannotUndo)` if there is none to take
    /// back.
    fn undo(&mut self) -> (r: Result<(), GTPError>)
        ensures
            old(self).answered(Call::Undo, final(self), Answer::Done(r)),
            documented(Call::Undo, Answer::Done(r), old(self).capabilities()),
            final(self).capabilities() == old(self).capabilities(),
    ;

    /// Places `number` handicap stones for Black at the fixed points and
    /// returns them; `Err(BoardNotEmpty)` if the board holds a stone. The
    /// handler asks for 2 to 9 stones, but for the one stone that it asks
    /// for when it probes the engine.
    fn fixed_handicap(&mut self, number: usize) -> (r: Result<Vec<Vertex>, GTPError>)
        ensures
            old(self).answered(Call::FixedHandicap(number), final(self), stones_answer(r)),
            documented(Call::FixedHandicap(number), stones_answer(r), old(self).capabilities()),
            final(self).capabilities() == old(self).capabilities(),
    ;

    /// Places up to `number` handicap stones for Black where the engine
    /// likes and returns them; `Err(BoardNotEmpty)` if the board holds a
    /// stone.
    fn place_free_handicap(&mut self, number: usize) -> (r: Result<Vec<Vertex>, GTPError>)
        ensures
            old(self).answered(Call::PlaceFreeHandicap(number), final(self), stones_answer(r)),
            documented(
                Call::PlaceFreeHandicap(number),
                stones_answer(r),
                old(self).capabilities(),
            ),
            final(self).capabilities() == old(self).capabilities(),
    ;

    /// Places the given handicap stones for Black; `Err(BoardNotEmpty)` if
    /// the board holds a stone, `Err(BadVertexList)` if the list cannot be
    /// used.
    fn set_free_handicap(&mut self, stones: &[Vertex]) -> (r: Result<(), GTPError>)
        ensures
            old(self).answered(Call::SetFreeHandicap(stones@), final(self), Answer::Done(r)),
            documented(
                Call::SetFreeHandicap(stones@),
                Answer::Done(r),
                old(self).capabilities(),
            ),
            final(self).capabilities() == old(self).capabilities(),
    ;

    /// Tells the engine the time settings of the game. Never fails where
    /// it is implemented.
    fn time_settings(&mut self, main_time: usize, byoyomi_time: usize, byoyomi_stones: usize) -> (r:
        Result<(), GTPError>)
        ensures
            old(self).answered(
                Call::TimeSettings(main_time, byoyomi_time, byoyomi_stones),
                final(self),
                Answer::Done(r),
            ),
            documented(
                Call::TimeSettings(main_time, byoyomi_time, byoyomi_stones),
                Answer::Done(r),
                old(self).capabilities(),
            ),
            final(self).capabilities() == old(self).capabilities(),
    ;

    /// The stones of both colours that have the given status, in the
    /// engine's opinion. Never fails where it is implemented.
    fn final_status_list(&self, status: StoneStatus) -> (r: Result<Vec<Vertex>, GTPError>)
        ensures
            self.answered(Call::FinalStatusList(status), self, stones_answer(r)),
            documented(Call::FinalStatusList(status), stones_answer(r), self.capabilities()),
    ;

    /// The engine's count of the final score; `Err(CannotScore)` if it
    /// cannot tell.
    fn final_score(&self) -> (r: Result<Score, GTPError>)
        ensures
            self.answered(Call::FinalScore, self, Answer::Scored(r)),
            documented(Call::FinalScore, Answer::Scored(r), self.capabilities()),
    ;

    /// The board as the engine sees it: its size, from 1 to 25, the black
    /// stones, the white stones, and the stones captured by each side.
    /// Never fails where it is implemented.
    fn showboard(&self) -> (r: Result<(usize, Vec<Vertex>, Vec<Vertex>, usize, usize), GTPError>)
        ensures
            self.answered(Call::Showboard, self, board_answer(r)),
            documented(Call::Showboard, board_answer(r), self.capabilities()),
    ;

    /// Runs a command of the engine's own and returns whether it succeeded
    /// and what to print.
    fn custom_command(&mut self, command: &str, args: &str) -> (r: (bool, String))
        ensures
            old(self).answered(
                Call::CustomCommand(command@, args@),
                final(self),
                Answer::Outcome(r.0, r.1@),
            ),
            final(self).capabilities() == old(self).capabilities(),
    ;

    /// Whether `command` is a command of the engine's own.
    fn known_custom_command(&self, command: &str) -> (known: bool)
        ensures
            self.answered(Call::KnownCustomCommand(command@), self, Answer::Flag(known)),
    ;

    /// The commands of the engine's own.
    fn list_custom_commands(&self) -> (names: Vec<String>)
        ensures
            self.answered(Call::ListCustomCommands, self, Answer::Names(texts_of(names@))),
    ;

    /// Loads the game record in the file `filename` up to move `n`. Any
    /// error says that it could not.
    fn loadsgf(&mut self, filename: &str, n: usize) -> (r: Result<(), GTPError>)
        ensures
            old(self).answered(Call::Loadsgf(filename@, n), final(self), Answer::Done(r)),
            final(self).capabilities() == old(self).capabilities(),
    ;
}

// ---------------------------------------------------------------------
// Vertices and their text
// ---------------------------------------------------------------------

/// Whether `(x, y)` are the coordinates of a vertex.
pub open spec fn on_board(x: int, y: int) -> bool {
    1 <= x <= 25 && 1 <= y <= 25
}

/// The letter of column `x`. The letter `I` names no column: column 9 is
/// `J`.
pub open spec fn column_letter(x: int) -> char {
    if x < 9 {
        (0x40 + x) as char
    } else {
        (0x41 + x) as char
    }
}

/// The column that the letter `c` names, in either case.
pub open spec fn column_of(c: char) -> Option<int> {
    let n = c as u32 as int;
    if 'A' <= c <= 'H' {
        Some(n - 0x40)
    } else if 'J' <= c <= 'Z' {
        Some(n - 0x41)
    } else if 'a' <= c <= 'h' {
        Some(n - 0x60)
    } else if 'j' <= c <= 'z' {
        Some(n - 0x61)
    } else {
        None
    }
}

/// The text of the vertex `(x, y)`: its column letter, then its row in
/// decimal.
pub open spec fn vertex_text(x: int, y: int) -> Seq<char> {
    seq![column_letter(x)] + decimal_text(y as nat)
}

/// The coordinates that `s` names: a column letter, then a row from 1 to 25
/// as an unsigned decimal literal, two or three characters in all.
pub open spec fn vertex_of(s: Seq<char>) -> Option<(int, int)> {
    if 2 <= s.len() <= 3 {
        match (column_of(s[0]), unsigned_of(s.skip(1), 25)) {
            (Some(x), Some(y)) => if y >= 1 {
                Some((x, y as int))
            } else {
                None
            },
            _ => None,
        }
    } else {
        None
    }
}

/// The text of a vertex names that vertex: for every column and row from 1
/// to 25, reading what was written gives the coordinates back.
pub proof fn lemma_vertex_round_trip(x: int, y: int)
    requires
        on_board(x, y),
    ensures
        vertex_of(vertex_text(x, y)) == Some((x, y)),
        Vertex::named(Vertex::at(x, y).text()) == Some(Vertex::at(x, y)),
{
    let s = vertex_text(x, y);
    lemma_decimal_text(y as nat);
    lemma_decimal_round_trip(y as nat, 25);
    assert(s.skip(1) == decimal_text(y as nat));
    assert(s[0] == column_letter(x));
    Vertex::lemma_at(x, y);
}

impl View for Vertex {
    type V = (int, int);

    /// The column and the row.
    closed spec fn view(&self) -> (int, int) {
        (self.x as int, self.y as int)
    }
}

impl Vertex {
    #[verifier::type_invariant]
    spec fn inv(&self) -> bool {
        on_board(self.x as int, self.y as int)
    }

    /// The vertex of column `x` and row `y`.
    pub closed spec fn at(x: int, y: int) -> Vertex {
        Vertex { x: x as u8, y: y as u8 }
    }

    /// The vertex that `s` names, if it names one.
    pub open spec fn named(s: Seq<char>) -> Option<Vertex> {
        match vertex_of(s) {
            Some((x, y)) => Some(Vertex::at(x, y)),
            None => None,
        }
    }

    /// The vertex at `(x, y)` has these coordinates.
    pub proof fn lemma_at(x: int, y: int)
        requires
            on_board(x, y),
        ensures
            Vertex::at(x, y)@ == (x, y),
    {
    }

    /// Two vertices are the same exactly when their coordinates are, and a
    /// vertex is the one at its coordinates.
    pub proof fn lemma_equal_by_coordinates(a: Vertex, b: Vertex)
        ensures
            (a@ == b@) <==> (a == b),
            Vertex::at(a@.0, a@.1) == a,
    {
    }

    /// The vertex of column `x` and row `y`, both from 1 to 25.
    pub fn from_coords(x: u8, y: u8) -> (r: Option<Vertex>)
        ensures
            r == if on_board(x as int, y as int) {
                Some(Vertex::at(x as int, y as int))
            } else {
                None
            },
    {
        if x == 0 || x > 25 || y == 0 || y > 25 {
            None
        } else {
            Some(Vertex { x: x, y: y })
        }
    }

    /// The vertex that `text` names, from `A1` to `Z25`. No column is named
    /// `I`.
    pub fn from_str(text: &str) -> (r: Option<Vertex>)
        ensures
            r == Vertex::named(text@),
    {
        let chars = chars_of(text);
        Vertex::from_chars(&chars)
    }

    /// The vertex that `chars` names.
    pub fn from_chars(chars: &Vec<char>) -> (r: Option<Vertex>)
        ensures
            r == Vertex::named(chars@),
    {
        if chars.len() < 2 || chars.len() > 3 {
            return None;
        }
        let c: char = chars[0];
        let n: u8 = if ('A' <= c && c <= 'Z') || ('a' <= c && c <= 'z') {
            c as u8
        } else {
            return None;
        };
        let x: u8 = if 'A' <= c && c <= 'H' {
            n - 0x40
        } else if 'J' <= c && c <= 'Z' {
            n - 0x41
        } else if 'a' <= c && c <= 'h' {
            n - 0x60
        } else if 'j' <= c && c <= 'z' {
            n - 0x61
        } else {
            return None;
        };
        match parse_unsigned(&chars, 1, 25) {
            Some(y) => {
                if y == 0 {
                    None
                } else {
                    Some(Vertex { x: x, y: y as u8 })
                }
            },
            None => None,
        }
    }

    /// The column and the row of this vertex.
    pub fn to_coords(&self) -> (r: (u8, u8))
        ensures
            (r.0 as int, r.1 as int) == self@,
            on_board(r.0 as int, r.1 as int),
    {
        proof {
            use_type_invariant(self);
        }
        (self.x, self.y)
    }

    /// The text of this vertex, such as `G12`.
    pub open spec fn text(&self) -> Seq<char> {
        vertex_text(self@.0, self@.1)
    }

    /// Appends the text of this vertex to `out`.
    pub fn push_to(&self, out: &mut String)
        ensures
            final(out)@ == old(out)@ + self.text(),
    {
        proof {
            use_type_invariant(self);
        }
        let letter: u8 = if self.x < 9 {
            0x40 + self.x
        } else {
            0x41 + self.x
        };
        out.push(letter as char);
        push_decimal(out, self.y as u64);
        assert(final(out)@ == old(out)@ + self.text());
    }

    /// The text of this vertex, such as `G12`.
    pub fn to_string(&self) -> (s: String)
        ensures
            s@ == self.text(),
    {
        let mut s = String::new();
        self.push_to(&mut s);
        s
    }
}

impl Move {
    /// The text of this move: the vertex of a stone, `pass` or `resign`.
    pub open spec fn text(&self) -> Seq<char> {
        match *self {
            Move::Stone(v) => v.text(),
            Move::Pass => "pass"@,
            Move::Resign => "resign"@,
        }
    }

    /// The text of this move, as the protocol writes it.
    pub fn to_string(&self) -> (s: String)
        ensures
            s@ == self.text(),
    {
        match *self {
            Move::Stone(vrtx) => vrtx.to_string(),
            Move::Pass => "pass".to_string(),
            Move::Resign => "resign".to_string(),
        }
    }
}

impl Colour {
    /// The text of this colour: `black` or `white`.
    pub open spec fn text(&self) -> Seq<char> {
        match *self {
            Colour::White => "white"@,
            Colour::Black => "black"@,
        }
    }

    /// The text of this colour, as the protocol writes it.
    pub fn to_string(&self) -> (s: String)
        ensures
            s@ == self.text(),
    {
        match *self {
            Colour::White => "white".to_string(),
            Colour::Black => "black".to_string(),
        }
    }
}

impl ColouredMove {
    /// The text of this move: the colour, then the move.
    pub open spec fn text(&self) -> Seq<char> {
        self.player.text() + self.mov.text()
    }

    /// The text of this move, as the protocol writes it.
    pub fn to_string(&self) -> (s: String)
        ensures
            s@ == self.text(),
    {
        let mut s = self.player.to_string();
        let m = self.mov.to_string();
        s.append(m.as_str());
        s
    }
}

} // verus!

