//! The commands of the protocol: their names, the arguments that each one
//! takes, the replies that the answers of an engine turn into, and the
//! text of a response.

use crate::api::{Capability, Colour, ColouredMove, GTPError, Move, Score, Vertex};
use crate::parsing::{decoded, parse_args, ArgType, Argument};
use crate::text::{
    chars_of, decimal_text, parse_unsigned, push_decimal, spells, split, split_chars, string_of,
    unsigned_of, words_of,
};
use vstd::prelude::*;

verus! {

// ---------------------------------------------------------------------
// The names of the commands
// ---------------------------------------------------------------------

/// The commands that the handler knows by name. Every other name is
/// `Custom`: a command of the engine's own.
#[derive(Clone, Copy, PartialEq, Eq, Debug, Structural)]
pub enum CommandName {
    ProtocolVersion,
    Name,
    Version,
    KnownCommand,
    ListCommands,
    Quit,
    Boardsize,
    ClearBoard,
    Komi,
    Play,
    Genmove,
    Loadsgf,
    RegGenmove,
    FixedHandicap,
    SetFreeHandicap,
    PlaceFreeHandicap,
    Undo,
    TimeSettings,
    TimeLeft,
    FinalStatusList,
    FinalScore,
    Showboard,
    Custom,
}

/// The command that `name` names.
pub open spec fn command_named(name: Seq<char>) -> CommandName {
    if name == "protocol_version"@ {
        CommandName::ProtocolVersion
    } else if name == "name"@ {
        CommandName::Name
    } else if name == "version"@ {
        CommandName::Version
    } else if name == "known_command"@ {
        CommandName::KnownCommand
    } else if name == "list_commands"@ {
        CommandName::ListCommands
    } else if name == "quit"@ {
        CommandName::Quit
    } else if name == "boardsize"@ {
        CommandName::Boardsize
    } else if name == "clear_board"@ {
        CommandName::ClearBoard
    } else if name == "komi"@ {
        CommandName::Komi
    } else if name == "play"@ {
        CommandName::Play
    } else if name == "genmove"@ {
        CommandName::Genmove
    } else if name == "loadsgf"@ {
        CommandName::Loadsgf
    } else if name == "reg_genmove"@ {
        CommandName::RegGenmove
    } else if name == "fixed_handicap"@ {
        CommandName::FixedHandicap
    } else if name == "set_free_handicap"@ {
        CommandName::SetFreeHandicap
    } else if name == "place_free_handicap"@ {
        CommandName::PlaceFreeHandicap
    } else if name == "undo"@ {
        CommandName::Undo
    } else if name == "time_settings"@ {
        CommandName::TimeSettings
    } else if name == "time_left"@ {
        CommandName::TimeLeft
    } else if name == "final_status_list"@ {
        CommandName::FinalStatusList
    } else if name == "final_score"@ {
        CommandName::FinalScore
    } else if name == "showboard"@ {
        CommandName::Showboard
    } else {
        CommandName::Custom
    }
}

/// The optional operation that a command needs, if it needs one. Loading a
/// game record and the report of the time left go with `reg_genmove`.
pub open spec fn gate(command: CommandName) -> Option<Capability> {
    match command {
        CommandName::Loadsgf => Some(Capability::RegGenmove),
        CommandName::RegGenmove => Some(Capability::RegGenmove),
        CommandName::TimeLeft => Some(Capability::RegGenmove),
        CommandName::FixedHandicap => Some(Capability::FixedHandicap),
        CommandName::SetFreeHandicap => Some(Capability::SetFreeHandicap),
        CommandName::PlaceFreeHandicap => Some(Capability::PlaceFreeHandicap),
        CommandName::Undo => Some(Capability::Undo),
        CommandName::TimeSettings => Some(Capability::TimeSettings),
        CommandName::FinalStatusList => Some(Capability::FinalStatusList),
        CommandName::FinalScore => Some(Capability::FinalScore),
        CommandName::Showboard => Some(Capability::Showboard),
        _ => None,
    }
}

/// Each name of the protocol names its own command: no two of them are
/// the same word.
pub proof fn lemma_command_names()
    ensures
        command_named("protocol_version"@) == CommandName::ProtocolVersion,
        command_named("name"@) == CommandName::Name,
        command_named("version"@) == CommandName::Version,
        command_named("known_command"@) == CommandName::KnownCommand,
        command_named("list_commands"@) == CommandName::ListCommands,
        command_named("quit"@) == CommandName::Quit,
        command_named("boardsize"@) == CommandName::Boardsize,
        command_named("clear_board"@) == CommandName::ClearBoard,
        command_named("komi"@) == CommandName::Komi,
        command_named("play"@) == CommandName::Play,
        command_named("genmove"@) == CommandName::Genmove,
        command_named("loadsgf"@) == CommandName::Loadsgf,
        command_named("reg_genmove"@) == CommandName::RegGenmove,
        command_named("fixed_handicap"@) == CommandName::FixedHandicap,
        command_named("set_free_handicap"@) == CommandName::SetFreeHandicap,
        command_named("place_free_handicap"@) == CommandName::PlaceFreeHandicap,
        command_named("undo"@) == CommandName::Undo,
        command_named("time_settings"@) == CommandName::TimeSettings,
        command_named("time_left"@) == CommandName::TimeLeft,
        command_named("final_status_list"@) == CommandName::FinalStatusList,
        command_named("final_score"@) == CommandName::FinalScore,
        command_named("showboard"@) == CommandName::Showboard,
{
    reveal_strlit("protocol_version");
    assert("protocol_version"@.len() == 16 && "protocol_version"@[0] == 'p');
    reveal_strlit("name");
    assert("name"@.len() == 4 && "name"@[0] == 'n');
    reveal_strlit("version");
    assert("version"@.len() == 7 && "version"@[0] == 'v');
    reveal_strlit("known_command");
    assert("known_command"@.len() == 13 && "known_command"@[0] == 'k');
    reveal_strlit("list_commands");
    assert("list_commands"@.len() == 13 && "list_commands"@[0] == 'l');
    reveal_strlit("quit");
    assert("quit"@.len() == 4 && "quit"@[0] == 'q');
    reveal_strlit("boardsize");
    assert("boardsize"@.len() == 9 && "boardsize"@[0] == 'b');
    reveal_strlit("clear_board");
    assert("clear_board"@.len() == 11 && "clear_board"@[0] == 'c');
    reveal_strlit("komi");
    assert("komi"@.len() == 4 && "komi"@[0] == 'k');
    reveal_strlit("play");
    assert("play"@.len() == 4 && "play"@[0] == 'p');
    reveal_strlit("genmove");
    assert("genmove"@.len() == 7 && "genmove"@[0] == 'g');
    reveal_strlit("loadsgf");
    assert("loadsgf"@.len() == 7 && "loadsgf"@[0] == 'l');
    reveal_strlit("reg_genmove");
    assert("reg_genmove"@.len() == 11 && "reg_genmove"@[0] == 'r');
    reveal_strlit("fixed_handicap");
    assert("fixed_handicap"@.len() == 14 && "fixed_handicap"@[0] == 'f');
    reveal_strlit("set_free_handicap");
    assert("set_free_handicap"@.len() == 17 && "set_free_handicap"@[0] == 's');
    reveal_strlit("place_free_handicap");
    assert("place_free_handicap"@.len() == 19 && "place_free_handicap"@[0] == 'p');
    reveal_strlit("undo");
    assert("undo"@.len() == 4 && "undo"@[0] == 'u');
    reveal_strlit("time_settings");
    assert("time_settings"@.len() == 13 && "time_settings"@[0] == 't');
    reveal_strlit("time_left");
    assert("time_left"@.len() == 9 && "time_left"@[0] == 't');
    reveal_strlit("final_status_list");
    assert("final_status_list"@.len() == 17 && "final_status_list"@[0] == 'f');
    reveal_strlit("final_score");
    assert("final_score"@.len() == 11 && "final_score"@[0] == 'f');
    reveal_strlit("showboard");
    assert("showboard"@.len() == 9 && "showboard"@[0] == 's');
}

/// Finds the command that `name` names.
pub fn name_command(name: &str) -> (command: CommandName)
    ensures
        command == command_named(name@),
{
    let word = chars_of(name);
    if spells(&word, "protocol_version") {
        CommandName::ProtocolVersion
    } else if spells(&word, "name") {
        CommandName::Name
    } else if spells(&word, "version") {
        CommandName::Version
    } else if spells(&word, "known_command") {
        CommandName::KnownCommand
    } else if spells(&word, "list_commands") {
        CommandName::ListCommands
    } else if spells(&word, "quit") {
        CommandName::Quit
    } else if spells(&word, "boardsize") {
        CommandName::Boardsize
    } else if spells(&word, "clear_board") {
        CommandName::ClearBoard
    } else if spells(&word, "komi") {
        CommandName::Komi
    } else if spells(&word, "play") {
        CommandName::Play
    } else if spells(&word, "genmove") {
        CommandName::Genmove
    } else if spells(&word, "loadsgf") {
        CommandName::Loadsgf
    } else if spells(&word, "reg_genmove") {
        CommandName::RegGenmove
    } else if spells(&word, "fixed_handicap") {
        CommandName::FixedHandicap
    } else if spells(&word, "set_free_handicap") {
        CommandName::SetFreeHandicap
    } else if spells(&word, "place_free_handicap") {
        CommandName::PlaceFreeHandicap
    } else if spells(&word, "undo") {
        CommandName::Undo
    } else if spells(&word, "time_settings") {
        CommandName::TimeSettings
    } else if spells(&word, "time_left") {
        CommandName::TimeLeft
    } else if spells(&word, "final_status_list") {
        CommandName::FinalStatusList
    } else if spells(&word, "final_score") {
        CommandName::FinalScore
    } else if spells(&word, "showboard") {
        CommandName::Showboard
    } else {
        CommandName::Custom
    }
}

// ---------------------------------------------------------------------
// From an answer of the engine to a reply
// ---------------------------------------------------------------------

/// The text that reports the error `e`.
pub open spec fn error_text(e: GTPError) -> Seq<char>
    recommends
        e != GTPError::NotImplemented,
{
    match e {
        GTPError::InvalidBoardSize => "invalid board size"@,
        GTPError::InvalidMove => "invalid move"@,
        GTPError::BadVertexList => "bad vertex list"@,
        GTPError::BoardNotEmpty => "board not empty"@,
        GTPError::CannotUndo => "cannot undo"@,
        GTPError::CannotScore => "cannot score"@,
        GTPError::NotImplemented => Seq::empty(),
    }
}

/// The reply that has nothing to say but that the command succeeded.
pub open spec fn done() -> (bool, Seq<char>) {
    (true, Seq::empty())
}

/// The reply that reports a syntax error.
pub open spec fn syntax_error() -> (bool, Seq<char>) {
    (false, "syntax error"@)
}

/// The reply that refuses a command.
pub open spec fn unknown_command() -> (bool, Seq<char>) {
    (false, "unknown command"@)
}

/// The reply to a command whose success has nothing to say.
pub open spec fn done_text(r: Result<(), GTPError>) -> (bool, Seq<char>) {
    match r {
        Ok(_) => done(),
        Err(e) => (false, error_text(e)),
    }
}

/// The reply that tells a move, or reports why there is none.
pub open spec fn move_text(r: Result<Move, GTPError>) -> (bool, Seq<char>) {
    match r {
        Ok(mv) => (true, mv.text()),
        Err(e) => (false, error_text(e)),
    }
}

/// The texts of `stones`, with `sep` between one and the next.
pub open spec fn joined(stones: Seq<Vertex>, sep: Seq<char>) -> Seq<char>
    decreases stones.len(),
{
    if stones.len() == 0 {
        Seq::empty()
    } else if stones.len() == 1 {
        stones[0].text()
    } else {
        joined(stones.drop_last(), sep) + sep + stones.last().text()
    }
}

/// The reply that lists stones with `sep` between them, or reports why
/// there are none.
pub open spec fn stones_text(r: Result<Seq<Vertex>, GTPError>, sep: Seq<char>) -> (
    bool,
    Seq<char>,
) {
    match r {
        Ok(stones) => (true, joined(stones, sep)),
        Err(e) => (false, error_text(e)),
    }
}

/// The text of a score: `0` for a draw, else the winner's letter, `+` and
/// the margin.
pub open spec fn score_text(score: Score) -> Seq<char> {
    match score {
        Score::Draw => "0"@,
        Score::Win(Colour::White, margin) => "w+"@ + margin@,
        Score::Win(Colour::Black, margin) => "b+"@ + margin@,
    }
}

/// The reply that reports the score, or why there is none.
pub open spec fn scored_text(r: Result<Score, GTPError>) -> (bool, Seq<char>) {
    match r {
        Ok(score) => (true, score_text(score)),
        Err(e) => (false, error_text(e)),
    }
}

/// What a reply holds.
pub open spec fn view_of(reply: (bool, String)) -> (bool, Seq<char>) {
    (reply.0, reply.1@)
}

/// The failure that reports the error `e`.
pub fn failure(e: GTPError) -> (out: (bool, String))
    requires
        e != GTPError::NotImplemented,
    ensures
        view_of(out) == (false, error_text(e)),
{
    let text = match e {
        GTPError::InvalidBoardSize => "invalid board size".to_string(),
        GTPError::InvalidMove => "invalid move".to_string(),
        GTPError::BadVertexList => "bad vertex list".to_string(),
        GTPError::BoardNotEmpty => "board not empty".to_string(),
        GTPError::CannotUndo => "cannot undo".to_string(),
        GTPError::CannotScore => "cannot score".to_string(),
        GTPError::NotImplemented => String::new(),
    };
    (false, text)
}

/// The reply to a command whose success has nothing to say.
pub fn done_reply(r: Result<(), GTPError>) -> (out: (bool, String))
    requires
        r != Err::<(), GTPError>(GTPError::NotImplemented),
    ensures
        view_of(out) == done_text(r),
{
    match r {
        Ok(_) => (true, String::new()),
        Err(e) => failure(e),
    }
}

/// The reply that tells a move, or reports why there is none.
pub fn move_reply(r: Result<Move, GTPError>) -> (out: (bool, String))
    requires
        r != Err::<Move, GTPError>(GTPError::NotImplemented),
    ensures
        view_of(out) == move_text(r),
{
    match r {
        Ok(mv) => (true, mv.to_string()),
        Err(e) => failure(e),
    }
}

/// Writes `stones` one after the other, with `sep` between them.
pub fn join_vertices(stones: &Vec<Vertex>, sep: &str) -> (out: String)
    ensures
        out@ == joined(stones@, sep@),
{
    let mut out = String::new();
    let mut i: usize = 0;
    while i < stones.len()
        invariant
            i <= stones.len(),
            out@ == joined(stones@.take(i as int), sep@),
        decreases stones.len() - i,
    {
        let ghost before = out@;
        if i > 0 {
            out.append(sep);
        }
        stones[i].push_to(&mut out);
        i += 1;
        proof {
            let now = stones@.take(i as int);
            assert(now.drop_last() == stones@.take(i - 1));
            assert(now.last() == stones@[i - 1]);
            if i == 1 {
                assert(before + now[0].text() == now[0].text());
            }
        }
    }
    assert(stones@.take(i as int) == stones@);
    out
}

/// The reply that lists the stones of an answer with `sep` between them, or
/// reports its error.
pub fn stones_reply(r: Result<Vec<Vertex>, GTPError>, sep: &str) -> (out: (bool, String))
    requires
        r != Err::<Vec<Vertex>, GTPError>(GTPError::NotImplemented),
    ensures
        view_of(out) == stones_text(
            match r {
                Ok(stones) => Ok(stones@),
                Err(e) => Err(e),
            },
            sep@,
        ),
{
    match r {
        Ok(stones) => (true, join_vertices(&stones, sep)),
        Err(e) => failure(e),
    }
}

/// The reply that reports the score, or why there is none.
pub fn score_reply(r: Result<Score, GTPError>) -> (out: (bool, String))
    requires
        r != Err::<Score, GTPError>(GTPError::NotImplemented),
    ensures
        view_of(out) == scored_text(r),
{
    match r {
        Ok(Score::Draw) => (true, "0".to_string()),
        Ok(Score::Win(Colour::White, margin)) => {
            let mut text = "w+".to_string();
            text.append(margin.as_str());
            (true, text)
        },
        Ok(Score::Win(Colour::Black, margin)) => {
            let mut text = "b+".to_string();
            text.append(margin.as_str());
            (true, text)
        },
        Err(e) => failure(e),
    }
}

/// The text of a truth value.
pub open spec fn bool_text(b: bool) -> Seq<char> {
    if b {
        "true"@
    } else {
        "false"@
    }
}

/// The reply that tells a truth value.
pub fn bool_reply(b: bool) -> (out: (bool, String))
    ensures
        view_of(out) == (true, bool_text(b)),
{
    if b {
        (true, "true".to_string())
    } else {
        (true, "false".to_string())
    }
}

/// Whether the answer `r` of an optional operation shows that the engine
/// implements it: every answer does but "not implemented".
pub fn implemented<R>(r: &Result<R, GTPError>) -> (b: bool)
    ensures
        b == !(r matches Err(e) && e == GTPError::NotImplemented),
{
    match r {
        Err(GTPError::NotImplemented) => false,
        _ => true,
    }
}

// ---------------------------------------------------------------------
// The arguments of the commands
// ---------------------------------------------------------------------

/// The number that `s` spells, if it fits the machine's word.
pub open spec fn count_of(s: Seq<char>) -> Option<usize> {
    match unsigned_of(s, usize::MAX as nat) {
        Some(n) => Some(n as usize),
        None => None,
    }
}

/// Reads a count from the characters `v[from..]`.
pub fn count_from_chars(v: &Vec<char>, from: usize) -> (r: Option<usize>)
    requires
        from <= v.len(),
    ensures
        r == count_of(v@.skip(from as int)),
{
    match parse_unsigned(v, from, usize::MAX as u64) {
        Some(n) => Some(n as usize),
        None => None,
    }
}

/// Reads a count.
pub fn parse_count(s: &str) -> (r: Option<usize>)
    ensures
        r == count_of(s@),
{
    let v = chars_of(s);
    assert(v@.skip(0) == v@);
    count_from_chars(&v, 0)
}

/// The move that the arguments of `play` spell: one coloured move.
pub open spec fn play_args(args: Seq<char>) -> Option<ColouredMove> {
    match decoded(split(args, ' '), seq![ArgType::ColouredMoveArg]) {
        Some(decoded) => match decoded[0] {
            Argument::ArgColouredMove(mv) => Some(mv),
            _ => None,
        },
        None => None,
    }
}

/// Reads the arguments of `play`.
pub fn parse_play(args: &str) -> (r: Option<ColouredMove>)
    ensures
        r == play_args(args@),
{
    let mut types: Vec<ArgType> = Vec::new();
    types.push(ArgType::ColouredMoveArg);
    assert(types@ == seq![ArgType::ColouredMoveArg]);
    match parse_args(args, types.as_slice()) {
        Some(vect) => {
            if vect.len() == 0 {
                return None;
            }
            match vect[0] {
                Argument::ArgColouredMove(mv) => Some(mv),
                _ => None,
            }
        },
        None => None,
    }
}

/// The arguments of `loadsgf`: the name of a file, and the number of the
/// move to stop at where a second word gives one, else the largest number.
/// Further words are not looked at.
pub open spec fn loadsgf_args(args: Seq<char>) -> Option<(Seq<char>, usize)> {
    let words = split(args, ' ');
    if words.len() < 2 {
        Some((words[0], usize::MAX))
    } else {
        match count_of(words[1]) {
            Some(n) => Some((words[0], n)),
            None => None,
        }
    }
}

/// Reads the arguments of `loadsgf`.
pub fn parse_loadsgf(args: &str) -> (r: Option<(String, usize)>)
    ensures
        match r {
            Some((filename, n)) => loadsgf_args(args@) == Some((filename@, n)),
            None => loadsgf_args(args@) is None,
        },
{
    let chars = chars_of(args);
    let words = split_chars(&chars, ' ');
    assert(words.len() >= 1);
    assert(words_of(words@)[0] == words[0]@);
    let filename = string_of(&words[0], 0, words[0].len());
    assert(filename@ == words[0]@) by {
        assert(words[0]@.subrange(0, words[0]@.len() as int) == words[0]@);
    }
    if words.len() < 2 {
        Some((filename, usize::MAX))
    } else {
        assert(words_of(words@)[1] == words[1]@);
        assert(words[1]@.skip(0) == words[1]@);
        match count_from_chars(&words[1], 0) {
            Some(n) => Some((filename, n)),
            None => None,
        }
    }
}

/// The arguments of `time_settings`: three counts. Further words are not
/// looked at.
pub open spec fn time_args(args: Seq<char>) -> Option<(usize, usize, usize)> {
    let words = split(args, ' ');
    if words.len() < 3 {
        None
    } else {
        match (count_of(words[0]), count_of(words[1]), count_of(words[2])) {
            (Some(a), Some(b), Some(c)) => Some((a, b, c)),
            _ => None,
        }
    }
}

/// Reads the arguments of `time_settings`.
pub fn parse_time(args: &str) -> (r: Option<(usize, usize, usize)>)
    ensures
        r == time_args(args@),
{
    let chars = chars_of(args);
    let words = split_chars(&chars, ' ');
    if words.len() < 3 {
        return None;
    }
    proof {
        assert(words_of(words@)[0] == words[0]@);
        assert(words_of(words@)[1] == words[1]@);
        assert(words_of(words@)[2] == words[2]@);
        assert(words[0]@.skip(0) == words[0]@);
        assert(words[1]@.skip(0) == words[1]@);
        assert(words[2]@.skip(0) == words[2]@);
    }
    match (
        count_from_chars(&words[0], 0),
        count_from_chars(&words[1], 0),
        count_from_chars(&words[2], 0),
    ) {
        (Some(a), Some(b), Some(c)) => Some((a, b, c)),
        _ => None,
    }
}

/// The vertices that `words` name, if every word names one.
pub open spec fn vertices_of(words: Seq<Seq<char>>) -> Option<Seq<Vertex>> {
    if forall|i: int| 0 <= i < words.len() ==> (#[trigger] Vertex::named(words[i])) is Some {
        Some(Seq::new(words.len(), |i: int| Vertex::named(words[i])->0))
    } else {
        None
    }
}

/// Reads a list of vertices, one word each.
pub fn parse_vertices(args: &str) -> (r: Option<Vec<Vertex>>)
    ensures
        match r {
            Some(stones) => vertices_of(split(args@, ' ')) == Some(stones@),
            None => vertices_of(split(args@, ' ')) is None,
        },
{
    let chars = chars_of(args);
    let words = split_chars(&chars, ' ');
    let ghost all = split(args@, ' ');
    let mut lst: Vec<Vertex> = Vec::new();
    let mut i: usize = 0;
    while i < words.len()
        invariant
            i <= words.len(),
            all == split(args@, ' '),
            all == words_of(words@),
            lst.len() == i,
            forall|j: int| 0 <= j < i ==> Vertex::named(all[j]) == Some(#[trigger] lst@[j]),
        decreases words.len() - i,
    {
        assert(all[i as int] == words[i as int]@);
        match Vertex::from_chars(&words[i]) {
            Some(vrtx) => {
                lst.push(vrtx);
            },
            None => {
                assert(Vertex::named(all[i as int]) is None);
                return None;
            },
        }
        i += 1;
    }
    proof {
        assert forall|j: int| 0 <= j < all.len() implies (#[trigger] Vertex::named(
            all[j],
        )) is Some by {
            assert(Vertex::named(all[j]) == Some(lst@[j]));
        }
        assert(vertices_of(all)->0 =~= lst@) by {
            assert forall|j: int| 0 <= j < all.len() implies vertices_of(all)->0[j] == lst@[j] by {
                assert(Vertex::named(all[j]) == Some(lst@[j]));
            }
        }
    }
    Some(lst)
}

// ---------------------------------------------------------------------
// The text of a response
// ---------------------------------------------------------------------

/// The identifier of a command as its response repeats it: in decimal, or
/// nothing where the command had none.
pub open spec fn id_text(id: Option<u32>) -> Seq<char> {
    match id {
        Some(n) => decimal_text(n as nat),
        None => Seq::empty(),
    }
}

/// The line of a response: `=` for success or `?` for failure, the
/// identifier, a space, and the text.
pub open spec fn response_text(success: bool, id: Option<u32>, text: Seq<char>) -> Seq<char> {
    seq![if success { '=' } else { '?' }] + id_text(id) + seq![' '] + text
}

/// Writes the line of a response.
pub fn format_response(success: bool, id: Option<u32>, text: &str) -> (line: String)
    ensures
        line@ == response_text(success, id, text@),
{
    let mut line = String::new();
    line.push(
        if success {
            '='
        } else {
            '?'
        },
    );
    match id {
        Some(i) => {
            push_decimal(&mut line, i as u64);
        },
        None => {},
    }
    line.push(' ');
    line.append(text);
    assert(line@ == response_text(success, id, text@));
    line
}

/// What goes out for a response: the line and the empty line that ends it,
/// or nothing where there is no response.
pub open spec fn framed(response: Seq<char>) -> Seq<char> {
    if response.len() == 0 {
        response
    } else {
        response + "\n\n"@
    }
}

/// The commands that every engine serves, one on each line.
pub open spec fn basic_commands() -> Seq<char> {
    "protocol_version\nname\nversion\nknown_command\nlist_commands\nquit\nboardsize\nclear_board\nkomi\nplay\ngenmove"@
}

/// The given names, each on a line of its own, after a line feed.
pub open spec fn lines(names: Seq<Seq<char>>) -> Seq<char>
    decreases names.len(),
{
    if names.len() == 0 {
        Seq::empty()
    } else {
        lines(names.drop_last()) + seq!['\n'] + names.last()
    }
}

} // verus!
