//! From raw input to a command and its typed arguments: the normalizer that
//! strips what the protocol ignores, the tokenizer that splits a line into
//! identifier, name and arguments, and the decoder of the arguments.

use crate::api::{Colour, ColouredMove, Move, StoneStatus, Vertex};
use crate::text::{
    char_is_control, char_is_whitespace, chars_are_blank, chars_of, find_from, is_blank,
    is_control, is_whitespace, lowered, lowered_chars, parse_unsigned, position, spells, split,
    split_chars, string_of, subrange, unsigned_of, words_of,
};
use vstd::prelude::*;

verus! {

// ---------------------------------------------------------------------
// The normalizer
// ---------------------------------------------------------------------

/// What the normalizer emits for the character `c`, where `last` is the
/// character it emitted last (a line feed before the first one) and
/// `in_comment` says whether a `#` was seen since the last line feed.
///
/// A line feed is kept unless it follows a line feed. Control characters,
/// `#` and what stands in a comment are dropped. A space or a tab becomes
/// one space unless it follows white space. Every other character is kept.
pub open spec fn emitted(c: char, last: char, in_comment: bool) -> Option<char> {
    if c == '\n' {
        if last == '\n' {
            None
        } else {
            Some('\n')
        }
    } else if is_control(c) || c == '#' || in_comment {
        None
    } else if c == ' ' || c == '\t' {
        if is_whitespace(last) {
            None
        } else {
            Some(' ')
        }
    } else {
        Some(c)
    }
}

/// Whether the normalizer is in a comment after the character `c`: a `#`
/// opens a comment and the next line feed closes it.
pub open spec fn comment_after(c: char, in_comment: bool) -> bool {
    if c == '\n' {
        false
    } else if c == '#' {
        true
    } else {
        in_comment
    }
}

/// The character that the normalizer emitted last, after `c`.
pub open spec fn last_after(c: char, last: char, in_comment: bool) -> char {
    match emitted(c, last, in_comment) {
        Some(e) => e,
        None => last,
    }
}

/// What the normalizer makes of `s` when it starts in the given state.
pub open spec fn normalized_from(s: Seq<char>, last: char, in_comment: bool) -> Seq<char>
    decreases s.len(),
{
    if s.len() == 0 {
        Seq::empty()
    } else {
        let rest = normalized_from(
            s.drop_first(),
            last_after(s[0], last, in_comment),
            comment_after(s[0], in_comment),
        );
        match emitted(s[0], last, in_comment) {
            Some(e) => seq![e] + rest,
            None => rest,
        }
    }
}

/// What the normalizer makes of the input `s`: it starts at the beginning
/// of a line and outside a comment.
pub open spec fn normalized(s: Seq<char>) -> Seq<char> {
    normalized_from(s, '\n', false)
}

/// One step of the normalizer.
fn step(c: char, last: char, in_comment: bool) -> (r: (Option<char>, bool))
    ensures
        r.0 == emitted(c, last, in_comment),
        r.1 == comment_after(c, in_comment),
{
    if c == '\n' {
        if last == '\n' {
            (None, false)
        } else {
            (Some('\n'), false)
        }
    } else if c == '#' {
        (None, true)
    } else if in_comment || char_is_control(c) {
        (None, in_comment)
    } else if c == ' ' || c == '\t' {
        if char_is_whitespace(last) {
            (None, in_comment)
        } else {
            (Some(' '), in_comment)
        }
    } else {
        (Some(c), in_comment)
    }
}

/// Normalizes the characters of an input.
pub fn normalize_chars(input: &Vec<char>) -> (out: Vec<char>)
    ensures
        out@ == normalized(input@),
{
    let mut out: Vec<char> = Vec::new();
    let mut last: char = '\n';
    let mut in_comment = false;
    let mut i: usize = 0;
    assert(input@.skip(0) == input@);
    while i < input.len()
        invariant
            i <= input.len(),
            normalized(input@) == out@ + normalized_from(input@.skip(i as int), last, in_comment),
        decreases input.len() - i,
    {
        let c: char = input[i];
        let (emit, comment) = step(c, last, in_comment);
        proof {
            let here = input@.skip(i as int);
            assert(here[0] == c);
            assert(here.drop_first() == input@.skip(i + 1));
            let rest = normalized_from(
                input@.skip(i + 1),
                last_after(c, last, in_comment),
                comment,
            );
            match emit {
                Some(e) => {
                    assert(out@ + (seq![e] + rest) == out@.push(e) + rest);
                },
                None => {},
            }
        }
        match emit {
            Some(e) => {
                out.push(e);
                last = e;
            },
            None => {},
        }
        in_comment = comment;
        i += 1;
    }
    out
}

/// Strips from `input` all that the protocol ignores: comments, control
/// characters, blank lines, and white space at the start of a line or after
/// white space.
pub fn strip_input(input: &str) -> (output: String)
    ensures
        output@ == normalized(input@),
{
    let chars = chars_of(input);
    let out = normalize_chars(&chars);
    let s = string_of(&out, 0, out.len());
    assert(out@.subrange(0, out@.len() as int) == out@);
    s
}

/// Normalizing is idempotent from any state: what the normalizer emitted,
/// it emits again unchanged when it starts from the same last character.
pub proof fn lemma_normalized_from_idempotent(s: Seq<char>, last: char, in_comment: bool)
    ensures
        normalized_from(normalized_from(s, last, in_comment), last, false) == normalized_from(
            s,
            last,
            in_comment,
        ),
    decreases s.len(),
{
    if s.len() > 0 {
        let c = s[0];
        let next = last_after(c, last, in_comment);
        let tail = normalized_from(s.drop_first(), next, comment_after(c, in_comment));
        lemma_normalized_from_idempotent(s.drop_first(), next, comment_after(c, in_comment));
        match emitted(c, last, in_comment) {
            Some(e) => {
                let o = seq![e] + tail;
                assert(o[0] == e);
                assert(o.drop_first() == tail);
                assert(emitted(e, last, false) == Some(e));
                assert(comment_after(e, false) == false);
            },
            None => {},
        }
    }
}

/// Normalizing twice is normalizing once.
pub proof fn lemma_normalized_idempotent(s: Seq<char>)
    ensures
        normalized(normalized(s)) == normalized(s),
{
    lemma_normalized_from_idempotent(s, '\n', false);
}

/// The character before index `i` of `o`, or `last` before the first.
pub open spec fn before(o: Seq<char>, i: int, last: char) -> char {
    if i == 0 {
        last
    } else {
        o[i - 1]
    }
}

/// The shape of what the normalizer emits: no tab, no control character and
/// no `#`; no space after white space or at the start of a line; no line
/// feed after a line feed.
pub proof fn lemma_normalized_from_shape(s: Seq<char>, last: char, in_comment: bool)
    ensures
        forall|i: int|
            #![trigger normalized_from(s, last, in_comment)[i]]
            0 <= i < normalized_from(s, last, in_comment).len() ==> {
                let o = normalized_from(s, last, in_comment);
                &&& o[i] != '\t' && o[i] != '#' && !is_control(o[i])
                &&& o[i] == ' ' ==> !is_whitespace(before(o, i, last))
                &&& o[i] == '\n' ==> before(o, i, last) != '\n'
            },
    decreases s.len(),
{
    if s.len() > 0 {
        let c = s[0];
        let next = last_after(c, last, in_comment);
        let tail = normalized_from(s.drop_first(), next, comment_after(c, in_comment));
        lemma_normalized_from_shape(s.drop_first(), next, comment_after(c, in_comment));
        let o = normalized_from(s, last, in_comment);
        assert forall|i: int| 0 <= i < o.len() implies {
            &&& o[i] != '\t' && o[i] != '#' && !is_control(o[i])
            &&& o[i] == ' ' ==> !is_whitespace(before(o, i, last))
            &&& o[i] == '\n' ==> before(o, i, last) != '\n'
        } by {
            match emitted(c, last, in_comment) {
                Some(e) => {
                    if i > 0 {
                        assert(o[i] == tail[i - 1]);
                        assert(before(o, i, last) == before(tail, i - 1, e));
                    }
                },
                None => {
                    assert(o[i] == tail[i]);
                },
            }
        }
    }
}

/// Normalized input holds no tab, no space after white space and no space
/// at the start of a line: runs of spaces and tabs have collapsed, and
/// white space that led a line is gone.
pub proof fn lemma_normalized_shape(s: Seq<char>)
    ensures
        forall|i: int|
            #![trigger normalized(s)[i]]
            0 <= i < normalized(s).len() ==> {
                let o = normalized(s);
                &&& o[i] != '\t' && o[i] != '#' && !is_control(o[i])
                &&& o[i] == ' ' ==> !is_whitespace(before(o, i, '\n'))
                &&& o[i] == '\n' ==> before(o, i, '\n') != '\n'
            },
{
    lemma_normalized_from_shape(s, '\n', false);
}

/// Whether `s` is a run of spaces and tabs, at least one.
pub open spec fn is_run(s: Seq<char>) -> bool {
    s.len() > 0 && forall|i: int| 0 <= i < s.len() ==> (#[trigger] s[i] == ' ' || s[i] == '\t')
}

/// Outside a comment a run of spaces and tabs becomes a single space, and
/// nothing at all at the start of a line or after white space; what
/// follows the run is normalized as if that one space had stood there.
pub proof fn lemma_run_collapses(run: Seq<char>, rest: Seq<char>, last: char)
    requires
        is_run(run),
    ensures
        normalized_from(run + rest, last, false) == if is_whitespace(last) {
            normalized_from(rest, last, false)
        } else {
            seq![' '] + normalized_from(rest, ' ', false)
        },
    decreases run.len(),
{
    let s = run + rest;
    assert(s[0] == run[0]);
    let next = last_after(run[0], last, false);
    assert(is_whitespace(next));
    if run.len() == 1 {
        assert(s.drop_first() == rest);
    } else {
        let shorter = run.drop_first();
        assert(s.drop_first() == shorter + rest);
        assert(is_run(shorter)) by {
            assert forall|i: int| 0 <= i < shorter.len() implies (#[trigger] shorter[i] == ' '
                || shorter[i] == '\t') by {
                assert(shorter[i] == run[i + 1]);
            }
        }
        lemma_run_collapses(shorter, rest, next);
    }
}

// ---------------------------------------------------------------------
// The tokenizer
// ---------------------------------------------------------------------

/// A command as it was read from a line: the identifier if the line began
/// with one, the name of the command, and its arguments, undecoded.
#[derive(PartialEq, Debug)]
pub struct GTPCommand {
    pub id: Option<u32>,
    pub command: String,
    pub args: String,
}

/// What a command holds.
pub struct CommandText {
    pub id: Option<u32>,
    pub command: Seq<char>,
    pub args: Seq<char>,
}

impl View for GTPCommand {
    type V = CommandText;

    open spec fn view(&self) -> CommandText {
        CommandText { id: self.id, command: self.command@, args: self.args@ }
    }
}

/// What follows the separator at index `i` of `s`; nothing where `s` has
/// no separator.
pub open spec fn after(s: Seq<char>, i: int) -> Seq<char> {
    if i < s.len() {
        s.skip(i + 1)
    } else {
        Seq::empty()
    }
}

/// The identifier that the word `s` spells: an unsigned decimal literal
/// that fits in 32 bits.
pub open spec fn id_of(s: Seq<char>) -> Option<u32> {
    match unsigned_of(s, u32::MAX as nat) {
        Some(n) => Some(n as u32),
        None => None,
    }
}

/// Where the name of the command begins in `line`: after the first word
/// and its space where that word is an identifier, else at the start.
pub open spec fn name_start(line: Seq<char>) -> int {
    let i = position(line, ' ');
    if id_of(line.take(i)) is None {
        0
    } else if i < line.len() {
        i + 1
    } else {
        i
    }
}

/// The command on a normalized line without line feed.
///
/// A blank line holds none. Else the first word, up to the first space, is
/// the identifier if it spells one. The name is the next word, or the first
/// word where that is no identifier; a line without a name holds no
/// command. The arguments are all that follows the space after the name.
pub open spec fn tokenized(line: Seq<char>) -> Option<CommandText> {
    let region = line.skip(name_start(line));
    let j = position(region, ' ');
    if is_blank(line) || j == 0 {
        None
    } else {
        Some(
            CommandText {
                id: id_of(line.take(position(line, ' '))),
                command: region.take(j),
                args: after(region, j),
            },
        )
    }
}

/// The first line of `s`, without its line feed.
pub open spec fn first_line(s: Seq<char>) -> Seq<char> {
    s.take(position(s, '\n'))
}

/// The command that raw input holds: the one on the first line that is
/// left when the input is normalized.
pub open spec fn command_of(input: Seq<char>) -> Option<CommandText> {
    tokenized(first_line(normalized(input)))
}

/// Reads the command on the normalized line `line`.
pub fn tokenize_chars(line: &Vec<char>) -> (r: Option<GTPCommand>)
    ensures
        match r {
            Some(c) => tokenized(line@) == Some(c@),
            None => tokenized(line@) is None,
        },
{
    if chars_are_blank(line) {
        return None;
    }
    assert(line@.skip(0) == line@);
    let i: usize = find_from(line, 0, ' ');
    let first = subrange(line, 0, i);
    assert(first@.skip(0) == first@);
    assert(first@ == line@.take(i as int));
    let id: Option<u32> = match parse_unsigned(&first, 0, 0xffff_ffff) {
        Some(n) => Some(n as u32),
        None => None,
    };
    let start: usize = if id.is_none() {
        0
    } else if i < line.len() {
        i + 1
    } else {
        i
    };
    let j: usize = find_from(line, start, ' ');
    if j == start {
        return None;
    }
    let ghost region = line@.skip(start as int);
    let command = string_of(line, start, j);
    let args = if j < line.len() {
        string_of(line, j + 1, line.len())
    } else {
        String::new()
    };
    proof {
        assert(region.take(j - start) == line@.subrange(start as int, j as int));
        if j < line.len() {
            assert(region.skip(j - start + 1) == line@.subrange(j + 1, line.len() as int));
        }
    }
    Some(GTPCommand { id: id, command: command, args: args })
}

/// Reads the command on `line`, which is normalized and holds no line feed.
pub fn parse_command_from_stripped(line: &str) -> (r: Option<GTPCommand>)
    ensures
        match r {
            Some(c) => tokenized(line@) == Some(c@),
            None => tokenized(line@) is None,
        },
{
    let chars = chars_of(line);
    tokenize_chars(&chars)
}

/// Reads the command that raw `input` holds. Of several lines only the
/// first one that is neither blank nor a comment is read.
pub fn parse_command(input: &str) -> (r: Option<GTPCommand>)
    ensures
        match r {
            Some(c) => command_of(input@) == Some(c@),
            None => command_of(input@) is None,
        },
{
    let chars = chars_of(input);
    let clean = normalize_chars(&chars);
    assert(clean@.skip(0) == clean@);
    let end: usize = find_from(&clean, 0, '\n');
    let line = subrange(&clean, 0, end);
    assert(line@ == first_line(clean@));
    tokenize_chars(&line)
}

// ---------------------------------------------------------------------
// The decoder
// ---------------------------------------------------------------------

/// The types that an argument of a command can have.
#[derive(Clone, Copy, PartialEq, Eq, Debug, Structural)]
pub enum ArgType {
    ColourArg,
    VertexArg,
    MoveArg,
    ColouredMoveArg,
    StoneStatusArg,
}

/// A decoded argument.
#[derive(Clone, Copy, PartialEq, Eq, Debug, Structural)]
pub enum Argument {
    ArgColour(Colour),
    ArgVertex(Vertex),
    ArgMove(Move),
    ArgColouredMove(ColouredMove),
    ArgStoneStatus(StoneStatus),
}

/// The colour that `s` names, in any case: `w` or `white`, `b` or `black`.
pub open spec fn colour_of(s: Seq<char>) -> Option<Colour> {
    let word = lowered(s);
    if word == "w"@ || word == "white"@ {
        Some(Colour::White)
    } else if word == "b"@ || word == "black"@ {
        Some(Colour::Black)
    } else {
        None
    }
}

/// The move that `s` names: `pass` or `resign` in any case, else a vertex.
pub open spec fn move_of(s: Seq<char>) -> Option<Move> {
    let word = lowered(s);
    if word == "pass"@ {
        Some(Move::Pass)
    } else if word == "resign"@ {
        Some(Move::Resign)
    } else {
        match Vertex::named(s) {
            Some(v) => Some(Move::Stone(v)),
            None => None,
        }
    }
}

/// The status that `s` names, in any case: `alive`, `dead` or `seki`.
pub open spec fn stone_status_of(s: Seq<char>) -> Option<StoneStatus> {
    let word = lowered(s);
    if word == "alive"@ {
        Some(StoneStatus::Alive)
    } else if word == "dead"@ {
        Some(StoneStatus::Dead)
    } else if word == "seki"@ {
        Some(StoneStatus::Seki)
    } else {
        None
    }
}

/// Decodes a colour from the characters of a word.
pub fn colour_from_chars(word: &Vec<char>) -> (r: Option<Colour>)
    ensures
        r == colour_of(word@),
{
    let low = lowered_chars(word);
    if spells(&low, "w") || spells(&low, "white") {
        Some(Colour::White)
    } else if spells(&low, "b") || spells(&low, "black") {
        Some(Colour::Black)
    } else {
        None
    }
}

/// Decodes a move from the characters of a word.
pub fn move_from_chars(word: &Vec<char>) -> (r: Option<Move>)
    ensures
        r == move_of(word@),
{
    let low = lowered_chars(word);
    if spells(&low, "pass") {
        Some(Move::Pass)
    } else if spells(&low, "resign") {
        Some(Move::Resign)
    } else {
        match Vertex::from_chars(word) {
            Some(v) => Some(Move::Stone(v)),
            None => None,
        }
    }
}

/// Decodes a stone status from the characters of a word.
pub fn stone_status_from_chars(word: &Vec<char>) -> (r: Option<StoneStatus>)
    ensures
        r == stone_status_of(word@),
{
    let low = lowered_chars(word);
    if spells(&low, "alive") {
        Some(StoneStatus::Alive)
    } else if spells(&low, "dead") {
        Some(StoneStatus::Dead)
    } else if spells(&low, "seki") {
        Some(StoneStatus::Seki)
    } else {
        None
    }
}

/// Decodes a colour.
pub fn arg_parse_colour(input: &str) -> (r: Option<Colour>)
    ensures
        r == colour_of(input@),
{
    let word = chars_of(input);
    colour_from_chars(&word)
}

/// Decodes a vertex.
pub fn arg_parse_vertex(input: &str) -> (r: Option<Vertex>)
    ensures
        r == Vertex::named(input@),
{
    Vertex::from_str(input)
}

/// Decodes a move.
pub fn arg_parse_move(input: &str) -> (r: Option<Move>)
    ensures
        r == move_of(input@),
{
    let word = chars_of(input);
    move_from_chars(&word)
}

/// Decodes a stone status.
pub fn arg_parse_stone_status(input: &str) -> (r: Option<StoneStatus>)
    ensures
        r == stone_status_of(input@),
{
    let word = chars_of(input);
    stone_status_from_chars(&word)
}

/// How many words an argument of type `t` takes.
pub open spec fn words_taken(t: ArgType) -> int {
    match t {
        ArgType::ColouredMoveArg => 2,
        _ => 1,
    }
}

/// The argument of type `t` that the first words of `words` spell: one
/// word, or two for a coloured move, the colour and then the move.
pub open spec fn decoded_one(words: Seq<Seq<char>>, t: ArgType) -> Option<Argument> {
    match t {
        ArgType::ColourArg => match colour_of(words[0]) {
            Some(col) => Some(Argument::ArgColour(col)),
            None => None,
        },
        ArgType::VertexArg => match Vertex::named(words[0]) {
            Some(vrtx) => Some(Argument::ArgVertex(vrtx)),
            None => None,
        },
        ArgType::MoveArg => match move_of(words[0]) {
            Some(mv) => Some(Argument::ArgMove(mv)),
            None => None,
        },
        ArgType::StoneStatusArg => match stone_status_of(words[0]) {
            Some(st) => Some(Argument::ArgStoneStatus(st)),
            None => None,
        },
        ArgType::ColouredMoveArg => match (colour_of(words[0]), move_of(words[1])) {
            (Some(col), Some(mv)) => Some(
                Argument::ArgColouredMove(ColouredMove { player: col, mov: mv }),
            ),
            _ => None,
        },
    }
}

/// The arguments of the given types that `words` spell, from the left. All
/// or nothing: a word that is missing or does not decode fails the whole.
/// Words that are left over are not looked at.
pub open spec fn decoded(words: Seq<Seq<char>>, types: Seq<ArgType>) -> Option<Seq<Argument>>
    decreases types.len(),
{
    if types.len() == 0 {
        Some(Seq::empty())
    } else if words.len() < words_taken(types[0]) {
        None
    } else {
        match (
            decoded_one(words, types[0]),
            decoded(words.skip(words_taken(types[0])), types.drop_first()),
        ) {
            (Some(arg), Some(rest)) => Some(seq![arg] + rest),
            _ => None,
        }
    }
}

/// Decodes one argument of type `t` from the words `words[k..]`.
fn decode_one(words: &Vec<Vec<char>>, k: usize, t: ArgType) -> (r: Option<Argument>)
    requires
        k + words_taken(t) <= words.len(),
    ensures
        r == decoded_one(words_of(words@).skip(k as int), t),
{
    match t {
        ArgType::ColourArg => match colour_from_chars(&words[k]) {
            Some(col) => Some(Argument::ArgColour(col)),
            None => None,
        },
        ArgType::VertexArg => match Vertex::from_chars(&words[k]) {
            Some(vrtx) => Some(Argument::ArgVertex(vrtx)),
            None => None,
        },
        ArgType::MoveArg => match move_from_chars(&words[k]) {
            Some(mv) => Some(Argument::ArgMove(mv)),
            None => None,
        },
        ArgType::StoneStatusArg => match stone_status_from_chars(&words[k]) {
            Some(st) => Some(Argument::ArgStoneStatus(st)),
            None => None,
        },
        ArgType::ColouredMoveArg => match (
            colour_from_chars(&words[k]),
            move_from_chars(&words[k + 1]),
        ) {
            (Some(col), Some(mv)) => Some(
                Argument::ArgColouredMove(ColouredMove { player: col, mov: mv }),
            ),
            _ => None,
        },
    }
}

/// Decodes the arguments `input` of a command that expects the given
/// `types`: the words between single spaces, taken from the left.
pub fn parse_args(input: &str, types: &[ArgType]) -> (r: Option<Vec<Argument>>)
    ensures
        match r {
            Some(args) => decoded(split(input@, ' '), types@) == Some(args@),
            None => decoded(split(input@, ' '), types@) is None,
        },
{
    let chars = chars_of(input);
    let words = split_chars(&chars, ' ');
    let ghost all = split(input@, ' ');
    let mut vect: Vec<Argument> = Vec::new();
    let mut k: usize = 0;
    let mut i: usize = 0;
    assert(all.skip(0) == all);
    assert(types@.skip(0) == types@);
    assert(match decoded(all, types@) {
        Some(rest) => Some(vect@ + rest),
        None => None,
    } == decoded(all, types@)) by {
        if let Some(rest) = decoded(all, types@) {
            assert(vect@ + rest == rest);
        }
    }
    while i < types.len()
        invariant
            i <= types.len(),
            k <= words.len(),
            all == split(input@, ' '),
            all == words_of(words@),
            decoded(all, types@) == match decoded(all.skip(k as int), types@.skip(i as int)) {
                Some(rest) => Some(vect@ + rest),
                None => None,
            },
        decreases types.len() - i,
    {
        let t: ArgType = types[i];
        let taken: usize = match t {
            ArgType::ColouredMoveArg => 2,
            _ => 1,
        };
        let ghost here = all.skip(k as int);
        let ghost left = types@.skip(i as int);
        assert(left[0] == t);
        if words.len() - k < taken {
            return None;
        }
        let arg: Argument = match decode_one(&words, k, t) {
            Some(arg) => arg,
            None => {
                return None;
            },
        };
        proof {
            assert(left.drop_first() == types@.skip(i + 1));
            assert(here.skip(taken as int) == all.skip(k + taken));
            if let Some(rest) = decoded(all.skip(k + taken), types@.skip(i + 1)) {
                assert(vect@ + (seq![arg] + rest) == vect@.push(arg) + rest);
            }
        }
        vect.push(arg);
        k += taken;
        i += 1;
    }
    assert(vect@ + Seq::<Argument>::empty() == vect@);
    Some(vect)
}

} // verus!
