//! The handler: it probes an engine once for the optional operations that
//! it implements, and from then on routes each command to the engine and
//! turns the engine's answer into the text of a response.

use crate::api::{
    board_answer, documented, stones_answer, Answer, Call, Capability, Colour, GTPError, Gtp,
    StoneStatus, Vertex,
};
use crate::boarddrawer::{board_text, draw_board};
use crate::commands::{
    basic_commands, bool_reply, bool_text, command_named, count_of, done, done_reply, done_text,
    error_text, failure, format_response, framed, gate, id_text, implemented,
    lemma_command_names, lines, loadsgf_args, move_reply, move_text, name_command, parse_count,
    parse_loadsgf, parse_play, parse_time, parse_vertices, play_args, response_text, score_reply,
    scored_text, stones_reply, stones_text, syntax_error, time_args, unknown_command,
    vertices_of, view_of, CommandName,
};
use crate::parsing::{
    arg_parse_colour, arg_parse_stone_status, colour_of, command_of, parse_command,
    stone_status_of,
};
use crate::text::{
    chars_are_float_literal, chars_of, is_float_literal, push_decimal, split, texts_of,
};
use vstd::prelude::*;

verus! {

/// The table of the optional commands that an engine serves. It is filled
/// once, when the handler is made from the engine, and never changes.
pub struct BotHandler {
    genmove_regression: bool,
    undo: bool,
    fixed_handicap: bool,
    place_free_handicap: bool,
    set_free_handicap: bool,
    time_settings: bool,
    final_status_list: bool,
    final_score: bool,
    showboard: bool,
}

/// What the handler does with a command: it replies at once, or it puts a
/// call to the engine.
pub enum Plan {
    Reply(bool, Seq<char>),
    Ask(Call),
}

/// The plan that replies `reply`.
pub open spec fn reply_with(reply: (bool, Seq<char>)) -> Plan {
    Plan::Reply(reply.0, reply.1)
}

/// The text `text` where `b` holds, else nothing.
pub open spec fn when(b: bool, text: Seq<char>) -> Seq<char> {
    if b {
        text
    } else {
        Seq::empty()
    }
}

/// The commands over which the engine is at most asked, never changed.
pub open spec fn only_asks(command: CommandName) -> bool {
    match command {
        CommandName::ProtocolVersion
        | CommandName::Name
        | CommandName::Version
        | CommandName::KnownCommand
        | CommandName::ListCommands
        | CommandName::TimeLeft
        | CommandName::RegGenmove
        | CommandName::FinalStatusList
        | CommandName::FinalScore
        | CommandName::Showboard => true,
        _ => false,
    }
}

/// The number of handicap stones that `args` asks for, from 2 to `most`;
/// else the reply that refuses it: a syntax error for what is no number,
/// and a failure for a number out of range.
pub open spec fn handicap_of(args: Seq<char>, most: nat) -> Result<usize, (bool, Seq<char>)> {
    match count_of(args) {
        None => Err(syntax_error()),
        Some(n) => if 2 <= n <= most {
            Ok(n)
        } else {
            Err((false, "invalid number of stones"@))
        },
    }
}

/// The calls by which a handler probes an engine, in order: each optional
/// operation once, with an argument that does no harm, and at the end
/// `clear_board`, which wipes what the calls may have left.
pub open spec fn probes() -> Seq<Call> {
    seq![
        Call::RegGenmove(Colour::Black),
        Call::Undo,
        Call::FixedHandicap(1),
        Call::PlaceFreeHandicap(1),
        Call::SetFreeHandicap(seq![Vertex::at(2, 2)]),
        Call::TimeSettings(5, 0, 0),
        Call::FinalStatusList(StoneStatus::Alive),
        Call::FinalScore,
        Call::Showboard,
        Call::ClearBoard,
    ]
}

/// Whether the engine took the calls `calls`, one after the other and no
/// other, on its way from `before` to `after`.
pub open spec fn took<T: Gtp>(before: T, calls: Seq<Call>, after: T) -> bool
    decreases calls.len(),
{
    if calls.len() == 0 {
        after == before
    } else {
        exists|mid: T, answer: Answer|
            {
                &&& took(before, calls.drop_last(), mid)
                &&& #[trigger] mid.answered(calls.last(), &after, answer)
                &&& documented(calls.last(), answer, mid.capabilities())
            }
    }
}

/// One more call after calls that the engine took.
proof fn lemma_took_one_more<T: Gtp>(before: T, mid: T, after: T, k: int, answer: Answer)
    requires
        0 <= k < probes().len(),
        took(before, probes().take(k), mid),
        mid.answered(probes()[k], &after, answer),
        documented(probes()[k], answer, mid.capabilities()),
    ensures
        took(before, probes().take(k + 1), after),
{
    let calls = probes().take(k + 1);
    assert(calls.drop_last() == probes().take(k));
    assert(calls.last() == probes()[k]);
}

/// Appends `text` to `list` where `b` holds.
fn push_when(list: &mut String, b: bool, text: &str)
    ensures
        final(list)@ == old(list)@ + when(b, text@),
{
    if b {
        list.append(text);
    }
    assert(list@ =~= old(list)@ + when(b, text@));
}

/// Appends each of `names` to `list`, after a line feed.
fn push_lines(list: &mut String, names: &Vec<String>)
    ensures
        final(list)@ == old(list)@ + lines(texts_of(names@)),
{
    let mut i: usize = 0;
    assert(list@ =~= old(list)@ + lines(texts_of(names@).take(0)));
    while i < names.len()
        invariant
            i <= names.len(),
            list@ == old(list)@ + lines(texts_of(names@).take(i as int)),
        decreases names.len() - i,
    {
        let ghost before = lines(texts_of(names@).take(i as int));
        list.push('\n');
        list.append(names[i].as_str());
        i += 1;
        proof {
            let now = texts_of(names@).take(i as int);
            assert(now.drop_last() == texts_of(names@).take(i - 1));
            assert(now.last() == names@[i - 1]@);
            assert(lines(now) == before + seq!['\n'] + names@[i - 1]@);
            assert(list@ =~= old(list)@ + (before + seq!['\n'] + names@[i - 1]@));
        }
    }
    assert(texts_of(names@).take(i as int) == texts_of(names@));
}

impl BotHandler {
    /// Whether the table enables the commands that need `capability`.
    pub closed spec fn enables(&self, capability: Capability) -> bool {
        match capability {
            Capability::RegGenmove => self.genmove_regression,
            Capability::Undo => self.undo,
            Capability::FixedHandicap => self.fixed_handicap,
            Capability::PlaceFreeHandicap => self.place_free_handicap,
            Capability::SetFreeHandicap => self.set_free_handicap,
            Capability::TimeSettings => self.time_settings,
            Capability::FinalStatusList => self.final_status_list,
            Capability::FinalScore => self.final_score,
            Capability::Showboard => self.showboard,
        }
    }

    /// Whether the handler can serve `bot`: the engine implements every
    /// operation that the table enables.
    pub open spec fn serves<T: Gtp>(&self, bot: T) -> bool {
        forall|c: Capability| #[trigger] self.enables(c) ==> bot.capabilities().contains(c)
    }

    /// Whether the table is that of `bot`: it enables exactly what the
    /// engine implements.
    pub open spec fn matches_engine<T: Gtp>(&self, bot: T) -> bool {
        forall|c: Capability| #[trigger] self.enables(c) == bot.capabilities().contains(c)
    }

    /// Whether `command` is known, as far as the table tells: the fixed
    /// commands are, an optional one is if it is enabled, and of any other
    /// name only the engine can tell.
    pub open spec fn known(&self, command: CommandName) -> Option<bool> {
        match command {
            CommandName::Custom | CommandName::TimeLeft => None,
            _ => match gate(command) {
                Some(c) => Some(self.enables(c)),
                None => Some(true),
            },
        }
    }

    /// The fixed commands and the optional ones that the table enables, one
    /// on each line.
    pub open spec fn served_commands(&self) -> Seq<char> {
        basic_commands() + when(
            self.enables(Capability::RegGenmove),
            "\nreg_genmove\nloadsgf"@,
        ) + when(self.enables(Capability::Undo), "\nundo"@) + when(
            self.enables(Capability::PlaceFreeHandicap),
            "\nplace_free_handicap"@,
        ) + when(self.enables(Capability::FixedHandicap), "\nfixed_handicap"@) + when(
            self.enables(Capability::SetFreeHandicap),
            "\nset_free_handicap"@,
        ) + when(self.enables(Capability::TimeSettings), "\ntime_settings"@) + when(
            self.enables(Capability::FinalStatusList),
            "\nfinal_status_list"@,
        ) + when(self.enables(Capability::FinalScore), "\nfinal_score"@) + when(
            self.enables(Capability::Showboard),
            "\nshowboard"@,
        )
    }

    /// The list of commands: the fixed ones, the optional ones that the
    /// table enables, and the engine's own `customs`, one on each line.
    pub open spec fn listed(&self, customs: Seq<Seq<char>>) -> Seq<char> {
        self.served_commands() + lines(customs)
    }

    /// What the handler does with the command `command`, which came under
    /// the name `name` with the arguments `args`.
    ///
    /// A command that the table does not enable is refused as unknown.
    /// What the handler knows by itself it answers at once, and arguments
    /// that do not decode are a syntax error. In every other case one call
    /// goes to the engine, with the decoded arguments. A name that the
    /// handler does not know goes to the engine as it came.
    pub open spec fn planned(&self, command: CommandName, name: Seq<char>, args: Seq<char>) -> Plan {
        if gate(command) matches Some(c) && !self.enables(c) {
            reply_with(unknown_command())
        } else {
            match command {
                CommandName::ProtocolVersion => Plan::Reply(true, "2"@),
                CommandName::Name => Plan::Ask(Call::Name),
                CommandName::Version => Plan::Ask(Call::Version),
                CommandName::KnownCommand => match self.known(command_named(args)) {
                    Some(b) => Plan::Reply(true, bool_text(b)),
                    None => Plan::Ask(Call::KnownCustomCommand(args)),
                },
                CommandName::ListCommands => Plan::Ask(Call::ListCustomCommands),
                CommandName::Boardsize => match count_of(args) {
                    Some(n) => Plan::Ask(Call::Boardsize(n)),
                    None => reply_with(syntax_error()),
                },
                CommandName::ClearBoard => Plan::Ask(Call::ClearBoard),
                CommandName::Komi => if is_float_literal(args) {
                    Plan::Ask(Call::Komi(args))
                } else {
                    reply_with(syntax_error())
                },
                CommandName::Play => match play_args(args) {
                    Some(mv) => Plan::Ask(Call::Play(mv)),
                    None => reply_with(syntax_error()),
                },
                CommandName::Genmove => match colour_of(args) {
                    Some(col) => Plan::Ask(Call::Genmove(col)),
                    None => reply_with(syntax_error()),
                },
                CommandName::Loadsgf => match loadsgf_args(args) {
                    Some((filename, n)) => Plan::Ask(Call::Loadsgf(filename, n)),
                    None => reply_with(syntax_error()),
                },
                CommandName::RegGenmove => match colour_of(args) {
                    Some(col) => Plan::Ask(Call::RegGenmove(col)),
                    None => reply_with(syntax_error()),
                },
                CommandName::FixedHandicap => match handicap_of(args, 9) {
                    Ok(n) => Plan::Ask(Call::FixedHandicap(n)),
                    Err(refusal) => reply_with(refusal),
                },
                CommandName::PlaceFreeHandicap => match handicap_of(args, usize::MAX as nat) {
                    Ok(n) => Plan::Ask(Call::PlaceFreeHandicap(n)),
                    Err(refusal) => reply_with(refusal),
                },
                CommandName::SetFreeHandicap => match vertices_of(split(args, ' ')) {
                    None => reply_with(syntax_error()),
                    Some(stones) => if stones.len() < 2 {
                        Plan::Reply(false, error_text(GTPError::BadVertexList))
                    } else {
                        Plan::Ask(Call::SetFreeHandicap(stones))
                    },
                },
                CommandName::Undo => Plan::Ask(Call::Undo),
                CommandName::TimeSettings => match time_args(args) {
                    Some((main_time, byoyomi_time, byoyomi_stones)) => Plan::Ask(
                        Call::TimeSettings(main_time, byoyomi_time, byoyomi_stones),
                    ),
                    None => reply_with(syntax_error()),
                },
                CommandName::TimeLeft => reply_with(done()),
                CommandName::FinalStatusList => match stone_status_of(args) {
                    Some(status) => Plan::Ask(Call::FinalStatusList(status)),
                    None => reply_with(syntax_error()),
                },
                CommandName::FinalScore => Plan::Ask(Call::FinalScore),
                CommandName::Showboard => Plan::Ask(Call::Showboard),
                CommandName::Quit | CommandName::Custom => Plan::Ask(
                    Call::CustomCommand(name, args),
                ),
            }
        }
    }

    /// The reply that the answer `answer` of the engine to `call` turns
    /// into: success with what the answer holds, written as the protocol
    /// writes it, or failure with the text of its error.
    ///
    /// A game record that the engine could not load is a syntax error. The
    /// stones of a handicap are parted by spaces, those of a status list
    /// by nothing. The list of the engine's own commands comes after the
    /// commands of the table.
    pub open spec fn reply_to(&self, call: Call, answer: Answer) -> (bool, Seq<char>) {
        match answer {
            Answer::Nothing => done(),
            Answer::Text(text) => (true, text),
            Answer::Flag(b) => (true, bool_text(b)),
            Answer::Done(r) => match call {
                Call::Loadsgf(_, _) => if r is Ok {
                    done()
                } else {
                    syntax_error()
                },
                _ => done_text(r),
            },
            Answer::Moved(r) => move_text(r),
            Answer::Stones(r) => match call {
                Call::FinalStatusList(_) => stones_text(r, Seq::empty()),
                _ => stones_text(r, " "@),
            },
            Answer::Scored(r) => scored_text(r),
            Answer::Board(r) => match r {
                Ok((size, black, white, black_cp, white_cp)) => (
                    true,
                    board_text(size as nat, black, white, black_cp as nat, white_cp as nat),
                ),
                Err(e) => (false, error_text(e)),
            },
            Answer::Outcome(success, text) => (success, text),
            Answer::Names(customs) => (true, self.listed(customs)),
        }
    }

    /// What serving a command does: the engine goes from `before` to
    /// `after` and `reply` comes back.
    ///
    /// Where the plan is a reply, that is the reply, and the engine is as
    /// it was. Where the plan is a call, the engine took that call, by its
    /// own account, with an answer that it may give, and the reply is what
    /// that answer turns into. The engine keeps its capabilities in any
    /// case, it is as it was after a command that only asks, and its board
    /// is cleared after `clear_board`.
    pub open spec fn served<T: Gtp>(
        &self,
        command: CommandName,
        name: Seq<char>,
        args: Seq<char>,
        before: T,
        after: T,
        reply: (bool, Seq<char>),
    ) -> bool {
        &&& after.capabilities() == before.capabilities()
        &&& only_asks(command) ==> after == before
        &&& command == CommandName::ClearBoard ==> after.is_cleared()
        &&& match self.planned(command, name, args) {
            Plan::Reply(success, text) => reply == (success, text) && after == before,
            Plan::Ask(call) => exists|answer: Answer|
                {
                    &&& #[trigger] before.answered(call, &after, answer)
                    &&& documented(call, answer, before.capabilities())
                    &&& reply == self.reply_to(call, answer)
                },
        }
    }

    /// A command whose operation the table does not enable is refused as
    /// unknown, whatever its arguments, and the engine is not touched.
    pub proof fn lemma_gated<T: Gtp>(
        &self,
        command: CommandName,
        name: Seq<char>,
        args: Seq<char>,
        before: T,
        after: T,
        reply: (bool, Seq<char>),
    )
        requires
            gate(command) matches Some(c) && !self.enables(c),
            self.served(command, name, args, before, after, reply),
        ensures
            reply == unknown_command(),
            after == before,
    {
    }

    fn new() -> (handler: BotHandler)
        ensures
            forall|c: Capability| !#[trigger] handler.enables(c),
    {
        BotHandler {
            genmove_regression: false,
            undo: false,
            fixed_handicap: false,
            place_free_handicap: false,
            set_free_handicap: false,
            time_settings: false,
            final_status_list: false,
            final_score: false,
            showboard: false,
        }
    }

    /// Calls each optional operation once, with an argument that does no
    /// harm, and enables it unless the engine answers "not implemented".
    /// Then clears the board, so that the probing leaves no trace.
    fn populate<T: Gtp>(&mut self, bot: &mut T)
        ensures
            final(self).matches_engine(*old(bot)),
            took(*old(bot), probes(), *final(bot)),
            final(bot).capabilities() == old(bot).capabilities(),
            final(bot).is_cleared(),
    {
        let ghost start = *bot;
        assert(took(start, probes().take(0), start));
        let answer = bot.reg_genmove(Colour::Black);
        proof {
            lemma_took_one_more(start, start, *bot, 0, Answer::Moved(answer));
        }
        self.genmove_regression = implemented(&answer);
        let ghost mid = *bot;
        let answer = bot.undo();
        proof {
            lemma_took_one_more(start, mid, *bot, 1, Answer::Done(answer));
        }
        self.undo = implemented(&answer);
        let ghost mid = *bot;
        let answer = bot.fixed_handicap(1);
        proof {
            lemma_took_one_more(start, mid, *bot, 2, stones_answer(answer));
        }
        self.fixed_handicap = implemented(&answer);
        let ghost mid = *bot;
        let answer = bot.place_free_handicap(1);
        proof {
            lemma_took_one_more(start, mid, *bot, 3, stones_answer(answer));
        }
        self.place_free_handicap = implemented(&answer);
        let mut stones: Vec<Vertex> = Vec::new();
        match Vertex::from_coords(2, 2) {
            Some(vrtx) => {
                stones.push(vrtx);
            },
            None => {},
        }
        assert(stones@ == seq![Vertex::at(2, 2)]);
        let ghost mid = *bot;
        let answer = bot.set_free_handicap(stones.as_slice());
        proof {
            lemma_took_one_more(start, mid, *bot, 4, Answer::Done(answer));
        }
        self.set_free_handicap = implemented(&answer);
        let ghost mid = *bot;
        let answer = bot.time_settings(5, 0, 0);
        proof {
            lemma_took_one_more(start, mid, *bot, 5, Answer::Done(answer));
        }
        self.time_settings = implemented(&answer);
        let ghost mid = *bot;
        let answer = bot.final_status_list(StoneStatus::Alive);
        proof {
            lemma_took_one_more(start, mid, *bot, 6, stones_answer(answer));
        }
        self.final_status_list = implemented(&answer);
        let answer = bot.final_score();
        proof {
            lemma_took_one_more(start, mid, *bot, 7, Answer::Scored(answer));
        }
        self.final_score = implemented(&answer);
        let answer = bot.showboard();
        proof {
            lemma_took_one_more(start, mid, *bot, 8, board_answer(answer));
        }
        self.showboard = implemented(&answer);
        // lets reset the bot
        bot.clear_board();
        proof {
            lemma_took_one_more(start, mid, *bot, 9, Answer::Nothing);
            assert(probes().take(10) == probes());
        }
    }

    /// Probes `bot` and returns the handler that serves it.
    ///
    /// The engine took the probing calls and no other. The table enables
    /// exactly the optional operations that the engine implements, and the
    /// engine is left as `clear_board` leaves it.
    pub fn from_bot<T: Gtp>(bot: &mut T) -> (handler: BotHandler)
        ensures
            handler.matches_engine(*old(bot)),
            handler.serves(*final(bot)),
            took(*old(bot), probes(), *final(bot)),
            final(bot).capabilities() == old(bot).capabilities(),
            final(bot).is_cleared(),
    {
        let mut handler = BotHandler::new();
        handler.populate(bot);
        handler
    }

    /// Whether the table enables the commands that need `capability`.
    fn enabled(&self, capability: Capability) -> (b: bool)
        ensures
            b == self.enables(capability),
    {
        match capability {
            Capability::RegGenmove => self.genmove_regression,
            Capability::Undo => self.undo,
            Capability::FixedHandicap => self.fixed_handicap,
            Capability::PlaceFreeHandicap => self.place_free_handicap,
            Capability::SetFreeHandicap => self.set_free_handicap,
            Capability::TimeSettings => self.time_settings,
            Capability::FinalStatusList => self.final_status_list,
            Capability::FinalScore => self.final_score,
            Capability::Showboard => self.showboard,
        }
    }

    // implementations of the commands

    /// The list of commands, given the engine's own.
    pub fn list_text(&self, customs: &Vec<String>) -> (list: String)
        ensures
            list@ == self.listed(texts_of(customs@)),
    {
        let mut list =
            "protocol_version\nname\nversion\nknown_command\nlist_commands\nquit\nboardsize\nclear_board\nkomi\nplay\ngenmove".to_string();
        push_when(&mut list, self.genmove_regression, "\nreg_genmove\nloadsgf");
        push_when(&mut list, self.undo, "\nundo");
        push_when(&mut list, self.place_free_handicap, "\nplace_free_handicap");
        push_when(&mut list, self.fixed_handicap, "\nfixed_handicap");
        push_when(&mut list, self.set_free_handicap, "\nset_free_handicap");
        push_when(&mut list, self.time_settings, "\ntime_settings");
        push_when(&mut list, self.final_status_list, "\nfinal_status_list");
        push_when(&mut list, self.final_score, "\nfinal_score");
        push_when(&mut list, self.showboard, "\nshowboard");
        push_lines(&mut list, customs);
        list
    }

    fn cmd_list_commands<T: Gtp>(&self, bot: &T) -> (list: String)
        ensures
            self.served(
                CommandName::ListCommands,
                Seq::empty(),
                Seq::empty(),
                *bot,
                *bot,
                (true, list@),
            ),
    {
        let customs = bot.list_custom_commands();
        self.list_text(&customs)
    }

    /// Whether the command `command` is known, as far as the table tells.
    pub fn knows(&self, command: CommandName) -> (r: Option<bool>)
        ensures
            r == self.known(command),
    {
        match command {
            CommandName::Custom | CommandName::TimeLeft => None,
            CommandName::Loadsgf | CommandName::RegGenmove => Some(self.genmove_regression),
            CommandName::FixedHandicap => Some(self.fixed_handicap),
            CommandName::SetFreeHandicap => Some(self.set_free_handicap),
            CommandName::PlaceFreeHandicap => Some(self.place_free_handicap),
            CommandName::Undo => Some(self.undo),
            CommandName::TimeSettings => Some(self.time_settings),
            CommandName::FinalStatusList => Some(self.final_status_list),
            CommandName::FinalScore => Some(self.final_score),
            CommandName::Showboard => Some(self.showboard),
            _ => Some(true),
        }
    }

    fn cmd_known_command<T: Gtp>(&self, bot: &T, cmd: &str) -> (text: String)
        ensures
            self.served(
                CommandName::KnownCommand,
                Seq::empty(),
                cmd@,
                *bot,
                *bot,
                (true, text@),
            ),
    {
        let known = match self.knows(name_command(cmd)) {
            Some(b) => b,
            None => bot.known_custom_command(cmd),
        };
        bool_reply(known).1
    }

    fn cmd_boardsize<T: Gtp>(&self, bot: &mut T, args: &str) -> (out: (bool, String))
        ensures
            self.served(
                CommandName::Boardsize,
                Seq::empty(),
                args@,
                *old(bot),
                *final(bot),
                view_of(out),
            ),
    {
        match parse_count(args) {
            Some(n) => done_reply(bot.boardsize(n)),
            None => (false, "syntax error".to_string()),
        }
    }

    fn cmd_clear_board<T: Gtp>(&self, bot: &mut T)
        ensures
            self.served(
                CommandName::ClearBoard,
                Seq::empty(),
                Seq::empty(),
                *old(bot),
                *final(bot),
                done(),
            ),
            final(bot).is_cleared(),
    {
        bot.clear_board();
    }

    fn cmd_komi<T: Gtp>(&self, bot: &mut T, args: &str) -> (out: (bool, String))
        ensures
            self.served(
                CommandName::Komi,
                Seq::empty(),
                args@,
                *old(bot),
                *final(bot),
                view_of(out),
            ),
    {
        let literal = chars_of(args);
        if chars_are_float_literal(&literal) {
            bot.komi(args);
            (true, String::new())
        } else {
            (false, "syntax error".to_string())
        }
    }

    fn cmd_play<T: Gtp>(&self, bot: &mut T, args: &str) -> (out: (bool, String))
        ensures
            self.served(
                CommandName::Play,
                Seq::empty(),
                args@,
                *old(bot),
                *final(bot),
                view_of(out),
            ),
    {
        match parse_play(args) {
            Some(mv) => done_reply(bot.play(mv)),
            None => (false, "syntax error".to_string()),
        }
    }

    fn cmd_genmove<T: Gtp>(&self, bot: &mut T, args: &str) -> (out: (bool, String))
        ensures
            self.served(
                CommandName::Genmove,
                Seq::empty(),
                args@,
                *old(bot),
                *final(bot),
                view_of(out),
            ),
    {
        match arg_parse_colour(args) {
            Some(col) => move_reply(Ok(bot.genmove(col))),
            None => (false, "syntax error".to_string()),
        }
    }

    // optional functions, not called
    // if the bot does not implement their counterpart

    fn cmd_loadsgf<T: Gtp>(&self, bot: &mut T, args: &str) -> (out: (bool, String))
        requires
            self.enables(Capability::RegGenmove),
        ensures
            self.served(
                CommandName::Loadsgf,
                Seq::empty(),
                args@,
                *old(bot),
                *final(bot),
                view_of(out),
            ),
    {
        match parse_loadsgf(args) {
            Some((filename, number)) => match bot.loadsgf(filename.as_str(), number) {
                Ok(_) => (true, String::new()),
                Err(_) => (false, "syntax error".to_string()),
            },
            None => (false, "syntax error".to_string()),
        }
    }

    fn cmd_reg_genmove<T: Gtp>(&self, bot: &mut T, args: &str) -> (out: (bool, String))
        requires
            self.enables(Capability::RegGenmove),
            old(bot).capabilities().contains(Capability::RegGenmove),
        ensures
            self.served(
                CommandName::RegGenmove,
                Seq::empty(),
                args@,
                *old(bot),
                *final(bot),
                view_of(out),
            ),
    {
        match arg_parse_colour(args) {
            Some(col) => move_reply(bot.reg_genmove(col)),
            None => (false, "syntax error".to_string()),
        }
    }

    fn cmd_fixed_handicap<T: Gtp>(&self, bot: &mut T, args: &str) -> (out: (bool, String))
        requires
            self.enables(Capability::FixedHandicap),
            old(bot).capabilities().contains(Capability::FixedHandicap),
        ensures
            self.served(
                CommandName::FixedHandicap,
                Seq::empty(),
                args@,
                *old(bot),
                *final(bot),
                view_of(out),
            ),
    {
        match parse_count(args) {
            Some(n) => {
                if n >= 2 && n <= 9 {
                    stones_reply(bot.fixed_handicap(n), " ")
                } else {
                    (false, "invalid number of stones".to_string())
                }
            },
            None => (false, "syntax error".to_string()),
        }
    }

    fn cmd_place_free_handicap<T: Gtp>(&self, bot: &mut T, args: &str) -> (out: (bool, String))
        requires
            self.enables(Capability::PlaceFreeHandicap),
            old(bot).capabilities().contains(Capability::PlaceFreeHandicap),
        ensures
            self.served(
                CommandName::PlaceFreeHandicap,
                Seq::empty(),
                args@,
                *old(bot),
                *final(bot),
                view_of(out),
            ),
    {
        match parse_count(args) {
            Some(n) => {
                if n >= 2 {
                    stones_reply(bot.place_free_handicap(n), " ")
                } else {
                    (false, "invalid number of stones".to_string())
                }
            },
            None => (false, "syntax error".to_string()),
        }
    }

    fn cmd_set_free_handicap<T: Gtp>(&self, bot: &mut T, args: &str) -> (out: (bool, String))
        requires
            self.enables(Capability::SetFreeHandicap),
            old(bot).capabilities().contains(Capability::SetFreeHandicap),
        ensures
            self.served(
                CommandName::SetFreeHandicap,
                Seq::empty(),
                args@,
                *old(bot),
                *final(bot),
                view_of(out),
            ),
    {
        match parse_vertices(args) {
            Some(lst) => {
                if lst.len() < 2 {
                    return (false, "bad vertex list".to_string());
                }
                done_reply(bot.set_free_handicap(lst.as_slice()))
            },
            None => (false, "syntax error".to_string()),
        }
    }

    fn cmd_undo<T: Gtp>(&self, bot: &mut T) -> (out: (bool, String))
        requires
            self.enables(Capability::Undo),
            old(bot).capabilities().contains(Capability::Undo),
        ensures
            self.served(
                CommandName::Undo,
                Seq::empty(),
                Seq::empty(),
                *old(bot),
                *final(bot),
                view_of(out),
            ),
    {
        done_reply(bot.undo())
    }

    fn cmd_time_settings<T: Gtp>(&self, bot: &mut T, args: &str) -> (out: (bool, String))
        requires
            self.enables(Capability::TimeSettings),
            old(bot).capabilities().contains(Capability::TimeSettings),
        ensures
            self.served(
                CommandName::TimeSettings,
                Seq::empty(),
                args@,
                *old(bot),
                *final(bot),
                view_of(out),
            ),
    {
        match parse_time(args) {
            Some((na, nb, nc)) => done_reply(bot.time_settings(na, nb, nc)),
            None => (false, "syntax error".to_string()),
        }
    }

    fn cmd_final_status_list<T: Gtp>(&self, bot: &mut T, args: &str) -> (out: (bool, String))
        requires
            self.enables(Capability::FinalStatusList),
            old(bot).capabilities().contains(Capability::FinalStatusList),
        ensures
            self.served(
                CommandName::FinalStatusList,
                Seq::empty(),
                args@,
                *old(bot),
                *final(bot),
                view_of(out),
            ),
    {
        proof {
            reveal_strlit("");
            assert(""@ =~= Seq::<char>::empty());
        }
        match arg_parse_stone_status(args) {
            Some(st) => stones_reply(bot.final_status_list(st), ""),
            None => (false, "syntax error".to_string()),
        }
    }

    fn cmd_final_score<T: Gtp>(&self, bot: &mut T) -> (out: (bool, String))
        requires
            self.enables(Capability::FinalScore),
            old(bot).capabilities().contains(Capability::FinalScore),
        ensures
            self.served(
                CommandName::FinalScore,
                Seq::empty(),
                Seq::empty(),
                *old(bot),
                *final(bot),
                view_of(out),
            ),
    {
        score_reply(bot.final_score())
    }

    fn cmd_showboard<T: Gtp>(&self, bot: &mut T) -> (out: String)
        requires
            self.enables(Capability::Showboard),
            old(bot).capabilities().contains(Capability::Showboard),
        ensures
            self.served(
                CommandName::Showboard,
                Seq::empty(),
                Seq::empty(),
                *old(bot),
                *final(bot),
                (true, out@),
            ),
    {
        match bot.showboard() {
            Ok((bs, b_st, w_st, b_cp, w_cp)) => draw_board(
                bs,
                b_st.as_slice(),
                w_st.as_slice(),
                b_cp,
                w_cp,
            ),
            Err(_) => String::new(),
        }
    }

    // dispatcher

    /// Serves the command named `cmd` with the arguments `args`: looks the
    /// name up, refuses a command that the table does not enable, decodes
    /// the arguments, calls the engine and turns its answer into a reply.
    /// A name that the handler does not know goes to the engine with its
    /// arguments, and the reply is the engine's own.
    pub fn dispatch_cmd<T: Gtp>(&self, bot: &mut T, cmd: &str, args: &str) -> (out: (
        bool,
        String,
    ))
        requires
            self.serves(*old(bot)),
        ensures
            self.served(command_named(cmd@), cmd@, args@, *old(bot), *final(bot), view_of(out)),
            self.serves(*final(bot)),
            gate(command_named(cmd@)) matches Some(c) && !self.enables(c) ==> view_of(out)
                == unknown_command() && *final(bot) == *old(bot),
    {
        let unknown = (false, "unknown command".to_string());
        match name_command(cmd) {
            CommandName::ProtocolVersion => (true, "2".to_string()),
            CommandName::Name => (true, bot.name()),
            CommandName::Version => (true, bot.version()),
            CommandName::KnownCommand => (true, self.cmd_known_command(bot, args)),
            CommandName::ListCommands => {
                let list = self.cmd_list_commands(bot);
                (true, list)
            },
            CommandName::Boardsize => self.cmd_boardsize(bot, args),
            CommandName::ClearBoard => {
                self.cmd_clear_board(bot);
                (true, String::new())
            },
            CommandName::Komi => self.cmd_komi(bot, args),
            CommandName::Play => self.cmd_play(bot, args),
            CommandName::Genmove => self.cmd_genmove(bot, args),
            CommandName::Loadsgf => if self.enabled(Capability::RegGenmove) {
                self.cmd_loadsgf(bot, args)
            } else {
                unknown
            },
            CommandName::RegGenmove => if self.enabled(Capability::RegGenmove) {
                self.cmd_reg_genmove(bot, args)
            } else {
                unknown
            },
            CommandName::FixedHandicap => if self.enabled(Capability::FixedHandicap) {
                self.cmd_fixed_handicap(bot, args)
            } else {
                unknown
            },
            CommandName::SetFreeHandicap => if self.enabled(Capability::SetFreeHandicap) {
                self.cmd_set_free_handicap(bot, args)
            } else {
                unknown
            },
            CommandName::PlaceFreeHandicap => if self.enabled(Capability::PlaceFreeHandicap) {
                self.cmd_place_free_handicap(bot, args)
            } else {
                unknown
            },
            CommandName::Undo => if self.enabled(Capability::Undo) {
                self.cmd_undo(bot)
            } else {
                unknown
            },
            CommandName::TimeSettings => if self.enabled(Capability::TimeSettings) {
                self.cmd_time_settings(bot, args)
            } else {
                unknown
            },
            CommandName::TimeLeft => if self.enabled(Capability::RegGenmove) {
                (true, String::new())  // noop for now
            } else {
                unknown
            },
            CommandName::FinalStatusList => if self.enabled(Capability::FinalStatusList) {
                self.cmd_final_status_list(bot, args)
            } else {
                unknown
            },
            CommandName::FinalScore => if self.enabled(Capability::FinalScore) {
                self.cmd_final_score(bot)
            } else {
                unknown
            },
            CommandName::Showboard => if self.enabled(Capability::Showboard) {
                (true, self.cmd_showboard(bot))
            } else {
                unknown
            },
            CommandName::Quit | CommandName::Custom => bot.custom_command(cmd, args),
        }
    }

    // public functions

    /// What handling `input` does: the engine goes from `before` to `after`
    /// and `out` comes back, the flag that says whether to go on and the
    /// line of the response.
    ///
    /// Input that holds no command gives no response and leaves the engine
    /// alone. `quit` always succeeds with `bye` and ends the loop, without
    /// the engine being touched. Every other command is served, and the
    /// response carries `=` or `?`, the identifier of the command and the
    /// text of the reply.
    pub open spec fn handled<T: Gtp>(
        &self,
        input: Seq<char>,
        before: T,
        after: T,
        out: (bool, Seq<char>),
    ) -> bool {
        match command_of(input) {
            None => out == (true, Seq::<char>::empty()) && after == before,
            Some(c) => if c.command == "quit"@ {
                out == (false, seq!['='] + id_text(c.id) + " bye"@) && after == before
            } else {
                out.0 && exists|reply: (bool, Seq<char>)|
                    #![trigger response_text(reply.0, c.id, reply.1)]
                    self.served(
                        command_named(c.command),
                        c.command,
                        c.args,
                        before,
                        after,
                        reply,
                    ) && out.1 == response_text(reply.0, c.id, reply.1)
            },
        }
    }

    /// Handles raw input: reads the first command that it holds and serves
    /// it. Returns whether the loop goes on, and the line of the response,
    /// empty where the input held no command.
    pub fn handle_command<T: Gtp>(&self, bot: &mut T, input: &str) -> (out: (bool, String))
        requires
            self.serves(*old(bot)),
        ensures
            self.handled(input@, *old(bot), *final(bot), view_of(out)),
            self.serves(*final(bot)),
            final(bot).capabilities() == old(bot).capabilities(),
    {
        proof {
            lemma_command_names();
        }
        match parse_command(input) {
            Some(c) => {
                let ghost read = c@;
                if name_command(c.command.as_str()) == CommandName::Quit {
                    let mut line = String::new();
                    line.push('=');
                    match c.id {
                        Some(i) => {
                            push_decimal(&mut line, i as u64);
                        },
                        None => {},
                    }
                    line.append(" bye");
                    assert(line@ == seq!['='] + id_text(read.id) + " bye"@);
                    (false, line)
                } else {
                    let (result, output) = self.dispatch_cmd(
                        bot,
                        c.command.as_str(),
                        c.args.as_str(),
                    );
                    let line = format_response(result, c.id, output.as_str());
                    proof {
                        let reply = (result, output@);
                        assert(self.served(
                            command_named(read.command),
                            read.command,
                            read.args,
                            *old(bot),
                            *bot,
                            reply,
                        ));
                        assert(line@ == response_text(reply.0, read.id, reply.1));
                    }
                    (true, line)
                }
            },
            None => (true, String::new()),
        }
    }

    /// One turn of the serve loop: `line` is what was read from the
    /// controller, `None` at the end of its input, which counts as `quit`.
    /// Returns whether the loop goes on, and what to write back: the
    /// response with the empty line that ends it, or nothing where the
    /// line held no command.
    pub fn serve_line<T: Gtp>(&self, bot: &mut T, line: Option<&str>) -> (out: (bool, String))
        requires
            self.serves(*old(bot)),
        ensures
            exists|response: Seq<char>|
                #![trigger framed(response)]
                self.handled(
                    match line {
                        Some(text) => text@,
                        None => "quit"@,
                    },
                    *old(bot),
                    *final(bot),
                    (out.0, response),
                ) && out.1@ == framed(response),
            self.serves(*final(bot)),
            final(bot).capabilities() == old(bot).capabilities(),
    {
        let (continue_loop, mut result) = match line {
            Some(text) => self.handle_command(bot, text),
            None => self.handle_command(bot, "quit"),
        };
        let ghost response = result@;
        if result.as_str().unicode_len() > 0 {
            result.append("\n\n");
        }
        assert(result@ == framed(response));
        (continue_loop, result)
    }
}

} // verus!
