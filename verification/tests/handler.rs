use gtprust::api::{Colour, ColouredMove, GTPError, Gtp, Move, Score, StoneStatus, Vertex};
use gtprust::bothandler::BotHandler;
use std::cell::RefCell;

/// An engine for the tests: it implements the optional operations that its
/// flags name, answers what it is told to, and writes down every call.
struct Scripted {
    reg_genmove: bool,
    undo: bool,
    fixed_handicap: bool,
    place_free_handicap: bool,
    set_free_handicap: bool,
    time_settings: bool,
    final_status_list: bool,
    final_score: bool,
    showboard: bool,
    fail: Option<GTPError>,
    score: Option<(Colour, String)>,
    stones: Vec<Vertex>,
    customs: Vec<String>,
    calls: RefCell<Vec<String>>,
}

fn engine() -> Scripted {
    Scripted {
        reg_genmove: false,
        undo: false,
        fixed_handicap: false,
        place_free_handicap: false,
        set_free_handicap: false,
        time_settings: false,
        final_status_list: false,
        final_score: false,
        showboard: false,
        fail: None,
        score: None,
        stones: Vec::new(),
        customs: Vec::new(),
        calls: RefCell::new(Vec::new()),
    }
}

fn full_engine() -> Scripted {
    let mut bot = engine();
    bot.reg_genmove = true;
    bot.undo = true;
    bot.fixed_handicap = true;
    bot.place_free_handicap = true;
    bot.set_free_handicap = true;
    bot.time_settings = true;
    bot.final_status_list = true;
    bot.final_score = true;
    bot.showboard = true;
    bot
}

impl Scripted {
    fn done(&self, implemented: bool) -> Result<(), GTPError> {
        if !implemented {
            Err(GTPError::NotImplemented)
        } else {
            match self.fail {
                Some(e) => Err(e),
                None => Ok(()),
            }
        }
    }

    fn listed(&self, implemented: bool) -> Result<Vec<Vertex>, GTPError> {
        self.done(implemented).map(|_| self.stones.clone())
    }
}

impl Gtp for Scripted {
    fn name(&self) -> String {
        self.calls.borrow_mut().push("name".to_string());
        "Scripted".to_string()
    }

    fn version(&self) -> String {
        self.calls.borrow_mut().push("version".to_string());
        "v0.42".to_string()
    }

    fn clear_board(&mut self) {
        self.calls.borrow_mut().push("clear_board".to_string());
    }

    fn komi(&mut self, literal: &str) {
        let komi: f32 = literal.parse().unwrap();
        self.calls.borrow_mut().push(format!("komi {}", komi));
    }

    fn boardsize(&mut self, size: usize) -> Result<(), GTPError> {
        self.calls.borrow_mut().push(format!("boardsize {}", size));
        self.done(true)
    }

    fn play(&mut self, mov: ColouredMove) -> Result<(), GTPError> {
        self.calls.borrow_mut().push(format!("play {} {}", mov.player.to_string(), mov.mov.to_string()));
        self.done(true)
    }

    fn genmove(&mut self, player: Colour) -> Move {
        self.calls.borrow_mut().push(format!("genmove {}", player.to_string()));
        Move::Pass
    }

    fn reg_genmove(&self, player: Colour) -> Result<Move, GTPError> {
        self.calls.borrow_mut().push(format!("reg_genmove {}", player.to_string()));
        self.done(self.reg_genmove).map(|_| Move::Stone(Vertex::from_coords(10, 10).unwrap()))
    }

    fn undo(&mut self) -> Result<(), GTPError> {
        self.calls.borrow_mut().push("undo".to_string());
        self.done(self.undo)
    }

    fn fixed_handicap(&mut self, number: usize) -> Result<Vec<Vertex>, GTPError> {
        self.calls.borrow_mut().push(format!("fixed_handicap {}", number));
        self.listed(self.fixed_handicap)
    }

    fn place_free_handicap(&mut self, number: usize) -> Result<Vec<Vertex>, GTPError> {
        self.calls.borrow_mut().push(format!("place_free_handicap {}", number));
        self.listed(self.place_free_handicap)
    }

    fn set_free_handicap(&mut self, stones: &[Vertex]) -> Result<(), GTPError> {
        let texts: Vec<String> = stones.iter().map(|v| v.to_string()).collect();
        self.calls.borrow_mut().push(format!("set_free_handicap {}", texts.join(",")));
        self.done(self.set_free_handicap)
    }

    fn time_settings(&mut self, main: usize, byoyomi: usize, stones: usize) -> Result<(), GTPError> {
        self.calls.borrow_mut().push(format!("time_settings {} {} {}", main, byoyomi, stones));
        self.done(self.time_settings)
    }

    fn final_status_list(&self, status: StoneStatus) -> Result<Vec<Vertex>, GTPError> {
        self.calls.borrow_mut().push(format!("final_status_list {:?}", status));
        self.listed(self.final_status_list)
    }

    fn final_score(&self) -> Result<Score, GTPError> {
        self.calls.borrow_mut().push("final_score".to_string());
        self.done(self.final_score).map(|_| match &self.score {
            Some((colour, margin)) => Score::Win(*colour, margin.clone()),
            None => Score::Draw,
        })
    }

    fn showboard(&self) -> Result<(usize, Vec<Vertex>, Vec<Vertex>, usize, usize), GTPError> {
        self.calls.borrow_mut().push("showboard".to_string());
        self.done(self.showboard).map(|_| {
            (
                3,
                vec![Vertex::from_str("A1").unwrap(), Vertex::from_str("B2").unwrap()],
                vec![Vertex::from_str("C3").unwrap(), Vertex::from_str("B2").unwrap()],
                3,
                4,
            )
        })
    }

    fn custom_command(&mut self, command: &str, args: &str) -> (bool, String) {
        self.calls.borrow_mut().push(format!("custom {}|{}", command, args));
        if self.customs.iter().any(|c| c == command) {
            (true, format!("did {}", command))
        } else {
            (false, "invalid command".to_string())
        }
    }

    fn known_custom_command(&self, command: &str) -> bool {
        self.calls.borrow_mut().push(format!("known_custom_command {}", command));
        self.customs.iter().any(|c| c == command)
    }

    fn list_custom_commands(&self) -> Vec<String> {
        self.calls.borrow_mut().push("list_custom_commands".to_string());
        self.customs.clone()
    }

    fn loadsgf(&mut self, filename: &str, n: usize) -> Result<(), GTPError> {
        self.calls.borrow_mut().push(format!("loadsgf {} {}", filename, n));
        self.done(true)
    }
}

/// A handler for `bot`, and the engine's record wiped of the probing.
fn handler_for(bot: &mut Scripted) -> BotHandler {
    let handler = BotHandler::from_bot(bot);
    bot.calls.borrow_mut().clear();
    handler
}

fn reply(handler: &BotHandler, bot: &mut Scripted, line: &str) -> String {
    let (go_on, text) = handler.handle_command(bot, line);
    assert!(go_on);
    text
}

const OPTIONAL: [&str; 10] = [
    "reg_genmove",
    "loadsgf",
    "undo",
    "place_free_handicap",
    "fixed_handicap",
    "set_free_handicap",
    "time_settings",
    "final_status_list",
    "final_score",
    "showboard",
];

const BASIC: &str = "protocol_version\nname\nversion\nknown_command\nlist_commands\nquit\nboardsize\nclear_board\nkomi\nplay\ngenmove";

#[test]
fn probing_calls_each_operation_once_and_clears_the_board() {
    let mut bot = engine();
    let _handler = BotHandler::from_bot(&mut bot);
    assert_eq!(
        *bot.calls.borrow(),
        vec![
            "reg_genmove black",
            "undo",
            "fixed_handicap 1",
            "place_free_handicap 1",
            "set_free_handicap B2",
            "time_settings 5 0 0",
            "final_status_list Alive",
            "final_score",
            "showboard",
            "clear_board",
        ]
    );
}

#[test]
fn table_matches_an_engine_without_options() {
    let mut bot = engine();
    let handler = handler_for(&mut bot);
    for name in OPTIONAL {
        assert_eq!(reply(&handler, &mut bot, &format!("known_command {}", name)), "= false");
    }
    assert_eq!(reply(&handler, &mut bot, "list_commands"), format!("= {}", BASIC));
}

#[test]
fn table_matches_an_engine_with_every_option() {
    let mut bot = full_engine();
    let handler = handler_for(&mut bot);
    for name in OPTIONAL {
        assert_eq!(reply(&handler, &mut bot, &format!("known_command {}", name)), "= true");
    }
    assert_eq!(
        reply(&handler, &mut bot, "list_commands"),
        format!(
            "= {}\nreg_genmove\nloadsgf\nundo\nplace_free_handicap\nfixed_handicap\nset_free_handicap\ntime_settings\nfinal_status_list\nfinal_score\nshowboard",
            BASIC
        )
    );
}

#[test]
fn table_matches_each_single_option() {
    for k in 0..9 {
        let mut bot = engine();
        match k {
            0 => bot.reg_genmove = true,
            1 => bot.undo = true,
            2 => bot.place_free_handicap = true,
            3 => bot.fixed_handicap = true,
            4 => bot.set_free_handicap = true,
            5 => bot.time_settings = true,
            6 => bot.final_status_list = true,
            7 => bot.final_score = true,
            _ => bot.showboard = true,
        }
        let handler = handler_for(&mut bot);
        let enabled: Vec<&str> = match k {
            0 => vec!["reg_genmove", "loadsgf"],
            1 => vec!["undo"],
            2 => vec!["place_free_handicap"],
            3 => vec!["fixed_handicap"],
            4 => vec!["set_free_handicap"],
            5 => vec!["time_settings"],
            6 => vec!["final_status_list"],
            7 => vec!["final_score"],
            _ => vec!["showboard"],
        };
        for name in OPTIONAL {
            let expected = if enabled.contains(&name) { "= true" } else { "= false" };
            assert_eq!(reply(&handler, &mut bot, &format!("known_command {}", name)), expected);
        }
        let mut list = format!("= {}", BASIC);
        for name in &enabled {
            list.push('\n');
            list.push_str(name);
        }
        assert_eq!(reply(&handler, &mut bot, "list_commands"), list);
    }
}

#[test]
fn an_error_other_than_not_implemented_shows_the_operation() {
    let mut bot = full_engine();
    bot.fail = Some(GTPError::CannotUndo);
    let handler = BotHandler::from_bot(&mut bot);
    bot.fail = None;
    assert_eq!(reply(&handler, &mut bot, "known_command undo"), "= true");
}

#[test]
fn gated_commands_are_refused_without_touching_the_engine() {
    let mut bot = engine();
    let handler = handler_for(&mut bot);
    for name in OPTIONAL {
        assert_eq!(reply(&handler, &mut bot, &format!("7 {} w", name)), "?7 unknown command");
        assert_eq!(reply(&handler, &mut bot, name), "? unknown command");
    }
    assert_eq!(reply(&handler, &mut bot, "time_left black 10 0"), "? unknown command");
    assert!(bot.calls.borrow().is_empty());
}

#[test]
fn end_to_end() {
    let mut bot = engine();
    let handler = handler_for(&mut bot);
    let input = "1 boardsize 19\n2 clear_board\n3 play B D4\n4 genmove W\n";
    let mut responses: Vec<String> = Vec::new();
    for line in input.split_inclusive('\n') {
        let (go_on, out) = handler.serve_line(&mut bot, Some(line));
        assert!(go_on);
        responses.push(out);
    }
    assert_eq!(responses, vec!["=1 \n\n", "=2 \n\n", "=3 \n\n", "=4 pass\n\n"]);
    assert_eq!(*bot.calls.borrow(), vec!["boardsize 19", "clear_board", "play black D4", "genmove white"]);
}

#[test]
fn quit_says_bye_and_ends_the_loop() {
    let mut bot = engine();
    let handler = handler_for(&mut bot);
    assert_eq!(handler.serve_line(&mut bot, Some("5 quit\n")), (false, "=5 bye\n\n".to_string()));
    assert_eq!(handler.handle_command(&mut bot, "5 quit\n"), (false, "=5 bye".to_string()));
    assert_eq!(handler.handle_command(&mut bot, "quit"), (false, "= bye".to_string()));
    assert_eq!(handler.handle_command(&mut bot, "quit now"), (false, "= bye".to_string()));
    assert!(bot.calls.borrow().is_empty());
}

#[test]
fn end_of_input_counts_as_quit() {
    let mut bot = engine();
    let handler = handler_for(&mut bot);
    assert_eq!(handler.serve_line(&mut bot, None), (false, "= bye\n\n".to_string()));
}

#[test]
fn input_without_a_command_gets_no_response() {
    let mut bot = engine();
    let handler = handler_for(&mut bot);
    for input in ["", "\n", "   \t \n", "# only a comment\n", "56\n", "\x07\n"] {
        assert_eq!(handler.handle_command(&mut bot, input), (true, String::new()));
        assert_eq!(handler.serve_line(&mut bot, Some(input)), (true, String::new()));
    }
    assert!(bot.calls.borrow().is_empty());
}

#[test]
fn only_the_first_line_is_served() {
    let mut bot = engine();
    let handler = handler_for(&mut bot);
    assert_eq!(reply(&handler, &mut bot, "# first\n\n1 boardsize 9\n2 quit\n"), "=1 ");
    assert_eq!(*bot.calls.borrow(), vec!["boardsize 9"]);
}

#[test]
fn fixed_commands() {
    let mut bot = engine();
    bot.customs = vec!["hello".to_string(), "world".to_string()];
    let handler = handler_for(&mut bot);
    assert_eq!(reply(&handler, &mut bot, "protocol_version"), "= 2");
    assert_eq!(reply(&handler, &mut bot, "12 name"), "=12 Scripted");
    assert_eq!(reply(&handler, &mut bot, "version"), "= v0.42");
    for name in BASIC.split('\n') {
        assert_eq!(reply(&handler, &mut bot, &format!("known_command {}", name)), "= true");
    }
    assert_eq!(reply(&handler, &mut bot, "known_command hello"), "= true");
    assert_eq!(reply(&handler, &mut bot, "known_command nope"), "= false");
    assert_eq!(reply(&handler, &mut bot, "known_command time_left"), "= false");
    assert_eq!(reply(&handler, &mut bot, "known_command"), "= false");
    assert_eq!(
        reply(&handler, &mut bot, "list_commands"),
        format!("= {}\nhello\nworld", BASIC)
    );
    assert_eq!(
        *bot.calls.borrow(),
        vec![
            "name",
            "version",
            "known_custom_command hello",
            "known_custom_command nope",
            "known_custom_command time_left",
            "known_custom_command ",
            "list_custom_commands",
        ]
    );
}

#[test]
fn custom_commands_go_to_the_engine() {
    let mut bot = engine();
    bot.customs = vec!["hello".to_string()];
    let handler = handler_for(&mut bot);
    assert_eq!(reply(&handler, &mut bot, "3 hello big world"), "=3 did hello");
    assert_eq!(reply(&handler, &mut bot, "nope"), "? invalid command");
    assert_eq!(*bot.calls.borrow(), vec!["custom hello|big world", "custom nope|"]);
}

#[test]
fn boardsize() {
    let mut bot = engine();
    let handler = handler_for(&mut bot);
    assert_eq!(reply(&handler, &mut bot, "1 boardsize 19"), "=1 ");
    assert_eq!(reply(&handler, &mut bot, "boardsize +007"), "= ");
    assert_eq!(reply(&handler, &mut bot, "boardsize"), "? syntax error");
    assert_eq!(reply(&handler, &mut bot, "boardsize nineteen"), "? syntax error");
    assert_eq!(reply(&handler, &mut bot, "boardsize 19 19"), "? syntax error");
    assert_eq!(reply(&handler, &mut bot, "boardsize -1"), "? syntax error");
    assert_eq!(
        reply(&handler, &mut bot, "boardsize 99999999999999999999999999"),
        "? syntax error"
    );
    assert_eq!(*bot.calls.borrow(), vec!["boardsize 19", "boardsize 7"]);
    bot.fail = Some(GTPError::InvalidBoardSize);
    assert_eq!(reply(&handler, &mut bot, "2 boardsize 26"), "?2 invalid board size");
}

#[test]
fn komi() {
    let mut bot = engine();
    let handler = handler_for(&mut bot);
    assert_eq!(reply(&handler, &mut bot, "komi 6.5"), "= ");
    assert_eq!(reply(&handler, &mut bot, "1 komi -1e3"), "=1 ");
    assert_eq!(reply(&handler, &mut bot, "komi +.5"), "= ");
    assert_eq!(reply(&handler, &mut bot, "komi 7."), "= ");
    assert_eq!(reply(&handler, &mut bot, "komi INF"), "= ");
    assert_eq!(reply(&handler, &mut bot, "komi six"), "? syntax error");
    assert_eq!(reply(&handler, &mut bot, "komi"), "? syntax error");
    assert_eq!(reply(&handler, &mut bot, "komi 6.5 7"), "? syntax error");
    assert_eq!(reply(&handler, &mut bot, "komi 6,5"), "? syntax error");
    assert_eq!(reply(&handler, &mut bot, "komi 1e"), "? syntax error");
    assert_eq!(reply(&handler, &mut bot, "komi ."), "? syntax error");
    assert_eq!(
        *bot.calls.borrow(),
        vec!["komi 6.5", "komi -1000", "komi 0.5", "komi 7", "komi inf"]
    );
}

#[test]
fn play() {
    let mut bot = engine();
    let handler = handler_for(&mut bot);
    assert_eq!(reply(&handler, &mut bot, "play B D4"), "= ");
    assert_eq!(reply(&handler, &mut bot, "play white pass"), "= ");
    assert_eq!(reply(&handler, &mut bot, "play w RESIGN and more"), "= ");
    assert_eq!(reply(&handler, &mut bot, "play B"), "? syntax error");
    assert_eq!(reply(&handler, &mut bot, "play D4 B"), "? syntax error");
    assert_eq!(reply(&handler, &mut bot, "play B I4"), "? syntax error");
    assert_eq!(reply(&handler, &mut bot, "play"), "? syntax error");
    assert_eq!(*bot.calls.borrow(), vec!["play black D4", "play white pass", "play white resign"]);
    bot.fail = Some(GTPError::InvalidMove);
    assert_eq!(reply(&handler, &mut bot, "9 play B D4"), "?9 invalid move");
}

#[test]
fn genmove() {
    let mut bot = engine();
    let handler = handler_for(&mut bot);
    assert_eq!(reply(&handler, &mut bot, "4 genmove W"), "=4 pass");
    assert_eq!(reply(&handler, &mut bot, "genmove Black"), "= pass");
    assert_eq!(reply(&handler, &mut bot, "genmove grey"), "? syntax error");
    assert_eq!(reply(&handler, &mut bot, "genmove w now"), "? syntax error");
    assert_eq!(*bot.calls.borrow(), vec!["genmove white", "genmove black"]);
}

#[test]
fn reg_genmove_and_its_companions() {
    let mut bot = engine();
    bot.reg_genmove = true;
    let handler = handler_for(&mut bot);
    assert_eq!(reply(&handler, &mut bot, "reg_genmove b"), "= K10");
    assert_eq!(reply(&handler, &mut bot, "reg_genmove"), "? syntax error");
    assert_eq!(reply(&handler, &mut bot, "time_left black 10 0"), "= ");
    assert_eq!(*bot.calls.borrow(), vec!["reg_genmove black"]);
    bot.calls.borrow_mut().clear();
    assert_eq!(reply(&handler, &mut bot, "loadsgf game.sgf 12 rest"), "= ");
    assert_eq!(reply(&handler, &mut bot, "loadsgf game.sgf"), "= ");
    assert_eq!(reply(&handler, &mut bot, "loadsgf"), "= ");
    assert_eq!(reply(&handler, &mut bot, "loadsgf game.sgf twelve"), "? syntax error");
    assert_eq!(
        *bot.calls.borrow(),
        vec![
            "loadsgf game.sgf 12".to_string(),
            format!("loadsgf game.sgf {}", usize::MAX),
            format!("loadsgf  {}", usize::MAX),
        ]
    );
    bot.fail = Some(GTPError::InvalidMove);
    assert_eq!(reply(&handler, &mut bot, "loadsgf game.sgf 3"), "? syntax error");
}

#[test]
fn undo() {
    let mut bot = engine();
    bot.undo = true;
    let handler = handler_for(&mut bot);
    assert_eq!(reply(&handler, &mut bot, "undo"), "= ");
    bot.fail = Some(GTPError::CannotUndo);
    assert_eq!(reply(&handler, &mut bot, "8 undo"), "?8 cannot undo");
}

#[test]
fn fixed_handicap() {
    let mut bot = engine();
    bot.fixed_handicap = true;
    bot.stones = vec![Vertex::from_str("D4").unwrap(), Vertex::from_str("Q16").unwrap()];
    let handler = handler_for(&mut bot);
    assert_eq!(reply(&handler, &mut bot, "fixed_handicap 2"), "= D4 Q16");
    assert_eq!(reply(&handler, &mut bot, "fixed_handicap 9"), "= D4 Q16");
    assert_eq!(reply(&handler, &mut bot, "fixed_handicap 1"), "? invalid number of stones");
    assert_eq!(reply(&handler, &mut bot, "fixed_handicap 10"), "? invalid number of stones");
    assert_eq!(reply(&handler, &mut bot, "fixed_handicap"), "? syntax error");
    assert_eq!(reply(&handler, &mut bot, "fixed_handicap two"), "? syntax error");
    assert_eq!(*bot.calls.borrow(), vec!["fixed_handicap 2", "fixed_handicap 9"]);
    bot.fail = Some(GTPError::BoardNotEmpty);
    assert_eq!(reply(&handler, &mut bot, "fixed_handicap 2"), "? board not empty");
    bot.fail = None;
    bot.stones = vec![Vertex::from_str("D4").unwrap()];
    assert_eq!(reply(&handler, &mut bot, "fixed_handicap 2"), "= D4");
    bot.stones = Vec::new();
    assert_eq!(reply(&handler, &mut bot, "fixed_handicap 2"), "= ");
}

#[test]
fn fixed_handicap_goes_by_its_own_entry() {
    let mut bot = engine();
    bot.set_free_handicap = true;
    let handler = handler_for(&mut bot);
    assert_eq!(reply(&handler, &mut bot, "fixed_handicap 2"), "? unknown command");
    assert_eq!(reply(&handler, &mut bot, "known_command fixed_handicap"), "= false");
    assert_eq!(reply(&handler, &mut bot, "known_command set_free_handicap"), "= true");
    assert!(bot.calls.borrow().is_empty());
}

#[test]
fn place_free_handicap() {
    let mut bot = engine();
    bot.place_free_handicap = true;
    bot.stones = vec![
        Vertex::from_str("A1").unwrap(),
        Vertex::from_str("J9").unwrap(),
        Vertex::from_str("Z25").unwrap(),
    ];
    let handler = handler_for(&mut bot);
    assert_eq!(reply(&handler, &mut bot, "place_free_handicap 3"), "= A1 J9 Z25");
    assert_eq!(reply(&handler, &mut bot, "place_free_handicap 400"), "= A1 J9 Z25");
    assert_eq!(reply(&handler, &mut bot, "place_free_handicap 1"), "? invalid number of stones");
    assert_eq!(reply(&handler, &mut bot, "place_free_handicap 0"), "? invalid number of stones");
    assert_eq!(reply(&handler, &mut bot, "place_free_handicap x"), "? syntax error");
    assert_eq!(*bot.calls.borrow(), vec!["place_free_handicap 3", "place_free_handicap 400"]);
    bot.fail = Some(GTPError::BoardNotEmpty);
    assert_eq!(reply(&handler, &mut bot, "place_free_handicap 3"), "? board not empty");
}

#[test]
fn set_free_handicap() {
    let mut bot = engine();
    bot.set_free_handicap = true;
    let handler = handler_for(&mut bot);
    assert_eq!(reply(&handler, &mut bot, "set_free_handicap D4 Q16 k10"), "= ");
    assert_eq!(*bot.calls.borrow(), vec!["set_free_handicap D4,Q16,K10"]);
    bot.calls.borrow_mut().clear();
    assert_eq!(reply(&handler, &mut bot, "set_free_handicap D4"), "? bad vertex list");
    assert_eq!(reply(&handler, &mut bot, "set_free_handicap"), "? syntax error");
    assert_eq!(reply(&handler, &mut bot, "set_free_handicap D4 I5"), "? syntax error");
    assert_eq!(
        handler.dispatch_cmd(&mut bot, "set_free_handicap", "D4  Q16"),
        (false, "syntax error".to_string())
    );
    assert_eq!(reply(&handler, &mut bot, "set_free_handicap D4 pass"), "? syntax error");
    assert!(bot.calls.borrow().is_empty());
    bot.fail = Some(GTPError::BadVertexList);
    assert_eq!(reply(&handler, &mut bot, "set_free_handicap D4 D4"), "? bad vertex list");
    bot.fail = Some(GTPError::BoardNotEmpty);
    assert_eq!(reply(&handler, &mut bot, "set_free_handicap D4 Q16"), "? board not empty");
}

#[test]
fn time_settings() {
    let mut bot = engine();
    bot.time_settings = true;
    let handler = handler_for(&mut bot);
    assert_eq!(reply(&handler, &mut bot, "time_settings 30 5 1"), "= ");
    assert_eq!(reply(&handler, &mut bot, "time_settings 30 5 1 and more"), "= ");
    assert_eq!(reply(&handler, &mut bot, "time_settings 30 5"), "? syntax error");
    assert_eq!(reply(&handler, &mut bot, "time_settings 30 five 1"), "? syntax error");
    assert_eq!(reply(&handler, &mut bot, "time_settings"), "? syntax error");
    assert_eq!(*bot.calls.borrow(), vec!["time_settings 30 5 1", "time_settings 30 5 1"]);
}

#[test]
fn final_status_list() {
    let mut bot = engine();
    bot.final_status_list = true;
    bot.stones = vec![Vertex::from_str("D4").unwrap(), Vertex::from_str("Q16").unwrap()];
    let handler = handler_for(&mut bot);
    assert_eq!(reply(&handler, &mut bot, "final_status_list dead"), "= D4Q16");
    assert_eq!(reply(&handler, &mut bot, "final_status_list SEKI"), "= D4Q16");
    assert_eq!(reply(&handler, &mut bot, "final_status_list alive"), "= D4Q16");
    assert_eq!(reply(&handler, &mut bot, "final_status_list gone"), "? syntax error");
    assert_eq!(reply(&handler, &mut bot, "final_status_list"), "? syntax error");
}

#[test]
fn final_score() {
    let mut bot = engine();
    bot.final_score = true;
    let handler = handler_for(&mut bot);
    assert_eq!(reply(&handler, &mut bot, "final_score"), "= 0");
    bot.score = Some((Colour::White, "6.5".to_string()));
    assert_eq!(reply(&handler, &mut bot, "final_score"), "= w+6.5");
    bot.score = Some((Colour::Black, "12".to_string()));
    assert_eq!(reply(&handler, &mut bot, "1 final_score"), "=1 b+12");
    bot.fail = Some(GTPError::CannotScore);
    assert_eq!(reply(&handler, &mut bot, "final_score"), "? cannot score");
}

#[test]
fn showboard() {
    let mut bot = engine();
    bot.showboard = true;
    let handler = handler_for(&mut bot);
    assert_eq!(
        reply(&handler, &mut bot, "showboard"),
        "= Captured stones : 3 by white and 4 by black.\n 3 . . W\n 2 . W .\n 1 B . .\n\n   A B C"
    );
}

#[test]
fn an_identifier_is_repeated_in_decimal() {
    let mut bot = engine();
    let handler = handler_for(&mut bot);
    assert_eq!(reply(&handler, &mut bot, "0 protocol_version"), "=0 2");
    assert_eq!(reply(&handler, &mut bot, "007 protocol_version"), "=7 2");
    assert_eq!(reply(&handler, &mut bot, "+42 protocol_version"), "=42 2");
    assert_eq!(reply(&handler, &mut bot, "4294967295 protocol_version"), "=4294967295 2");
    assert_eq!(reply(&handler, &mut bot, "4294967296 protocol_version"), "? invalid command");
    assert_eq!(reply(&handler, &mut bot, "12 boardsize x"), "?12 syntax error");
}
