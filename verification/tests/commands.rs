use gtprust::api::{Colour, ColouredMove, GTPError, Move, Score, Vertex};
use gtprust::boarddrawer::draw_board;
use gtprust::commands::{
    done_reply, failure, format_response, implemented, join_vertices, name_command, parse_count,
    parse_loadsgf, parse_play, parse_time, parse_vertices, score_reply, stones_reply, CommandName,
};

fn vertices(names: &[&str]) -> Vec<Vertex> {
    names.iter().map(|n| Vertex::from_str(n).unwrap()).collect()
}

#[test]
fn every_name_has_its_command() {
    let table = [
        ("protocol_version", CommandName::ProtocolVersion),
        ("name", CommandName::Name),
        ("version", CommandName::Version),
        ("known_command", CommandName::KnownCommand),
        ("list_commands", CommandName::ListCommands),
        ("quit", CommandName::Quit),
        ("boardsize", CommandName::Boardsize),
        ("clear_board", CommandName::ClearBoard),
        ("komi", CommandName::Komi),
        ("play", CommandName::Play),
        ("genmove", CommandName::Genmove),
        ("loadsgf", CommandName::Loadsgf),
        ("reg_genmove", CommandName::RegGenmove),
        ("fixed_handicap", CommandName::FixedHandicap),
        ("set_free_handicap", CommandName::SetFreeHandicap),
        ("place_free_handicap", CommandName::PlaceFreeHandicap),
        ("undo", CommandName::Undo),
        ("time_settings", CommandName::TimeSettings),
        ("time_left", CommandName::TimeLeft),
        ("final_status_list", CommandName::FinalStatusList),
        ("final_score", CommandName::FinalScore),
        ("showboard", CommandName::Showboard),
    ];
    for (name, command) in table {
        assert_eq!(name_command(name), command);
        assert_eq!(name_command(&name.to_uppercase()), CommandName::Custom);
        assert_eq!(name_command(&format!("{} ", name)), CommandName::Custom);
        assert_eq!(name_command(&name[1..]), CommandName::Custom);
    }
    assert_eq!(name_command(""), CommandName::Custom);
    assert_eq!(name_command("set_free_handiciap"), CommandName::Custom);
}

#[test]
fn every_error_has_its_text() {
    assert_eq!(failure(GTPError::InvalidBoardSize), (false, "invalid board size".to_string()));
    assert_eq!(failure(GTPError::InvalidMove), (false, "invalid move".to_string()));
    assert_eq!(failure(GTPError::BadVertexList), (false, "bad vertex list".to_string()));
    assert_eq!(failure(GTPError::BoardNotEmpty), (false, "board not empty".to_string()));
    assert_eq!(failure(GTPError::CannotUndo), (false, "cannot undo".to_string()));
    assert_eq!(failure(GTPError::CannotScore), (false, "cannot score".to_string()));
}

#[test]
fn replies_to_answers() {
    assert_eq!(done_reply(Ok(())), (true, String::new()));
    assert_eq!(done_reply(Err(GTPError::InvalidMove)), (false, "invalid move".to_string()));
    assert_eq!(stones_reply(Ok(vertices(&["D4", "Q16"])), " "), (true, "D4 Q16".to_string()));
    assert_eq!(stones_reply(Ok(vertices(&["D4", "Q16"])), ""), (true, "D4Q16".to_string()));
    assert_eq!(stones_reply(Ok(Vec::new()), " "), (true, String::new()));
    assert_eq!(
        stones_reply(Err(GTPError::BoardNotEmpty), " "),
        (false, "board not empty".to_string())
    );
    assert_eq!(score_reply(Ok(Score::Draw)), (true, "0".to_string()));
    assert_eq!(
        score_reply(Ok(Score::Win(Colour::White, "0.5".to_string()))),
        (true, "w+0.5".to_string())
    );
    assert_eq!(
        score_reply(Ok(Score::Win(Colour::Black, "21".to_string()))),
        (true, "b+21".to_string())
    );
    assert_eq!(score_reply(Err(GTPError::CannotScore)), (false, "cannot score".to_string()));
    assert_eq!(join_vertices(&vertices(&["A1"]), ", "), "A1");
    assert_eq!(join_vertices(&vertices(&["A1", "B2", "C3"]), ", "), "A1, B2, C3");
}

#[test]
fn only_not_implemented_shows_an_operation_absent() {
    assert!(!implemented::<()>(&Err(GTPError::NotImplemented)));
    assert!(implemented(&Ok(())));
    assert!(implemented(&Ok(Move::Pass)));
    for e in [
        GTPError::InvalidBoardSize,
        GTPError::InvalidMove,
        GTPError::BadVertexList,
        GTPError::BoardNotEmpty,
        GTPError::CannotUndo,
        GTPError::CannotScore,
    ] {
        assert!(implemented::<()>(&Err(e)));
    }
}

#[test]
fn response_lines() {
    assert_eq!(format_response(true, Some(1), ""), "=1 ");
    assert_eq!(format_response(true, None, ""), "= ");
    assert_eq!(format_response(true, Some(4), "pass"), "=4 pass");
    assert_eq!(format_response(false, Some(0), "syntax error"), "?0 syntax error");
    assert_eq!(format_response(false, None, "unknown command"), "? unknown command");
    assert_eq!(format_response(true, Some(u32::MAX), "x"), "=4294967295 x");
}

#[test]
fn arguments_of_commands() {
    assert_eq!(parse_count("19"), Some(19));
    assert_eq!(parse_count("+19"), Some(19));
    assert_eq!(parse_count("19 "), None);
    assert_eq!(parse_count(""), None);
    assert_eq!(parse_count(&usize::MAX.to_string()), Some(usize::MAX));
    assert_eq!(parse_count(&format!("{}0", usize::MAX)), None);
    let d4 = Vertex::from_str("D4").unwrap();
    assert_eq!(
        parse_play("w D4"),
        Some(ColouredMove { player: Colour::White, mov: Move::Stone(d4) })
    );
    assert_eq!(
        parse_play("Black PASS now"),
        Some(ColouredMove { player: Colour::Black, mov: Move::Pass })
    );
    assert_eq!(parse_play("w"), None);
    assert_eq!(parse_play("w  D4"), None);
    assert_eq!(parse_loadsgf("a.sgf 3"), Some(("a.sgf".to_string(), 3)));
    assert_eq!(parse_loadsgf("a.sgf 3 4 5"), Some(("a.sgf".to_string(), 3)));
    assert_eq!(parse_loadsgf("a.sgf"), Some(("a.sgf".to_string(), usize::MAX)));
    assert_eq!(parse_loadsgf(""), Some((String::new(), usize::MAX)));
    assert_eq!(parse_loadsgf("a.sgf x"), None);
    assert_eq!(parse_loadsgf("a.sgf "), None);
    assert_eq!(parse_time("1 2 3"), Some((1, 2, 3)));
    assert_eq!(parse_time("1 2 3 4"), Some((1, 2, 3)));
    assert_eq!(parse_time("1 2"), None);
    assert_eq!(parse_time("1 2 x"), None);
    assert_eq!(parse_time("1  2 3"), None);
    assert_eq!(parse_vertices("D4 Q16"), Some(vertices(&["D4", "Q16"])));
    assert_eq!(parse_vertices("D4"), Some(vertices(&["D4"])));
    assert_eq!(parse_vertices(""), None);
    assert_eq!(parse_vertices("D4 "), None);
    assert_eq!(parse_vertices("D4 I4"), None);
}

#[test]
fn board_of_one_point() {
    assert_eq!(
        draw_board(1, &[], &[], 0, 0),
        "Captured stones : 0 by white and 0 by black.\n 1 .\n\n   A"
    );
    assert_eq!(
        draw_board(1, &vertices(&["A1"]), &[], 10, 200),
        "Captured stones : 10 by white and 200 by black.\n 1 B\n\n   A"
    );
}

#[test]
fn board_with_stones() {
    let black = vertices(&["A1", "B2", "J9", "K10", "Z25"]);
    let white = vertices(&["C3", "B2", "J10"]);
    let expected = "Captured stones : 3 by white and 4 by black.\n\
10 . . . . . . . . W B\n \
9 . . . . . . . . B .\n \
8 . . . . . . . . . .\n \
7 . . . . . . . . . .\n \
6 . . . . . . . . . .\n \
5 . . . . . . . . . .\n \
4 . . . . . . . . . .\n \
3 . . W . . . . . . .\n \
2 . W . . . . . . . .\n \
1 B . . . . . . . . .\n\
\n   A B C D E F G H J K";
    assert_eq!(draw_board(10, &black, &white, 3, 4), expected);
}

#[test]
fn board_of_full_size() {
    let text = draw_board(25, &vertices(&["Z25"]), &vertices(&["A1"]), 0, 0);
    let lines: Vec<&str> = text.split('\n').collect();
    assert_eq!(lines.len(), 28);
    assert_eq!(lines[1], format!("25{} B", " .".repeat(24)));
    assert_eq!(lines[25], format!(" 1 W{}", " .".repeat(24)));
    assert_eq!(lines[26], "");
    assert_eq!(lines[27], "   A B C D E F G H J K L M N O P Q R S T U V W X Y Z");
}
