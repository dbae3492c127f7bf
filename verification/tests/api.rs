use gtprust::api::{Colour, ColouredMove, Move, Vertex};

#[test]
fn vertex_to_string() {
    let vrtx1 = Vertex::from_coords(8u8, 7u8).unwrap();
    assert_eq!(&vrtx1.to_string(), "H7");
    let vrtx2 = Vertex::from_coords(9u8, 13u8).unwrap();
    assert_eq!(&vrtx2.to_string(), "J13");
    let vrtx3 = Vertex::from_coords(19u8, 1u8).unwrap();
    assert_eq!(&vrtx3.to_string(), "T1");
}

#[test]
fn string_to_vertex() {
    let vrtx1 = Vertex::from_str("C7").unwrap();
    assert_eq!(vrtx1.to_coords(), (3u8, 7u8));
    let vrtx2 = Vertex::from_str("J11").unwrap();
    assert_eq!(vrtx2.to_coords(), (9u8, 11u8));
    let vrtx3 = Vertex::from_str("Z25").unwrap();
    assert_eq!(vrtx3.to_coords(), (25u8, 25u8));
}

#[test]
#[should_panic]
fn too_big_coordinates() {
    let vrtx = Vertex::from_coords(26u8, 13u8).unwrap();
    assert_eq!(vrtx.to_coords(), (26u8, 13u8));
}

#[test]
#[should_panic]
fn invalid_string() {
    let vrtx = Vertex::from_str("I13").unwrap();
    assert_eq!(vrtx.to_coords(), (9u8, 13u8));
}

#[test]
fn from_coords_accepts_exactly_the_board() {
    for x in 0u8..=255 {
        for y in 0u8..=255 {
            let on_board = 1 <= x && x <= 25 && 1 <= y && y <= 25;
            match Vertex::from_coords(x, y) {
                Some(v) => {
                    assert!(on_board);
                    assert_eq!(v.to_coords(), (x, y));
                }
                None => assert!(!on_board),
            }
        }
    }
}

#[test]
fn vertex_text_round_trip() {
    for x in 1u8..=25 {
        for y in 1u8..=25 {
            let v = Vertex::from_coords(x, y).unwrap();
            let text = v.to_string();
            assert!(!text.contains('I'));
            assert_eq!(Vertex::from_str(&text), Some(v));
        }
    }
    assert_eq!(Vertex::from_str("A1").unwrap().to_coords(), (1, 1));
    assert_eq!(Vertex::from_str("J1").unwrap().to_coords(), (9, 1));
    assert_eq!(Vertex::from_str("T19").unwrap().to_coords(), (19, 19));
}

#[test]
fn vertex_letters_skip_i() {
    assert_eq!(Vertex::from_coords(1, 1).unwrap().to_string(), "A1");
    assert_eq!(Vertex::from_coords(8, 25).unwrap().to_string(), "H25");
    assert_eq!(Vertex::from_coords(9, 9).unwrap().to_string(), "J9");
    assert_eq!(Vertex::from_coords(25, 10).unwrap().to_string(), "Z10");
}

#[test]
fn from_str_rejects_malformed_and_out_of_range() {
    assert_eq!(Vertex::from_str("Z26"), None);
    assert_eq!(Vertex::from_str("I5"), None);
    assert_eq!(Vertex::from_str("i5"), None);
    assert_eq!(Vertex::from_str(""), None);
    assert_eq!(Vertex::from_str("A"), None);
    assert_eq!(Vertex::from_str("A0"), None);
    assert_eq!(Vertex::from_str("A00"), None);
    assert_eq!(Vertex::from_str("A100"), None);
    assert_eq!(Vertex::from_str("A1 "), None);
    assert_eq!(Vertex::from_str("A-1"), None);
    assert_eq!(Vertex::from_str("A+"), None);
    assert_eq!(Vertex::from_str("11"), None);
    assert_eq!(Vertex::from_str("@1"), None);
    assert_eq!(Vertex::from_str("[1"), None);
    assert_eq!(Vertex::from_str("{1"), None);
    assert_eq!(Vertex::from_str("\u{c9}1"), None);
    assert_eq!(Vertex::from_str("A\u{b2}"), None);
}

#[test]
fn from_str_reads_the_row_as_a_literal() {
    assert_eq!(Vertex::from_str("A05"), Vertex::from_coords(1, 5));
    assert_eq!(Vertex::from_str("A+5"), Vertex::from_coords(1, 5));
    assert_eq!(Vertex::from_str("B25"), Vertex::from_coords(2, 25));
}

#[test]
fn from_str_takes_both_cases() {
    assert_eq!(Vertex::from_str("a1"), Vertex::from_coords(1, 1));
    assert_eq!(Vertex::from_str("h8"), Vertex::from_coords(8, 8));
    assert_eq!(Vertex::from_str("j9"), Vertex::from_coords(9, 9));
    assert_eq!(Vertex::from_str("z25"), Vertex::from_coords(25, 25));
}

#[test]
fn move_and_colour_text() {
    assert_eq!(Move::Pass.to_string(), "pass");
    assert_eq!(Move::Resign.to_string(), "resign");
    let d4 = Vertex::from_coords(4, 4).unwrap();
    assert_eq!(Move::Stone(d4).to_string(), "D4");
    assert_eq!(Colour::Black.to_string(), "black");
    assert_eq!(Colour::White.to_string(), "white");
    let mv = ColouredMove { player: Colour::White, mov: Move::Stone(d4) };
    assert_eq!(mv.to_string(), "whiteD4");
    let pass = ColouredMove { player: Colour::Black, mov: Move::Pass };
    assert_eq!(pass.to_string(), "blackpass");
}
