//! The picture of a board in text: a header with the captures, one line for
//! each row from the highest down, and a legend of column letters.

use crate::api::{column_letter, on_board, Vertex};
use crate::text::{decimal_text, push_decimal};
use vstd::prelude::*;

verus! {

/// Whether one of `stones` stands at `(x, y)`.
pub open spec fn holds(stones: Seq<Vertex>, x: int, y: int) -> bool {
    exists|i: int| 0 <= i < stones.len() && (#[trigger] stones[i])@ == (x, y)
}

/// The mark of the point `(x, y)`: `W` under a white stone, `B` under a
/// black one, `.` where it is empty. Where both lists name the point, white
/// shows.
pub open spec fn mark(black: Seq<Vertex>, white: Seq<Vertex>, x: int, y: int) -> char {
    if holds(white, x, y) {
        'W'
    } else if holds(black, x, y) {
        'B'
    } else {
        '.'
    }
}

/// The first `n` points of row `y`, each as a space and its mark.
pub open spec fn marks(black: Seq<Vertex>, white: Seq<Vertex>, y: int, n: nat) -> Seq<char>
    decreases n,
{
    if n == 0 {
        Seq::empty()
    } else {
        marks(black, white, y, (n - 1) as nat) + seq![' ', mark(black, white, n as int, y)]
    }
}

/// The number `n` in decimal, set to the right in two columns.
pub open spec fn two_wide(n: nat) -> Seq<char> {
    if n < 10 {
        seq![' '] + decimal_text(n)
    } else {
        decimal_text(n)
    }
}

/// The line of row `y` on a board of the given size.
pub open spec fn row_text(size: nat, black: Seq<Vertex>, white: Seq<Vertex>, y: int) -> Seq<
    char,
> {
    two_wide(y as nat) + marks(black, white, y, size) + seq!['\n']
}

/// The lines of the `count` highest rows, the highest first.
pub open spec fn rows_text(size: nat, black: Seq<Vertex>, white: Seq<Vertex>, count: nat) -> Seq<
    char,
>
    decreases count,
{
    if count == 0 {
        Seq::empty()
    } else {
        rows_text(size, black, white, (count - 1) as nat) + row_text(
            size,
            black,
            white,
            size - count + 1,
        )
    }
}

/// The letters of the first `n` columns, each after a space.
pub open spec fn legend(n: nat) -> Seq<char>
    decreases n,
{
    if n == 0 {
        Seq::empty()
    } else {
        legend((n - 1) as nat) + seq![' ', column_letter(n as int)]
    }
}

/// The header: how many stones each side has had captured.
pub open spec fn header(black_cp: nat, white_cp: nat) -> Seq<char> {
    "Captured stones : "@ + decimal_text(black_cp) + " by white and "@ + decimal_text(white_cp)
        + " by black.\n"@
}

/// The picture of the board: the header, the rows from the highest to the
/// lowest, an empty line, and the legend under the columns.
pub open spec fn board_text(
    size: nat,
    black: Seq<Vertex>,
    white: Seq<Vertex>,
    black_cp: nat,
    white_cp: nat,
) -> Seq<char> {
    header(black_cp, white_cp) + rows_text(size, black, white, size) + "\n  "@ + legend(size)
}

/// Where the point `(x, y)` lies in the grid.
pub open spec fn slot(x: int, y: int) -> int {
    (y - 1) * 25 + (x - 1)
}

/// Whether `grid` shows `stones` with the mark `m`, and elsewhere what
/// `under` shows.
pub open spec fn laid(grid: Seq<u8>, under: Seq<u8>, stones: Seq<Vertex>, m: u8) -> bool {
    &&& grid.len() == 625
    &&& forall|x: int, y: int|
        #![trigger grid[slot(x, y)]]
        on_board(x, y) ==> grid[slot(x, y)] == if holds(stones, x, y) {
            m
        } else {
            under[slot(x, y)]
        }
}

/// Marks the points of `stones` with `m` in `grid`.
fn lay(grid: &mut Vec<u8>, stones: &[Vertex], m: u8)
    requires
        old(grid).len() == 625,
    ensures
        laid(final(grid)@, old(grid)@, stones@, m),
{
    let mut k: usize = 0;
    assert(laid(grid@, old(grid)@, stones@.take(0), m)) by {
        assert forall|x: int, y: int| on_board(x, y) implies !holds(stones@.take(0), x, y) by {}
    }
    while k < stones.len()
        invariant
            k <= stones.len(),
            old(grid).len() == 625,
            laid(grid@, old(grid)@, stones@.take(k as int), m),
        decreases stones.len() - k,
    {
        let (l, n) = stones[k].to_coords();
        let at: usize = (n as usize - 1) * 25 + (l as usize - 1);
        let ghost before = grid@;
        grid.set(at, m);
        proof {
            let done = stones@.take(k as int);
            let more = stones@.take(k + 1);
            assert(more[k as int] == stones@[k as int]);
            assert forall|x: int, y: int| on_board(x, y) implies grid@[slot(x, y)] == if holds(
                more,
                x,
                y,
            ) {
                m
            } else {
                old(grid)@[slot(x, y)]
            } by {
                assert(before[slot(x, y)] == if holds(done, x, y) {
                    m
                } else {
                    old(grid)@[slot(x, y)]
                });
                if holds(done, x, y) {
                    let i = choose|i: int| 0 <= i < done.len() && (#[trigger] done[i])@ == (x, y);
                    assert(more[i] == done[i]);
                }
                if holds(more, x, y) {
                    let i = choose|i: int| 0 <= i < more.len() && (#[trigger] more[i])@ == (x, y);
                    if i < k {
                        assert(done[i] == more[i]);
                    }
                }
            }
        }
        k += 1;
    }
    assert(stones@.take(k as int) == stones@);
}

/// Appends the line of row `y` to `out`.
fn push_row(out: &mut String, grid: &Vec<u8>, size: usize, y: usize, Ghost(black): Ghost<
    Seq<Vertex>,
>, Ghost(white): Ghost<Seq<Vertex>>)
    requires
        1 <= y <= size <= 25,
        grid.len() == 625,
        forall|x: int, y: int|
            #![trigger grid@[slot(x, y)]]
            on_board(x, y) ==> grid@[slot(x, y)] == if holds(white, x, y) {
                2u8
            } else if holds(black, x, y) {
                1u8
            } else {
                0u8
            },
    ensures
        final(out)@ == old(out)@ + row_text(size as nat, black, white, y as int),
{
    if y < 10 {
        out.push(' ');
    }
    push_decimal(out, y as u64);
    assert(out@ == old(out)@ + two_wide(y as nat));
    let mut l: usize = 0;
    while l < size
        invariant
            l <= size <= 25,
            1 <= y <= 25,
            grid.len() == 625,
            forall|x: int, y: int|
                #![trigger grid@[slot(x, y)]]
                on_board(x, y) ==> grid@[slot(x, y)] == if holds(white, x, y) {
                    2u8
                } else if holds(black, x, y) {
                    1u8
                } else {
                    0u8
                },
            out@ == old(out)@ + two_wide(y as nat) + marks(black, white, y as int, l as nat),
        decreases size - l,
    {
        let at: usize = (y - 1) * 25 + l;
        assert(at == slot(l + 1, y as int));
        let m: u8 = grid[at];
        let ghost before = out@;
        out.push(' ');
        out.push(
            if m == 1 {
                'B'
            } else if m == 2 {
                'W'
            } else {
                '.'
            },
        );
        l += 1;
        proof {
            let c = mark(black, white, l as int, y as int);
            assert(out@ == before.push(' ').push(c));
            assert(before.push(' ').push(c) == before + seq![' ', c]);
            assert(old(out)@ + two_wide(y as nat) + marks(black, white, y as int, l as nat)
                == before + seq![' ', c]);
        }
    }
    out.push('\n');
    assert(final(out)@ == old(out)@ + row_text(size as nat, black, white, y as int));
}

/// Draws the board: `black_st` and `white_st` are the stones on it,
/// `black_cp` and `white_cp` the counts that the header reports. Stones
/// beyond the size of the board are not shown.
pub fn draw_board(
    boardsize: usize,
    black_st: &[Vertex],
    white_st: &[Vertex],
    black_cp: usize,
    white_cp: usize,
) -> (output: String)
    requires
        1 <= boardsize <= 25,
    ensures
        output@ == board_text(
            boardsize as nat,
            black_st@,
            white_st@,
            black_cp as nat,
            white_cp as nat,
        ),
{
    let mut output = "Captured stones : ".to_string();
    push_decimal(&mut output, black_cp as u64);
    output.append(" by white and ");
    push_decimal(&mut output, white_cp as u64);
    output.append(" by black.\n");
    assert(output@ == header(black_cp as nat, white_cp as nat));
    // black is 1, white is 2
    let mut board: Vec<u8> = Vec::new();
    while board.len() < 625
        invariant
            board.len() <= 625,
            forall|i: int| 0 <= i < board.len() ==> board@[i] == 0,
        decreases 625 - board.len(),
    {
        board.push(0);
    }
    let ghost empty = board@;
    lay(&mut board, black_st, 1);
    let ghost blacks = board@;
    lay(&mut board, white_st, 2);
    assert forall|x: int, y: int| on_board(x, y) implies board@[slot(x, y)] == if holds(
        white_st@,
        x,
        y,
    ) {
        2u8
    } else if holds(black_st@, x, y) {
        1u8
    } else {
        0u8
    } by {
        assert(blacks[slot(x, y)] == if holds(black_st@, x, y) {
            1u8
        } else {
            empty[slot(x, y)]
        });
    }
    let mut n: usize = 0;
    while n < boardsize
        invariant
            n <= boardsize <= 25,
            board.len() == 625,
            forall|x: int, y: int|
                #![trigger board@[slot(x, y)]]
                on_board(x, y) ==> board@[slot(x, y)] == if holds(white_st@, x, y) {
                    2u8
                } else if holds(black_st@, x, y) {
                    1u8
                } else {
                    0u8
                },
            output@ == header(black_cp as nat, white_cp as nat) + rows_text(
                boardsize as nat,
                black_st@,
                white_st@,
                n as nat,
            ),
        decreases boardsize - n,
    {
        let ghost before = output@;
        push_row(&mut output, &board, boardsize, boardsize - n, Ghost(black_st@), Ghost(white_st@));
        n += 1;
        proof {
            let row = row_text(boardsize as nat, black_st@, white_st@, boardsize - n + 1);
            let above = rows_text(boardsize as nat, black_st@, white_st@, (n - 1) as nat);
            assert(header(black_cp as nat, white_cp as nat) + above + row == header(
                black_cp as nat,
                white_cp as nat,
            ) + (above + row));
        }
    }
    output.append("\n  ");
    let ghost body = output@;
    let mut l: usize = 0;
    while l < boardsize
        invariant
            l <= boardsize <= 25,
            output@ == body + legend(l as nat),
        decreases boardsize - l,
    {
        let ghost before = output@;
        let letter: u8 = if l < 8 {
            0x41 + l as u8
        } else {
            0x42 + l as u8
        };
        output.push(' ');
        output.push(letter as char);
        l += 1;
        proof {
            let c = column_letter(l as int);
            assert(output@ == before.push(' ').push(c));
            assert(before.push(' ').push(c) == before + seq![' ', c]);
            assert(body + legend(l as nat) == before + seq![' ', c]);
        }
    }
    output
}

} // verus!
