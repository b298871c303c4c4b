//! Tic-tac-toe board rules: the cell grid, winner detection, and the
//! queries a game loop needs when deciding its next move.

use vstd::prelude::*;

verus! {

/// One of the two players.
#[derive(Clone, Copy, Debug, PartialEq, Eq, Structural)]
pub enum Player {
    User,
    Computer,
}

/// The 3 by 3 grid of cells, row-major; `None` is an empty cell.
pub type Board = [[Option<Player>; 3]; 3];

/// The cell of `b` at row `r`, column `c`.
pub open spec fn cell(b: Board, r: int, c: int) -> Option<Player> {
    b[r][c]
}

/// The coordinates of position `j` on line `k`. Lines are numbered in the
/// scan order of winner detection: the three rows, then the three
/// columns, then the main diagonal, then the anti-diagonal.
pub open spec fn line_coord(k: int, j: int) -> (int, int) {
    if k < 3 {
        (k, j)
    } else if k < 6 {
        (j, k - 3)
    } else if k == 6 {
        (j, j)
    } else {
        (j, 2 - j)
    }
}

/// The player holding all three cells of line `k`, if any.
pub open spec fn line_winner(b: Board, k: int) -> Option<Player> {
    let c0 = cell(b, line_coord(k, 0).0, line_coord(k, 0).1);
    let c1 = cell(b, line_coord(k, 1).0, line_coord(k, 1).1);
    let c2 = cell(b, line_coord(k, 2).0, line_coord(k, 2).1);
    if c0 is Some && c1 == c0 && c2 == c0 {
        c0
    } else {
        None
    }
}

/// Line `k` is fully held by one player.
pub open spec fn win_at(b: Board, k: int) -> bool {
    line_winner(b, k) is Some
}

/// The first won line in scan order, or 8 when no line is won.
pub open spec fn first_win_line(b: Board) -> int {
    if win_at(b, 0) {
        0
    } else if win_at(b, 1) {
        1
    } else if win_at(b, 2) {
        2
    } else if win_at(b, 3) {
        3
    } else if win_at(b, 4) {
        4
    } else if win_at(b, 5) {
        5
    } else if win_at(b, 6) {
        6
    } else if win_at(b, 7) {
        7
    } else {
        8
    }
}

/// Whether `x` holds exactly the player `p`.
fn is_player(x: Option<Player>, p: Player) -> (r: bool)
    ensures
        r == (x == Some(p)),
{
    match x {
        Some(q) => match (q, p) {
            (Player::User, Player::User) => true,
            (Player::Computer, Player::Computer) => true,
            _ => false,
        },
        None => false,
    }
}

/// The nine cell coordinates in row-major order.
pub fn coords() -> (r: Vec<(usize, usize)>)
    ensures
        r@.len() == 9,
        forall|k: int| 0 <= k < 9 ==> (#[trigger] r@[k]).0 == k / 3 && r@[k].1 == k % 3,
{
    let mut out: Vec<(usize, usize)> = Vec::new();
    let mut row: usize = 0;
    while row < 3
        invariant
            row <= 3,
            out@.len() == row * 3,
            forall|k: int| 0 <= k < out@.len() ==> (#[trigger] out@[k]).0 == k / 3 && out@[k].1
                == k % 3,
        decreases 3 - row,
    {
        let mut col: usize = 0;
        while col < 3
            invariant
                row < 3,
                col <= 3,
                out@.len() == row * 3 + col,
                forall|k: int| 0 <= k < out@.len() ==> (#[trigger] out@[k]).0 == k / 3 && out@[k].1
                    == k % 3,
            decreases 3 - col,
        {
            out.push((row, col));
            col += 1;
        }
        row += 1;
    }
    out
}

/// The empty cells among the first `n` cells in row-major order.
pub open spec fn empty_cells_upto(b: Board, n: int) -> Seq<(usize, usize)>
    decreases n,
{
    if n <= 0 {
        Seq::empty()
    } else if cell(b, (n - 1) / 3, (n - 1) % 3) is None {
        empty_cells_upto(b, n - 1) + seq![((((n - 1) / 3) as usize), (((n - 1) % 3) as usize))]
    } else {
        empty_cells_upto(b, n - 1)
    }
}

/// How many of the first `n` cells, in row-major order, hold `p`.
pub open spec fn count_marks_upto(b: Board, p: Player, n: int) -> int
    decreases n,
{
    if n <= 0 {
        0
    } else if cell(b, (n - 1) / 3, (n - 1) % 3) == Some(p) {
        count_marks_upto(b, p, n - 1) + 1
    } else {
        count_marks_upto(b, p, n - 1)
    }
}

/// The coordinates of every empty cell, in row-major order: the
/// candidates from which a game loop picks the computer's move.
pub fn empty_cells(board: Board) -> (r: Vec<(usize, usize)>)
    ensures
        r@ == empty_cells_upto(board, 9),
{
    let mut out: Vec<(usize, usize)> = Vec::new();
    let mut row: usize = 0;
    while row < 3
        invariant
            row <= 3,
            out@ == empty_cells_upto(board, row as int * 3),
        decreases 3 - row,
    {
        let mut col: usize = 0;
        while col < 3
            invariant
                row < 3,
                col <= 3,
                out@ == empty_cells_upto(board, row as int * 3 + col),
            decreases 3 - col,
        {
            let n = row * 3 + col;
            proof {
                assert((n as int + 1 - 1) / 3 == row && (n as int + 1 - 1) % 3 == col as int);
            }
            if board[row][col].is_none() {
                out.push((row, col));
            }
            col += 1;
        }
        row += 1;
    }
    out
}

/// How many cells hold `p`: how a game loop tells whose turn it is.
pub fn count_marks(board: Board, p: Player) -> (n: usize)
    ensures
        n as int == count_marks_upto(board, p, 9),
{
    let mut total: usize = 0;
    let mut row: usize = 0;
    while row < 3
        invariant
            row <= 3,
            total <= row * 3,
            total as int == count_marks_upto(board, p, row as int * 3),
        decreases 3 - row,
    {
        let mut col: usize = 0;
        while col < 3
            invariant
                row < 3,
                col <= 3,
                total <= row * 3 + col,
                total as int == count_marks_upto(board, p, row as int * 3 + col),
            decreases 3 - col,
        {
            let n = row * 3 + col;
            proof {
                assert((n as int + 1 - 1) / 3 == row && (n as int + 1 - 1) % 3 == col as int);
            }
            if is_player(board[row][col], p) {
                total += 1;
            }
            col += 1;
        }
        row += 1;
    }
    total
}

/// The winning player together with the three cells of the won line, or
/// `None` when no line is won. When several lines are won at once, the
/// first in scan order — rows, columns, main diagonal, anti-diagonal —
/// is reported.
pub fn get_winner(board: Board) -> (r: Option<(Player, [(usize, usize); 3])>)
    ensures
        (r is None) <==> forall|k: int| 0 <= k < 8 ==> !win_at(board, k),
        r matches Some(pc) ==> {
            let k = first_win_line(board);
            &&& 0 <= k < 8
            &&& Some(pc.0) == line_winner(board, k)
            &&& forall|j: int| 0 <= j < 3 ==> ((#[trigger] pc.1[j]).0 as int, pc.1[j].1 as int)
                == line_coord(k, j)
        },
{
    let mut r: usize = 0;
    while r < 3
        invariant
            r <= 3,
            forall|k: int| 0 <= k < r ==> !win_at(board, k),
        decreases 3 - r,
    {
        if let Some(p) = board[r][0] {
            if is_player(board[r][1], p) && is_player(board[r][2], p) {
                return Some((p, [(r, 0), (r, 1), (r, 2)]));
            }
        }
        proof {
            assert(!win_at(board, r as int));
        }
        r += 1;
    }
    let mut c: usize = 0;
    while c < 3
        invariant
            c <= 3,
            forall|k: int| 0 <= k < 3 + c ==> !win_at(board, k),
        decreases 3 - c,
    {
        if let Some(p) = board[0][c] {
            if is_player(board[1][c], p) && is_player(board[2][c], p) {
                return Some((p, [(0, c), (1, c), (2, c)]));
            }
        }
        proof {
            assert(!win_at(board, 3 + c as int));
        }
        c += 1;
    }
    if let Some(p) = board[0][0] {
        if is_player(board[1][1], p) && is_player(board[2][2], p) {
            return Some((p, [(0, 0), (1, 1), (2, 2)]));
        }
    }
    proof {
        assert(!win_at(board, 6));
    }
    if let Some(p) = board[0][2] {
        if is_player(board[1][1], p) && is_player(board[2][0], p) {
            return Some((p, [(0, 2), (1, 1), (2, 0)]));
        }
    }
    proof {
        assert(!win_at(board, 7));
    }
    None
}

} // verus!
