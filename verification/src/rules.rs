//! The rule engine: stateless win and draw detection over a board snapshot.
//!
//! A board is a row-major sequence of 9 cells. The engine is pure: it reads
//! a board and a player and decides whether a winning line exists, or
//! whether the board is full.

use vstd::prelude::*;

verus! {

/// One position of the 3x3 board: empty, or holding a player's mark.
#[derive(Clone, Copy, Debug, PartialEq, Eq, Structural)]
pub enum Cell {
    Empty,
    X,
    O,
}

/// One of the two players.
#[derive(Clone, Copy, Debug, PartialEq, Eq, Structural)]
pub enum Player {
    X,
    O,
}

impl Player {
    /// The mark this player places; never `Cell::Empty`.
    pub open spec fn mark(self) -> Cell {
        match self {
            Player::X => Cell::X,
            Player::O => Cell::O,
        }
    }

    /// The opponent.
    pub open spec fn other_spec(self) -> Player {
        match self {
            Player::X => Player::O,
            Player::O => Player::X,
        }
    }

    /// Returns the opponent.
    pub fn other(self) -> (p: Player)
        ensures
            p == self.other_spec(),
    {
        match self {
            Player::X => Player::O,
            Player::O => Player::X,
        }
    }

    /// Returns the mark this player places.
    pub fn mark_cell(self) -> (c: Cell)
        ensures
            c == self.mark(),
    {
        match self {
            Player::X => Cell::X,
            Player::O => Cell::O,
        }
    }
}

/// The row-major index of the cell at row `r`, column `c`.
pub open spec fn idx(r: int, c: int) -> int {
    3 * r + c
}

/// Row `r` is uniformly occupied by `p`'s mark.
pub open spec fn row_won(b: Seq<Cell>, p: Player, r: int) -> bool {
    &&& b[idx(r, 0)] == p.mark()
    &&& b[idx(r, 1)] == p.mark()
    &&& b[idx(r, 2)] == p.mark()
}

/// Column `c` is uniformly occupied by `p`'s mark.
pub open spec fn col_won(b: Seq<Cell>, p: Player, c: int) -> bool {
    &&& b[idx(0, c)] == p.mark()
    &&& b[idx(1, c)] == p.mark()
    &&& b[idx(2, c)] == p.mark()
}

/// The main diagonal is uniformly occupied by `p`'s mark.
pub open spec fn diag_won(b: Seq<Cell>, p: Player) -> bool {
    &&& b[idx(0, 0)] == p.mark()
    &&& b[idx(1, 1)] == p.mark()
    &&& b[idx(2, 2)] == p.mark()
}

/// The anti-diagonal is uniformly occupied by `p`'s mark.
pub open spec fn anti_diag_won(b: Seq<Cell>, p: Player) -> bool {
    &&& b[idx(0, 2)] == p.mark()
    &&& b[idx(1, 1)] == p.mark()
    &&& b[idx(2, 0)] == p.mark()
}

/// One of the 8 winning lines (3 rows, 3 columns, 2 diagonals) is uniformly
/// occupied by `p`'s mark. Since `p.mark()` is never `Cell::Empty`, an
/// all-empty line never wins.
pub open spec fn wins(b: Seq<Cell>, p: Player) -> bool {
    ||| row_won(b, p, 0)
    ||| row_won(b, p, 1)
    ||| row_won(b, p, 2)
    ||| col_won(b, p, 0)
    ||| col_won(b, p, 1)
    ||| col_won(b, p, 2)
    ||| diag_won(b, p)
    ||| anti_diag_won(b, p)
}

/// Every cell of the board is occupied.
pub open spec fn board_full(b: Seq<Cell>) -> bool {
    forall|i: int| 0 <= i < 9 ==> b[i] != Cell::Empty
}

/// Every cell of the board is empty.
pub open spec fn all_empty(b: Seq<Cell>) -> bool {
    forall|i: int| 0 <= i < 9 ==> b[i] == Cell::Empty
}

/// `wins` holds exactly when some row, some column, or some diagonal is
/// uniformly occupied by the player's mark.
pub proof fn lemma_wins_iff_some_line(b: Seq<Cell>, p: Player)
    ensures
        wins(b, p) <==> ({
            ||| (exists|r: int| 0 <= r < 3 && row_won(b, p, r))
            ||| (exists|c: int| 0 <= c < 3 && col_won(b, p, c))
            ||| diag_won(b, p)
            ||| anti_diag_won(b, p)
        }),
{
    if row_won(b, p, 0) {
        assert(0 <= 0 < 3 && row_won(b, p, 0));
    }
    if row_won(b, p, 1) {
        assert(0 <= 1 < 3 && row_won(b, p, 1));
    }
    if row_won(b, p, 2) {
        assert(0 <= 2 < 3 && row_won(b, p, 2));
    }
    if col_won(b, p, 0) {
        assert(0 <= 0 < 3 && col_won(b, p, 0));
    }
    if col_won(b, p, 1) {
        assert(0 <= 1 < 3 && col_won(b, p, 1));
    }
    if col_won(b, p, 2) {
        assert(0 <= 2 < 3 && col_won(b, p, 2));
    }
}

/// An all-empty board has no winner, for either player.
pub proof fn lemma_empty_board_no_winner(b: Seq<Cell>, p: Player)
    requires
        b.len() == 9,
        all_empty(b),
    ensures
        !wins(b, p),
{
}

/// A board with an empty cell is never full.
pub proof fn lemma_not_full_with_empty_cell(b: Seq<Cell>, i: int)
    requires
        0 <= i < 9,
        b[i] == Cell::Empty,
    ensures
        !board_full(b),
{
}

/// Decides whether `player` has a winning line on `board`.
pub fn has_winner(board: &Vec<Cell>, player: Player) -> (r: bool)
    requires
        board@.len() == 9,
    ensures
        r == wins(board@, player),
{
    let m = player.mark_cell();
    let r0 = board[0] == m && board[1] == m && board[2] == m;
    let r1 = board[3] == m && board[4] == m && board[5] == m;
    let r2 = board[6] == m && board[7] == m && board[8] == m;
    let c0 = board[0] == m && board[3] == m && board[6] == m;
    let c1 = board[1] == m && board[4] == m && board[7] == m;
    let c2 = board[2] == m && board[5] == m && board[8] == m;
    let d0 = board[0] == m && board[4] == m && board[8] == m;
    let d1 = board[2] == m && board[4] == m && board[6] == m;
    r0 || r1 || r2 || c0 || c1 || c2 || d0 || d1
}

/// Decides whether the board is full, so that a round without a winner is
/// a draw.
pub fn is_draw(board: &Vec<Cell>) -> (r: bool)
    requires
        board@.len() == 9,
    ensures
        r == board_full(board@),
{
    let mut i: usize = 0;
    while i < 9
        invariant
            board@.len() == 9,
            i <= 9,
            forall|j: int| 0 <= j < i ==> board@[j] != Cell::Empty,
        decreases 9 - i,
    {
        if board[i] == Cell::Empty {
            return false;
        }
        i += 1;
    }
    true
}

} // verus!
