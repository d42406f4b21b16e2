//! The interactive game state and its transitions.
//!
//! [`App`] owns the board, the player to move, the cursor, the status line,
//! and the round-over and quit flags. Every transition is specified against
//! [`outcome_of`] and [`step`], the spec-level move rules: a move request is
//! rejected when the round is over, a coordinate is out of range, or the
//! target cell is occupied; otherwise the mark is placed and the win check
//! runs before the draw check.

use vstd::prelude::*;
use vstd::string::StringExecFns;

use crate::input::{Command, Direction};
use crate::rules::{
    all_empty, board_full, has_winner, idx, is_draw, wins, Cell, Player,
};

verus! {

/// Why a move request was turned down.
#[derive(Clone, Copy, Debug, PartialEq, Eq, Structural)]
pub enum RejectReason {
    /// A coordinate lies outside the 3x3 grid.
    OutOfRange,
    /// The target cell already holds a mark.
    CellOccupied,
    /// The round has ended in a win or a draw; only reset is accepted.
    GameOver,
}

/// The outcome of one move request. Derived from the state, never stored.
#[derive(Clone, Copy, Debug, PartialEq, Eq, Structural)]
pub enum MoveOutcome {
    Rejected(RejectReason),
    Accepted,
    AcceptedWin(Player),
    AcceptedDraw,
}

/// The spec-level snapshot that the move rules read: the board, the player
/// to move, and whether the round has ended.
pub struct GameView {
    pub board: Seq<Cell>,
    pub current_player: Player,
    pub game_over: bool,
}

/// Both coordinates lie on the 3x3 grid.
pub open spec fn in_range(r: int, c: int) -> bool {
    0 <= r < 3 && 0 <= c < 3
}

/// The outcome one move request produces on a snapshot: rejection when the
/// round is over, the coordinates are out of range, or the cell is
/// occupied; otherwise the mark is placed and the win check runs before
/// the draw check.
pub open spec fn outcome_of(g: GameView, r: int, c: int) -> MoveOutcome {
    if g.game_over {
        MoveOutcome::Rejected(RejectReason::GameOver)
    } else if !in_range(r, c) {
        MoveOutcome::Rejected(RejectReason::OutOfRange)
    } else if g.board[idx(r, c)] != Cell::Empty {
        MoveOutcome::Rejected(RejectReason::CellOccupied)
    } else {
        let b = g.board.update(idx(r, c), g.current_player.mark());
        if wins(b, g.current_player) {
            MoveOutcome::AcceptedWin(g.current_player)
        } else if board_full(b) {
            MoveOutcome::AcceptedDraw
        } else {
            MoveOutcome::Accepted
        }
    }
}

/// The board after a move request: updated exactly when the move is
/// accepted.
pub open spec fn board_after(g: GameView, r: int, c: int) -> Seq<Cell> {
    if outcome_of(g, r, c) is Rejected {
        g.board
    } else {
        g.board.update(idx(r, c), g.current_player.mark())
    }
}

/// The player to move after a move request: toggles exactly on a plain
/// `Accepted` outcome.
pub open spec fn player_after(g: GameView, r: int, c: int) -> Player {
    if outcome_of(g, r, c) is Accepted {
        g.current_player.other_spec()
    } else {
        g.current_player
    }
}

/// Whether the round is over after a move request.
pub open spec fn over_after(g: GameView, r: int, c: int) -> bool {
    g.game_over || outcome_of(g, r, c) is AcceptedWin || outcome_of(g, r, c) is AcceptedDraw
}

/// The status line shown when a move aims at an occupied cell.
pub open spec fn occupied_message() -> Seq<char> {
    "Spot already occupied"@
}

/// The status line announcing whose turn it is.
pub open spec fn turn_message(p: Player) -> Seq<char> {
    if p is X {
        "X's turn"@
    } else {
        "O's turn"@
    }
}

/// The status line announcing the winner.
pub open spec fn win_message(p: Player) -> Seq<char> {
    if p is X {
        "X wins the match"@
    } else {
        "O wins the match"@
    }
}

/// The status line announcing a draw.
pub open spec fn draw_message() -> Seq<char> {
    "draw"@
}

/// The status line of a freshly started round.
pub open spec fn start_message() -> Seq<char> {
    "Let's Start Again."@
}

/// The status line after a move request; `m` is the line before it.
pub open spec fn message_after(g: GameView, r: int, c: int, m: Seq<char>) -> Seq<char> {
    match outcome_of(g, r, c) {
        MoveOutcome::Rejected(RejectReason::CellOccupied) => occupied_message(),
        MoveOutcome::Rejected(_) => m,
        MoveOutcome::Accepted => turn_message(g.current_player.other_spec()),
        MoveOutcome::AcceptedWin(p) => win_message(p),
        MoveOutcome::AcceptedDraw => draw_message(),
    }
}

/// The snapshot after a move request.
pub open spec fn step(g: GameView, r: int, c: int) -> GameView {
    GameView {
        board: board_after(g, r, c),
        current_player: player_after(g, r, c),
        game_over: over_after(g, r, c),
    }
}

/// The interactive game state.
pub struct App {
    /// Cursor row, in `[0, 3)`.
    pub row: usize,
    /// Cursor column, in `[0, 3)`.
    pub col: usize,
    /// The player whose turn it is.
    pub current_player: Player,
    /// Set when the player asked to quit.
    pub exit: bool,
    /// Set when the round ended in a win or a draw; cleared by reset.
    pub game_over: bool,
    /// The 9 cells, row-major.
    pub board: Vec<Cell>,
    /// The status line.
    pub message: String,
}

/// Everything except the cursor is unchanged.
pub open spec fn same_except_cursor(pre: App, post: App) -> bool {
    &&& post.board@ == pre.board@
    &&& post.current_player == pre.current_player
    &&& post.game_over == pre.game_over
    &&& post.exit == pre.exit
    &&& post.message@ == pre.message@
}

/// Everything except the player to move is unchanged.
pub open spec fn same_except_player(pre: App, post: App) -> bool {
    &&& post.board@ == pre.board@
    &&& post.row == pre.row
    &&& post.col == pre.col
    &&& post.game_over == pre.game_over
    &&& post.exit == pre.exit
    &&& post.message@ == pre.message@
}

/// Everything except the status line is unchanged.
pub open spec fn same_except_message(pre: App, post: App) -> bool {
    &&& post.board@ == pre.board@
    &&& post.row == pre.row
    &&& post.col == pre.col
    &&& post.current_player == pre.current_player
    &&& post.game_over == pre.game_over
    &&& post.exit == pre.exit
}

/// Everything except the quit flag is unchanged.
pub open spec fn same_except_exit(pre: App, post: App) -> bool {
    &&& post.board@ == pre.board@
    &&& post.row == pre.row
    &&& post.col == pre.col
    &&& post.current_player == pre.current_player
    &&& post.game_over == pre.game_over
    &&& post.message@ == pre.message@
}

/// `post` is `pre` after one move request at `(r, c)` with outcome `out`:
/// board, player, round-over flag, and status line follow the move rules;
/// cursor and quit flag are untouched.
pub open spec fn move_applied(pre: App, post: App, r: int, c: int, out: MoveOutcome) -> bool {
    &&& out == outcome_of(pre.game(), r, c)
    &&& post.board@ == board_after(pre.game(), r, c)
    &&& post.current_player == player_after(pre.game(), r, c)
    &&& post.game_over == over_after(pre.game(), r, c)
    &&& post.message@ == message_after(pre.game(), r, c, pre.message@)
    &&& post.row == pre.row
    &&& post.col == pre.col
    &&& post.exit == pre.exit
}

/// The new cursor row after moving in a direction, clamped to `[0, 2]`.
pub open spec fn row_after_cursor(r: int, d: Direction) -> int {
    match d {
        Direction::Up => if r > 0 { r - 1 } else { 0 },
        Direction::Down => if r < 2 { r + 1 } else { 2 },
        _ => r,
    }
}

/// The new cursor column after moving in a direction, clamped to `[0, 2]`.
pub open spec fn col_after_cursor(c: int, d: Direction) -> int {
    match d {
        Direction::Left => if c > 0 { c - 1 } else { 0 },
        Direction::Right => if c < 2 { c + 1 } else { 2 },
        _ => c,
    }
}

impl App {
    /// Basic well-formedness: 9 board cells and an in-bounds cursor.
    pub open spec fn wf(&self) -> bool {
        &&& self.board@.len() == 9
        &&& self.row < 3
        &&& self.col < 3
    }

    /// The snapshot of the fields the move rules read.
    pub open spec fn game(&self) -> GameView {
        GameView {
            board: self.board@,
            current_player: self.current_player,
            game_over: self.game_over,
        }
    }

    /// The freshly started state: empty board, X to move, cursor at the
    /// upper-left corner, round running, start message shown.
    pub open spec fn is_initial(&self) -> bool {
        &&& self.board@.len() == 9
        &&& all_empty(self.board@)
        &&& self.row == 0
        &&& self.col == 0
        &&& self.current_player == Player::X
        &&& !self.game_over
        &&& self.message@ == start_message()
    }

    /// Creates a game at its starting state.
    pub fn new() -> (app: App)
        ensures
            app.wf(),
            app.is_initial(),
            !app.exit,
    {
        let mut board: Vec<Cell> = Vec::new();
        let mut i: usize = 0;
        while i < 9
            invariant
                board@.len() == i,
                i <= 9,
                forall|j: int| 0 <= j < i ==> board@[j] == Cell::Empty,
            decreases 9 - i,
        {
            board.push(Cell::Empty);
            i += 1;
        }
        App {
            row: 0,
            col: 0,
            current_player: Player::X,
            exit: false,
            game_over: false,
            board,
            message: String::from_str("Let's Start Again."),
        }
    }

    /// Sets the cursor row.
    pub fn set_row(&mut self, row: usize)
        requires
            row < 3,
        ensures
            final(self).row == row,
            final(self).col == old(self).col,
            same_except_cursor(*old(self), *final(self)),
    {
        self.row = row;
    }

    /// Sets the cursor column.
    pub fn set_col(&mut self, col: usize)
        requires
            col < 3,
        ensures
            final(self).col == col,
            final(self).row == old(self).row,
            same_except_cursor(*old(self), *final(self)),
    {
        self.col = col;
    }

    /// Sets the player whose turn it is.
    pub fn set_current_player(&mut self, player: Player)
        ensures
            final(self).current_player == player,
            same_except_player(*old(self), *final(self)),
    {
        self.current_player = player;
    }

    /// Sets the status line.
    pub fn set_message(&mut self, message: &str)
        ensures
            final(self).message@ == message@,
            same_except_message(*old(self), *final(self)),
    {
        self.message = String::from_str(message);
    }

    /// Records that the player asked to quit.
    pub fn exit(&mut self)
        ensures
            final(self).exit,
            same_except_exit(*old(self), *final(self)),
    {
        self.exit = true;
    }

    /// Decides whether `current_player` has a winning line on the board.
    pub fn check_winner(&self, current_player: Player) -> (r: bool)
        requires
            self.wf(),
        ensures
            r == wins(self.board@, current_player),
    {
        has_winner(&self.board, current_player)
    }

    /// Evaluates the board right after a mark was placed: win first, then
    /// draw, else the turn passes to the opponent. Updates the status line
    /// and the round-over flag accordingly.
    fn evaluate_move(&mut self) -> (out: MoveOutcome)
        requires
            old(self).wf(),
            !old(self).game_over,
        ensures
            final(self).wf(),
            final(self).board@ == old(self).board@,
            final(self).row == old(self).row,
            final(self).col == old(self).col,
            final(self).exit == old(self).exit,
            ({
                let b = old(self).board@;
                let p = old(self).current_player;
                if wins(b, p) {
                    &&& out == MoveOutcome::AcceptedWin(p)
                    &&& final(self).game_over
                    &&& final(self).current_player == p
                    &&& final(self).message@ == win_message(p)
                } else if board_full(b) {
                    &&& out == MoveOutcome::AcceptedDraw
                    &&& final(self).game_over
                    &&& final(self).current_player == p
                    &&& final(self).message@ == draw_message()
                } else {
                    &&& out == MoveOutcome::Accepted
                    &&& !final(self).game_over
                    &&& final(self).current_player == p.other_spec()
                    &&& final(self).message@ == turn_message(p.other_spec())
                }
            }),
    {
        if has_winner(&self.board, self.current_player) {
            match self.current_player {
                Player::X => self.set_message("X wins the match"),
                Player::O => self.set_message("O wins the match"),
            }
            self.game_over = true;
            MoveOutcome::AcceptedWin(self.current_player)
        } else if is_draw(&self.board) {
            self.set_message("draw");
            self.game_over = true;
            MoveOutcome::AcceptedDraw
        } else {
            let next = self.current_player.other();
            self.set_current_player(next);
            match next {
                Player::X => self.set_message("X's turn"),
                Player::O => self.set_message("O's turn"),
            }
            MoveOutcome::Accepted
        }
    }

    /// Applies a move request for the current player at `(row, col)`:
    /// rejects it when the round is over, a coordinate is out of range, or
    /// the cell is occupied; otherwise places the mark and evaluates the
    /// round, checking for a win before checking for a draw.
    pub fn apply_move(&mut self, row: usize, col: usize) -> (out: MoveOutcome)
        requires
            old(self).wf(),
        ensures
            final(self).wf(),
            move_applied(*old(self), *final(self), row as int, col as int, out),
    {
        if self.game_over {
            MoveOutcome::Rejected(RejectReason::GameOver)
        } else if row >= 3 || col >= 3 {
            MoveOutcome::Rejected(RejectReason::OutOfRange)
        } else {
            let i: usize = row * 3 + col;
            if self.board[i] != Cell::Empty {
                self.set_message("Spot already occupied");
                MoveOutcome::Rejected(RejectReason::CellOccupied)
            } else {
                let mark = self.current_player.mark_cell();
                self.board[i] = mark;
                self.evaluate_move()
            }
        }
    }

    /// Places the current player's mark at the cursor and evaluates the
    /// round. The cursor cell must be free and the round still running.
    pub fn set_player_choice(&mut self) -> (out: MoveOutcome)
        requires
            old(self).wf(),
            !old(self).game_over,
            old(self).board@[idx(old(self).row as int, old(self).col as int)] == Cell::Empty,
        ensures
            final(self).wf(),
            move_applied(
                *old(self),
                *final(self),
                old(self).row as int,
                old(self).col as int,
                out,
            ),
    {
        let i: usize = self.row * 3 + self.col;
        let mark = self.current_player.mark_cell();
        self.board[i] = mark;
        self.evaluate_move()
    }

    /// The confirm action: applies a move request at the cursor.
    pub fn allow_click(&mut self) -> (out: MoveOutcome)
        requires
            old(self).wf(),
        ensures
            final(self).wf(),
            move_applied(
                *old(self),
                *final(self),
                old(self).row as int,
                old(self).col as int,
                out,
            ),
    {
        let r = self.row;
        let c = self.col;
        self.apply_move(r, c)
    }

    /// Moves the cursor one cell in a direction, clamped to the grid: a
    /// step at a boundary leaves the cursor where it is.
    pub fn move_cursor(&mut self, direction: Direction)
        requires
            old(self).wf(),
        ensures
            final(self).wf(),
            final(self).row == row_after_cursor(old(self).row as int, direction),
            final(self).col == col_after_cursor(old(self).col as int, direction),
            same_except_cursor(*old(self), *final(self)),
    {
        match direction {
            Direction::Up => {
                let r = self.row;
                self.set_row(if r > 0 { r - 1 } else { 0 });
            },
            Direction::Down => {
                let r = self.row;
                self.set_row(if r < 2 { r + 1 } else { 2 });
            },
            Direction::Left => {
                let c = self.col;
                self.set_col(if c > 0 { c - 1 } else { 0 });
            },
            Direction::Right => {
                let c = self.col;
                self.set_col(if c < 2 { c + 1 } else { 2 });
            },
        }
    }

    /// Starts the round over: empties every cell, gives the turn back to
    /// X, puts the cursor at the upper-left corner, clears the round-over
    /// flag, and shows the start message. Always restores the same
    /// starting state, whatever the board held.
    pub fn reset(&mut self)
        requires
            old(self).wf(),
        ensures
            final(self).wf(),
            final(self).is_initial(),
            final(self).exit == old(self).exit,
    {
        let mut i: usize = 0;
        while i < 9
            invariant
                self.board@.len() == 9,
                i <= 9,
                forall|j: int| 0 <= j < i ==> self.board@[j] == Cell::Empty,
                self.exit == old(self).exit,
            decreases 9 - i,
        {
            self.board[i] = Cell::Empty;
            i += 1;
        }
        self.row = 0;
        self.col = 0;
        self.current_player = Player::X;
        self.game_over = false;
        self.message = String::from_str("Let's Start Again.");
    }

    /// Performs one input command: cursor motion, confirm at the cursor,
    /// reset, quit, or nothing.
    pub fn handle_command(&mut self, command: Command)
        requires
            old(self).wf(),
        ensures
            final(self).wf(),
            (command matches Command::MoveCursor(d) ==> {
                &&& final(self).row == row_after_cursor(old(self).row as int, d)
                &&& final(self).col == col_after_cursor(old(self).col as int, d)
                &&& same_except_cursor(*old(self), *final(self))
            }),
            command == Command::ConfirmSelection ==> move_applied(
                *old(self),
                *final(self),
                old(self).row as int,
                old(self).col as int,
                outcome_of(old(self).game(), old(self).row as int, old(self).col as int),
            ),
            command == Command::Reset ==> final(self).is_initial()
                && final(self).exit == old(self).exit,
            command == Command::Quit ==> final(self).exit
                && same_except_exit(*old(self), *final(self)),
            command == Command::Ignored ==> final(self).exit == old(self).exit
                && same_except_exit(*old(self), *final(self)),
    {
        match command {
            Command::MoveCursor(d) => self.move_cursor(d),
            Command::ConfirmSelection => {
                let _ = self.allow_click();
            },
            Command::Reset => self.reset(),
            Command::Quit => self.exit(),
            Command::Ignored => {},
        }
    }
}

impl Default for App {
    /// Same as [`App::new`]: the starting state.
    fn default() -> (app: App)
        ensures
            app.wf(),
            app.is_initial(),
            !app.exit,
    {
        App::new()
    }
}

/// A move aimed at an occupied cell is rejected and changes neither the
/// board, nor the player to move, nor the round-over flag.
pub proof fn lemma_occupied_move_rejected(g: GameView, r: int, c: int)
    requires
        in_range(r, c),
        g.board[idx(r, c)] != Cell::Empty,
    ensures
        outcome_of(g, r, c) is Rejected,
        board_after(g, r, c) == g.board,
        player_after(g, r, c) == g.current_player,
        over_after(g, r, c) == g.game_over,
{
}

/// Win detection runs before draw detection: an accepted move that
/// completes a line for the mover is reported as a win, never as a draw,
/// even when it also fills the board.
pub proof fn lemma_win_checked_before_draw(g: GameView, r: int, c: int)
    requires
        !(outcome_of(g, r, c) is Rejected),
        wins(board_after(g, r, c), g.current_player),
    ensures
        outcome_of(g, r, c) == MoveOutcome::AcceptedWin(g.current_player),
{
}

/// The snapshot after a sequence of move requests, applied in order.
pub open spec fn play_all(g: GameView, moves: Seq<(int, int)>) -> GameView
    decreases moves.len(),
{
    if moves.len() == 0 {
        g
    } else {
        play_all(step(g, moves[0].0, moves[0].1), moves.drop_first())
    }
}

/// Every move of the sequence is a plain `Accepted` move (accepted, and
/// neither winning nor drawing) on the state it meets.
pub open spec fn all_accepted(g: GameView, moves: Seq<(int, int)>) -> bool
    decreases moves.len(),
{
    moves.len() == 0 || {
        &&& outcome_of(g, moves[0].0, moves[0].1) == MoveOutcome::Accepted
        &&& all_accepted(step(g, moves[0].0, moves[0].1), moves.drop_first())
    }
}

/// After any run of plain `Accepted` moves the player to move has toggled
/// once per move: the starting player is to move again after an even
/// number of moves, the opponent after an odd number.
pub proof fn lemma_player_alternation(g: GameView, moves: Seq<(int, int)>)
    requires
        all_accepted(g, moves),
    ensures
        play_all(g, moves).current_player == (if moves.len() % 2 == 0 {
            g.current_player
        } else {
            g.current_player.other_spec()
        }),
    decreases moves.len(),
{
    if moves.len() > 0 {
        let r = moves[0].0;
        let c = moves[0].1;
        let g1 = step(g, r, c);
        lemma_player_alternation(g1, moves.drop_first());
    }
}

/// Starting from X, after N consecutive plain `Accepted` moves it is X's
/// turn exactly when N is even, O's when N is odd.
pub proof fn lemma_alternation_from_x(g: GameView, moves: Seq<(int, int)>)
    requires
        g.current_player == Player::X,
        all_accepted(g, moves),
    ensures
        play_all(g, moves).current_player == (if moves.len() % 2 == 0 {
            Player::X
        } else {
            Player::O
        }),
{
    lemma_player_alternation(g, moves);
}

} // verus!

