//! The turn controller: whose move it is, and how a move ends.

use crate::board::empty_grid;
use crate::board::has_complete_line;
use crate::board::is_full;
use crate::board::lemma_empty_grid_is_open;
use crate::board::placed;
use crate::board::Board;
use crate::board::Grid;
use crate::board::ValidMove;
use crate::target::ColumnTarget;
use crate::target::RowTarget;
use crate::tile::TileFill;
use vstd::prelude::*;

verus! {

/// The mathematical model of a game: its grid and the player to move.
pub struct GameView {
    pub board: Grid,
    pub current_player: TileFill,
}

/// The mathematical model of what a move leads to.
pub enum TurnView {
    /// The game goes on from the given state.
    InProgress(GameView),
    /// The player completed a line on the given grid.
    Win { player: TileFill, board: Grid },
    /// The given grid is full and holds no complete line.
    Draw { board: Grid },
}

impl GameView {
    /// Whether a move can still be made: a player is to move, and the grid
    /// is neither won nor full.
    pub open spec fn in_progress(self) -> bool {
        self.current_player.is_player() && !has_complete_line(self.board) && !is_full(self.board)
    }

    /// What follows when the player to move marks the tile at `(row, col)`:
    /// a win if that completes a line, else a draw if it fills the grid,
    /// else the opponent's turn on the new grid.
    pub open spec fn turn(self, row: int, col: int) -> TurnView {
        let board = placed(self.board, row, col, self.current_player);
        if has_complete_line(board) {
            TurnView::Win { player: self.current_player, board }
        } else if is_full(board) {
            TurnView::Draw { board }
        } else {
            TurnView::InProgress(
                GameView { board, current_player: self.current_player.opponent() },
            )
        }
    }
}

/// A game that is not over: a board that is neither won nor full, and the
/// player to move, who is never `Empty`.
pub struct Game {
    board: Board,
    current_player: TileFill,
}

/// What a move leads to.
pub enum Turn {
    /// The game goes on; the opponent is to move.
    InProgress(Game),
    /// The player completed a line on the given board.
    Win { player: TileFill, board: Board },
    /// The given board is full and holds no complete line.
    Draw { board: Board },
}

impl View for Game {
    type V = GameView;

    closed spec fn view(&self) -> GameView {
        GameView { board: self.board@, current_player: self.current_player }
    }
}

impl View for Turn {
    type V = TurnView;

    open spec fn view(&self) -> TurnView {
        match self {
            Turn::InProgress(game) => TurnView::InProgress(game@),
            Turn::Win { player, board } => TurnView::Win { player: *player, board: board@ },
            Turn::Draw { board } => TurnView::Draw { board: board@ },
        }
    }
}

impl Game {
    #[verifier::type_invariant]
    closed spec fn well_formed(&self) -> bool {
        self@.in_progress()
    }

    /// A fresh game: an empty board, and `O` to move.
    pub fn new() -> (game: Self)
        ensures
            game@ == (GameView { board: empty_grid(), current_player: TileFill::O }),
            game@.in_progress(),
    {
        proof {
            lemma_empty_grid_is_open();
        }
        Game { board: Board::new(), current_player: TileFill::O }
    }

    /// The board as it stands.
    pub fn board(&self) -> (board: &Board)
        ensures
            board@ == self@.board,
            self@.in_progress(),
    {
        proof {
            use_type_invariant(self);
        }
        &self.board
    }

    /// The player to move.
    pub fn current_player(&self) -> (player: TileFill)
        ensures
            player == self@.current_player,
            player.is_player(),
    {
        proof {
            use_type_invariant(self);
        }
        self.current_player
    }

    /// Checks a selection against the board as it stands: a move comes back
    /// exactly when the selected tile is empty.
    pub fn make_move(&self, row: RowTarget, column: ColumnTarget) -> (checked: Option<ValidMove>)
        ensures
            checked is Some <==> self@.board[row.index()][column.index()] == TileFill::Empty,
            checked matches Some(valid) ==> valid.row() == row && valid.col() == column
                && valid.targets_empty_tile(self@.board),
    {
        ValidMove::new(&self.board, row, column)
    }

    /// Makes `next_move` for the player to move and says how the game
    /// stands after it.
    pub fn next_turn(&self, next_move: &ValidMove) -> (turn: Turn)
        requires
            next_move.targets_empty_tile(self@.board),
        ensures
            turn@ == self@.turn(next_move.row().index(), next_move.col().index()),
            turn matches Turn::InProgress(game) ==> game@.in_progress(),
    {
        proof {
            use_type_invariant(self);
        }
        let new_board = self.board.make_move(self.current_player, next_move);
        if new_board.is_complete() {
            Turn::Win { player: self.current_player, board: new_board }
        } else if new_board.is_draw() {
            Turn::Draw { board: new_board }
        } else {
            Turn::InProgress(
                Game { board: new_board, current_player: self.current_player.get_next_player() },
            )
        }
    }
}

/// The players take turns: after a move that leaves the game in progress
/// the other player is to move, and after two such moves the first player
/// is to move again.
pub proof fn lemma_players_alternate(start: GameView, first: (int, int), second: (int, int))
    requires
        start.current_player.is_player(),
        start.turn(first.0, first.1) is InProgress,
        start.turn(first.0, first.1)->InProgress_0.turn(second.0, second.1) is InProgress,
    ensures
        ({
            let middle = start.turn(first.0, first.1)->InProgress_0;
            let end = middle.turn(second.0, second.1)->InProgress_0;
            &&& middle.current_player.is_player()
            &&& middle.current_player != start.current_player
            &&& middle.current_player == start.current_player.opponent()
            &&& end.current_player == start.current_player
        }),
{
}

} // verus!
