//! The board, its eight lines, and the token that certifies a move.
//!
//! A board is modelled as a grid: a sequence of three rows, each a sequence
//! of three tiles. Row 0 is the bottom row and column 0 the left column.

use crate::target::ColumnTarget;
use crate::target::RowTarget;
use crate::tile::TileFill;
use vstd::prelude::*;

verus! {

/// The mathematical model of a board: `grid[row][col]` is the tile in the
/// given row, counted from the bottom, and column, counted from the left.
pub type Grid = Seq<Seq<TileFill>>;

/// A line of the board: the coordinates `(row, col)` of its three tiles.
pub type Line = Seq<(int, int)>;

/// Whether `row` and `col` address a tile of the board.
pub open spec fn on_board(row: int, col: int) -> bool {
    0 <= row < 3 && 0 <= col < 3
}

/// The grid with no mark on it.
pub open spec fn empty_grid() -> Grid {
    Seq::new(3, |row: int| Seq::new(3, |col: int| TileFill::Empty))
}

/// The grid that agrees with `grid` everywhere but at `(row, col)`, where it
/// holds `fill`.
pub open spec fn placed(grid: Grid, row: int, col: int, fill: TileFill) -> Grid {
    grid.update(row, grid[row].update(col, fill))
}

/// The three tiles of row `row`, from left to right.
pub open spec fn row_line(row: int) -> Line {
    seq![(row, 0int), (row, 1int), (row, 2int)]
}

/// The three tiles of column `col`, from bottom to top.
pub open spec fn column_line(col: int) -> Line {
    seq![(0int, col), (1int, col), (2int, col)]
}

/// The diagonal through `(0, 0)`, `(1, 1)` and `(2, 2)`.
pub open spec fn main_diagonal() -> Line {
    seq![(0int, 0int), (1int, 1int), (2int, 2int)]
}

/// The diagonal through `(0, 2)`, `(1, 1)` and `(2, 0)`.
pub open spec fn anti_diagonal() -> Line {
    seq![(0int, 2int), (1int, 1int), (2int, 0int)]
}

/// The eight lines that win the game: three rows, three columns and the
/// two diagonals.
pub open spec fn winning_lines() -> Seq<Line> {
    seq![
        row_line(0),
        row_line(1),
        row_line(2),
        column_line(0),
        column_line(1),
        column_line(2),
        main_diagonal(),
        anti_diagonal(),
    ]
}

/// The tile of `grid` at the `k`-th position of `line`.
pub open spec fn tile_on(grid: Grid, line: Line, k: int) -> TileFill {
    grid[line[k].0][line[k].1]
}

/// Whether three tiles hold the mark of one and the same player.
pub open spec fn same_player(a: TileFill, b: TileFill, c: TileFill) -> bool {
    a.is_player() && a == b && b == c
}

/// Whether the three tiles of `line` hold one and the same value, be it a
/// mark or nothing.
pub open spec fn line_same_valued(grid: Grid, line: Line) -> bool {
    tile_on(grid, line, 0) == tile_on(grid, line, 1) && tile_on(grid, line, 1) == tile_on(
        grid,
        line,
        2,
    )
}

/// Whether one player holds all three tiles of `line`.
pub open spec fn line_complete(grid: Grid, line: Line) -> bool {
    same_player(tile_on(grid, line, 0), tile_on(grid, line, 1), tile_on(grid, line, 2))
}

/// Whether one player holds all three tiles of some winning line.
pub open spec fn has_complete_line(grid: Grid) -> bool {
    exists|i: int|
        0 <= i < winning_lines().len() && #[trigger] line_complete(grid, winning_lines()[i])
}

/// Whether every tile of the grid holds a mark.
pub open spec fn is_full(grid: Grid) -> bool {
    forall|row: int, col: int| on_board(row, col) ==> (#[trigger] grid[row][col]).is_player()
}

/// One row of the board, from left to right.
#[derive(Clone, Copy, Debug)]
pub struct Row {
    tiles: [TileFill; 3],
}

/// Three tiles of a board that need not lie in one row.
pub struct RowReference<'a> {
    tiles: [&'a TileFill; 3],
}

impl Row {
    /// The tile at column `col` of this row.
    pub closed spec fn tile(&self, col: int) -> TileFill {
        self.tiles[col]
    }

    /// A row without a mark.
    pub fn new() -> (row: Self)
        ensures
            forall|col: int| 0 <= col < 3 ==> row.tile(col) == TileFill::Empty,
    {
        Self { tiles: [TileFill::Empty, TileFill::Empty, TileFill::Empty] }
    }

    /// The tile at column `col`, counted from the left.
    pub fn tile_at(&self, col: usize) -> (fill: TileFill)
        requires
            col < 3,
        ensures
            fill == self.tile(col as int),
    {
        self.tiles[col]
    }

    /// Whether one player holds the whole row.
    pub fn is_complete(&self) -> (complete: bool)
        ensures
            complete == same_player(self.tile(0), self.tile(1), self.tile(2)),
    {
        let left: TileFill = self.tiles[0];
        let center: TileFill = self.tiles[1];
        let right: TileFill = self.tiles[2];
        (left == TileFill::X && center == TileFill::X && right == TileFill::X) || (left
            == TileFill::O && center == TileFill::O && right == TileFill::O)
    }

    /// Whether some tile of the row is still empty.
    pub fn is_not_full(&self) -> (open: bool)
        ensures
            open == exists|col: int| 0 <= col < 3 && #[trigger] self.tile(col) == TileFill::Empty,
    {
        let open: bool = self.tiles[0] == TileFill::Empty || self.tiles[1] == TileFill::Empty
            || self.tiles[2] == TileFill::Empty;
        proof {
            if open {
                let col: int = if self.tile(0) == TileFill::Empty {
                    0
                } else if self.tile(1) == TileFill::Empty {
                    1
                } else {
                    2
                };
                assert(0 <= col < 3 && self.tile(col) == TileFill::Empty);
            }
        }
        open
    }
}

impl<'a> RowReference<'a> {
    /// The tile at position `k` of the triple.
    pub closed spec fn tile(&self, k: int) -> TileFill {
        *self.tiles[k]
    }

    /// Whether one player holds all three tiles.
    pub fn is_complete(&self) -> (complete: bool)
        ensures
            complete == same_player(self.tile(0), self.tile(1), self.tile(2)),
    {
        let first: TileFill = *self.tiles[0];
        let second: TileFill = *self.tiles[1];
        let third: TileFill = *self.tiles[2];
        (first == TileFill::X && second == TileFill::X && third == TileFill::X) || (first
            == TileFill::O && second == TileFill::O && third == TileFill::O)
    }
}

/// A move that was checked against a board and found to target an empty
/// tile.
///
/// Only `ValidMove::new` makes one, and nothing reads its fields from
/// outside: to hold a `ValidMove` is to hold the result of a validation. It
/// vouches for the board it was checked against and for no other;
/// `Board::make_move` asks that its tile is still empty.
pub struct ValidMove {
    row: RowTarget,
    col: ColumnTarget,
}

impl ValidMove {
    /// The row of the tile this move targets.
    pub closed spec fn row(&self) -> RowTarget {
        self.row
    }

    /// The column of the tile this move targets.
    pub closed spec fn col(&self) -> ColumnTarget {
        self.col
    }

    /// Whether the tile this move targets is empty on `grid`.
    pub open spec fn targets_empty_tile(&self, grid: Grid) -> bool {
        grid[self.row().index()][self.col().index()] == TileFill::Empty
    }

    /// Checks a selection against `board`: a move comes back exactly when
    /// the selected tile is empty, and it targets that tile.
    pub fn new(board: &Board, row_target: RowTarget, col_target: ColumnTarget) -> (checked: Option<
        Self,
    >)
        ensures
            checked is Some <==> board@[row_target.index()][col_target.index()] == TileFill::Empty,
            checked matches Some(valid) ==> valid.row() == row_target && valid.col() == col_target
                && valid.targets_empty_tile(board@),
    {
        let row_num = usize::from(&row_target);
        let col_num: usize = usize::from(&col_target);
        let row = &board.rows[row_num];
        let target_tile = &row.tiles[col_num];

        if *target_tile == TileFill::Empty {
            Some(Self { row: row_target, col: col_target })
        } else {
            None
        }
    }

    /// Whether this move may still be made on `board`, that is, whether
    /// its tile is empty there.
    pub fn is_valid_for(&self, board: &Board) -> (valid: bool)
        ensures
            valid == self.targets_empty_tile(board@),
    {
        board.tile_at(usize::from(&self.row), usize::from(&self.col)) == TileFill::Empty
    }
}

/// The three-by-three board.
///
/// A board is a value: placing a mark yields a new board and leaves the old
/// one as it was.
#[derive(Clone, Copy, Debug)]
pub struct Board {
    rows: [Row; 3],
}

impl View for Board {
    type V = Grid;

    open spec fn view(&self) -> Grid {
        Seq::new(3, |row: int| Seq::new(3, |col: int| self.tile(row, col)))
    }
}

impl Board {
    /// The tile in row `row` and column `col`.
    pub closed spec fn tile(&self, row: int, col: int) -> TileFill {
        self.rows[row].tile(col)
    }

    /// The board on which no move has been made.
    pub fn new() -> (board: Self)
        ensures
            board@ == empty_grid(),
    {
        let board = Self { rows: [Row::new(), Row::new(), Row::new()] };
        assert(board@ =~~= empty_grid());
        board
    }

    /// The board after `player` has marked the tile that `player_move`
    /// targets. `self` is not changed: the result agrees with it on every
    /// other tile.
    pub fn make_move(&self, player: TileFill, player_move: &ValidMove) -> (next: Self)
        requires
            player_move.targets_empty_tile(self@),
        ensures
            next@ == placed(self@, player_move.row().index(), player_move.col().index(), player),
    {
        let row_num = usize::from(&player_move.row);
        let col_num: usize = usize::from(&player_move.col);
        let mut new_board = self.clone();
        new_board.rows[row_num].tiles[col_num] = player;
        assert(new_board@ =~~= placed(
            self@,
            player_move.row().index(),
            player_move.col().index(),
            player,
        ));
        new_board
    }

    /// The row at index `row`, counted from the bottom.
    pub fn row_at(&self, row: usize) -> (found: &Row)
        requires
            row < 3,
        ensures
            forall|col: int| 0 <= col < 3 ==> #[trigger] found.tile(col) == self@[row as int][col],
    {
        &self.rows[row]
    }

    /// The tile in row `row`, counted from the bottom, and column `col`,
    /// counted from the left.
    pub fn tile_at(&self, row: usize, col: usize) -> (fill: TileFill)
        requires
            row < 3,
            col < 3,
        ensures
            fill == self@[row as int][col as int],
    {
        self.rows[row].tiles[col]
    }

    /// Whether one player holds one of the eight winning lines.
    pub fn is_complete(&self) -> (complete: bool)
        ensures
            complete == has_complete_line(self@),
    {
        let complete: bool = self.any_row_complete() || self.any_diagonal_complete()
            || self.any_vertical_complete();
        proof {
            lemma_complete_line_by_kind(self@);
        }
        complete
    }

    /// Whether every tile holds a mark, so that no move is left.
    ///
    /// A full board may still hold a complete line: ask `is_complete`
    /// first to tell a win from a draw.
    pub fn is_draw(&self) -> (draw: bool)
        ensures
            draw == is_full(self@),
    {
        let draw: bool = !(self.rows[0].is_not_full() || self.rows[1].is_not_full()
            || self.rows[2].is_not_full());
        proof {
            if draw {
                assert forall|row: int, col: int| on_board(row, col) implies (
                #[trigger] self@[row][col]).is_player() by {
                    assert(self.rows[row].tile(col) != TileFill::Empty);
                }
            } else {
                let (row, col): (int, int) = choose|row: int, col: int|
                    on_board(row, col) && #[trigger] self.rows[row].tile(col) == TileFill::Empty;
                assert(!self@[row][col].is_player());
            }
        }
        draw
    }

    /// Whether one player holds one of the three rows.
    pub fn any_row_complete(&self) -> (found: bool)
        ensures
            found == exists|row: int|
                0 <= row < 3 && #[trigger] line_complete(self@, row_line(row)),
    {
        proof {
            assert(line_complete(self@, row_line(0)) == same_player(
                self.rows[0].tile(0),
                self.rows[0].tile(1),
                self.rows[0].tile(2),
            ));
            assert(line_complete(self@, row_line(1)) == same_player(
                self.rows[1].tile(0),
                self.rows[1].tile(1),
                self.rows[1].tile(2),
            ));
            assert(line_complete(self@, row_line(2)) == same_player(
                self.rows[2].tile(0),
                self.rows[2].tile(1),
                self.rows[2].tile(2),
            ));
        }
        self.rows[0].is_complete() || self.rows[1].is_complete() || self.rows[2].is_complete()
    }

    /// Whether one player holds one of the two diagonals.
    pub fn any_diagonal_complete(&self) -> (found: bool)
        ensures
            found == (line_complete(self@, main_diagonal()) || line_complete(
                self@,
                anti_diagonal(),
            )),
    {
        let (diag1, diag2) = self.make_diagonals();
        diag1.is_complete() || diag2.is_complete()
    }

    /// Whether one player holds one of the three columns.
    pub fn any_vertical_complete(&self) -> (found: bool)
        ensures
            found == exists|col: int|
                0 <= col < 3 && #[trigger] line_complete(self@, column_line(col)),
    {
        let (vert1, vert2, vert3) = self.make_verticals();
        proof {
            assert(line_complete(self@, column_line(0)) == same_player(
                vert1.tile(0),
                vert1.tile(1),
                vert1.tile(2),
            ));
            assert(line_complete(self@, column_line(1)) == same_player(
                vert2.tile(0),
                vert2.tile(1),
                vert2.tile(2),
            ));
            assert(line_complete(self@, column_line(2)) == same_player(
                vert3.tile(0),
                vert3.tile(1),
                vert3.tile(2),
            ));
        }
        vert1.is_complete() || vert2.is_complete() || vert3.is_complete()
    }

    /// The two diagonals: first the one through the bottom left corner,
    /// then the one through the bottom right corner.
    pub fn make_diagonals(&self) -> (diagonals: (RowReference, RowReference))
        ensures
            forall|k: int|
                0 <= k < 3 ==> #[trigger] diagonals.0.tile(k) == tile_on(
                    self@,
                    main_diagonal(),
                    k,
                ),
            forall|k: int|
                0 <= k < 3 ==> #[trigger] diagonals.1.tile(k) == tile_on(
                    self@,
                    anti_diagonal(),
                    k,
                ),
    {
        let diag_1 = RowReference {
            tiles: [&self.rows[0].tiles[0], &self.rows[1].tiles[1], &self.rows[2].tiles[2]],
        };

        let diag_2 = RowReference {
            tiles: [&self.rows[0].tiles[2], &self.rows[1].tiles[1], &self.rows[2].tiles[0]],
        };
        (diag_1, diag_2)
    }

    /// The three columns, from left to right, each from bottom to top.
    pub fn make_verticals(&self) -> (verticals: (RowReference, RowReference, RowReference))
        ensures
            forall|k: int|
                0 <= k < 3 ==> #[trigger] verticals.0.tile(k) == tile_on(
                    self@,
                    column_line(0),
                    k,
                ),
            forall|k: int|
                0 <= k < 3 ==> #[trigger] verticals.1.tile(k) == tile_on(
                    self@,
                    column_line(1),
                    k,
                ),
            forall|k: int|
                0 <= k < 3 ==> #[trigger] verticals.2.tile(k) == tile_on(
                    self@,
                    column_line(2),
                    k,
                ),
    {
        let vert_1 = RowReference {
            tiles: [&self.rows[0].tiles[0], &self.rows[1].tiles[0], &self.rows[2].tiles[0]],
        };
        let vert_2 = RowReference {
            tiles: [&self.rows[0].tiles[1], &self.rows[1].tiles[1], &self.rows[2].tiles[1]],
        };

        let vert_3 = RowReference {
            tiles: [&self.rows[0].tiles[2], &self.rows[1].tiles[2], &self.rows[2].tiles[2]],
        };
        (vert_1, vert_2, vert_3)
    }
}

impl Default for Board {
    fn default() -> (board: Self)
        ensures
            board@ == empty_grid(),
    {
        Self::new()
    }
}

/// A grid holds a complete line exactly when it holds a complete row, a
/// complete column or a complete diagonal.
pub proof fn lemma_complete_line_by_kind(grid: Grid)
    ensures
        has_complete_line(grid) == ((exists|row: int|
            0 <= row < 3 && #[trigger] line_complete(grid, row_line(row))) || line_complete(
            grid,
            main_diagonal(),
        ) || line_complete(grid, anti_diagonal()) || (exists|col: int|
            0 <= col < 3 && #[trigger] line_complete(grid, column_line(col)))),
{
    let lines = winning_lines();
    assert(lines.len() == 8);
    if has_complete_line(grid) {
        let i: int = choose|i: int|
            0 <= i < winning_lines().len() && #[trigger] line_complete(grid, winning_lines()[i]);
        if i < 3 {
            assert(lines[i] == row_line(i));
        } else if i < 6 {
            assert(lines[i] == column_line(i - 3));
        }
    }
    if exists|row: int| 0 <= row < 3 && #[trigger] line_complete(grid, row_line(row)) {
        let row: int = choose|row: int|
            0 <= row < 3 && #[trigger] line_complete(grid, row_line(row));
        assert(lines[row] == row_line(row));
    }
    if exists|col: int| 0 <= col < 3 && #[trigger] line_complete(grid, column_line(col)) {
        let col: int = choose|col: int|
            0 <= col < 3 && #[trigger] line_complete(grid, column_line(col));
        assert(lines[col + 3] == column_line(col));
    }
    assert(lines[6] == main_diagonal());
    assert(lines[7] == anti_diagonal());
}

/// Placing a player's mark on an empty tile changes that tile and no
/// other: what `make_move` returns differs from the board it was given at
/// a tile exactly when it is the tile the move targets.
pub proof fn lemma_move_changes_exactly_its_tile(
    board: Board,
    player: TileFill,
    player_move: ValidMove,
)
    requires
        player_move.targets_empty_tile(board@),
        player.is_player(),
    ensures
        forall|row: int, col: int|
            on_board(row, col) ==> ((#[trigger] placed(
                board@,
                player_move.row().index(),
                player_move.col().index(),
                player,
            )[row][col] != board@[row][col]) <==> (row == player_move.row().index() && col
                == player_move.col().index())),
{
}

/// A board whose nine tiles are all marked, and on which no winning line
/// holds three equal marks, is full and has no complete line: `is_draw`
/// says yes of it and `is_complete` says no.
pub proof fn lemma_full_board_without_line_is_draw(board: Board)
    requires
        forall|row: int, col: int|
            on_board(row, col) ==> (#[trigger] board@[row][col]) != TileFill::Empty,
        forall|i: int|
            0 <= i < winning_lines().len() ==> !#[trigger] line_same_valued(
                board@,
                winning_lines()[i],
            ),
    ensures
        is_full(board@),
        !has_complete_line(board@),
{
    assert forall|i: int| 0 <= i < winning_lines().len() implies !#[trigger] line_complete(
        board@,
        winning_lines()[i],
    ) by {
        assert(!line_same_valued(board@, winning_lines()[i]));
    }
}

/// A board on which the three tiles of a winning line, be it a row, a
/// column or a diagonal, hold the mark of one player has a complete line:
/// `is_complete` says yes of it. Three empty tiles are no such line.
pub proof fn lemma_line_of_one_player_is_complete(board: Board, i: int)
    requires
        0 <= i < winning_lines().len(),
        line_same_valued(board@, winning_lines()[i]),
        tile_on(board@, winning_lines()[i], 0).is_player(),
    ensures
        has_complete_line(board@),
{
    assert(line_complete(board@, winning_lines()[i]));
}

/// The empty grid is neither full nor does it hold a complete line.
pub proof fn lemma_empty_grid_is_open()
    ensures
        !is_full(empty_grid()),
        !has_complete_line(empty_grid()),
{
    assert(!empty_grid()[0][0].is_player());
    lemma_complete_line_by_kind(empty_grid());
}

} // verus!
