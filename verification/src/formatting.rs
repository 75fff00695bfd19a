//! Text for tiles, rows, boards and games.
//!
//! A board is drawn with the top row first, each row behind its number and
//! the numbers of the columns beneath:
//!
//! ```text
//!
//!   ------
//! 3 | | | |
//!   ------
//! 2 | | | |
//!   ------
//! 1 | | | |
//!   ------
//!    1 2 3
//! ```
//!
//! Between the bars stands the mark of each tile, plain or in colour.

use crate::board::Board;
use crate::board::Grid;
use crate::board::Row;
use crate::colour::paint;
use crate::colour::painted;
use crate::colour::Ink;
use crate::game::Game;
use crate::tile::TileFill;
use vstd::prelude::*;
use vstd::string::StringExecFns;

verus! {

/// The text of a row whose tiles read `left`, `center` and `right`.
pub open spec fn row_text(left: Seq<char>, center: Seq<char>, right: Seq<char>) -> Seq<char> {
    "|"@ + left + "|"@ + center + "|"@ + right + "|"@
}

/// The text of a board whose rows read `bottom`, `center` and `top`.
pub open spec fn board_text(bottom: Seq<char>, center: Seq<char>, top: Seq<char>) -> Seq<char> {
    "\n  ------\n3 "@ + top + "\n  ------\n2 "@ + center + "\n  ------\n1 "@ + bottom
        + "\n  ------\n   1 2 3"@
}

/// The text of row `row` of `grid`, in colour or plain.
pub open spec fn grid_row_text(grid: Grid, row: int, coloured: bool) -> Seq<char> {
    row_text(
        grid[row][0].text(coloured),
        grid[row][1].text(coloured),
        grid[row][2].text(coloured),
    )
}

/// The text of `grid`, in colour or plain.
pub open spec fn grid_text(grid: Grid, coloured: bool) -> Seq<char> {
    board_text(
        grid_row_text(grid, 0, coloured),
        grid_row_text(grid, 1, coloured),
        grid_row_text(grid, 2, coloured),
    )
}

impl TileFill {
    /// The mark of this tile: one character, a blank for an empty tile.
    pub open spec fn mark(self) -> Seq<char> {
        match self {
            TileFill::Empty => " "@,
            TileFill::O => "O"@,
            TileFill::X => "X"@,
        }
    }

    /// The mark of this tile in colour: `O` in red, `X` in blue, and a
    /// plain blank for an empty tile.
    pub open spec fn coloured_mark(self) -> Seq<char> {
        match self {
            TileFill::Empty => " "@,
            TileFill::O => painted(Ink::Red, "O"@),
            TileFill::X => painted(Ink::Blue, "X"@),
        }
    }

    /// The mark of this tile, in colour or plain.
    pub open spec fn text(self, coloured: bool) -> Seq<char> {
        if coloured {
            self.coloured_mark()
        } else {
            self.mark()
        }
    }

    /// The mark of this tile.
    pub fn to_string(&self) -> (text: String)
        ensures
            text@ == self.mark(),
    {
        let string_rep = match self {
            TileFill::Empty => " ",
            TileFill::O => "O",
            TileFill::X => "X",
        };
        String::from_str(string_rep)
    }

    /// The mark of this tile, painted for a terminal.
    pub fn to_coloured_string(&self) -> (text: String)
        ensures
            text@ == self.coloured_mark(),
    {
        match self {
            TileFill::Empty => String::from_str(" "),
            TileFill::O => paint(Ink::Red, "O"),
            TileFill::X => paint(Ink::Blue, "X"),
        }
    }
}

/// Puts the bars of a row around the texts of its three tiles.
fn join_row(left: &str, center: &str, right: &str) -> (text: String)
    ensures
        text@ == row_text(left@, center@, right@),
{
    let mut text = String::from_str("|");
    text.append(left);
    text.append("|");
    text.append(center);
    text.append("|");
    text.append(right);
    text.append("|");
    text
}

/// Puts the rules, the row numbers and the column numbers of a board
/// around the texts of its three rows.
fn join_board(bottom: &str, center: &str, top: &str) -> (text: String)
    ensures
        text@ == board_text(bottom@, center@, top@),
{
    let mut text = String::from_str("\n  ------\n3 ");
    text.append(top);
    text.append("\n  ------\n2 ");
    text.append(center);
    text.append("\n  ------\n1 ");
    text.append(bottom);
    text.append("\n  ------\n   1 2 3");
    text
}

impl Row {
    /// The row between bars, its marks plain.
    pub fn to_string(&self) -> (text: String)
        ensures
            text@ == row_text(self.tile(0).mark(), self.tile(1).mark(), self.tile(2).mark()),
    {
        let l = self.tile_at(0).to_string();
        let c = self.tile_at(1).to_string();
        let r = self.tile_at(2).to_string();
        join_row(l.as_str(), c.as_str(), r.as_str())
    }

    /// The row between bars, its marks in colour.
    pub fn to_coloured_string(&self) -> (text: String)
        ensures
            text@ == row_text(
                self.tile(0).coloured_mark(),
                self.tile(1).coloured_mark(),
                self.tile(2).coloured_mark(),
            ),
    {
        let l = self.tile_at(0).to_coloured_string();
        let c = self.tile_at(1).to_coloured_string();
        let r = self.tile_at(2).to_coloured_string();
        join_row(l.as_str(), c.as_str(), r.as_str())
    }
}

impl Board {
    /// The board as text, its marks plain.
    pub fn to_string(&self) -> (text: String)
        ensures
            text@ == grid_text(self@, false),
    {
        let b = self.row_at(0).to_string();
        let c = self.row_at(1).to_string();
        let t = self.row_at(2).to_string();
        join_board(b.as_str(), c.as_str(), t.as_str())
    }

    /// The board as text, its marks in colour.
    pub fn to_coloured_string(&self) -> (text: String)
        ensures
            text@ == grid_text(self@, true),
    {
        let b = self.row_at(0).to_coloured_string();
        let c = self.row_at(1).to_coloured_string();
        let t = self.row_at(2).to_coloured_string();
        join_board(b.as_str(), c.as_str(), t.as_str())
    }
}

impl Game {
    /// The board of the game as text, its marks plain.
    pub fn to_string(&self) -> (text: String)
        ensures
            text@ == grid_text(self@.board, false),
    {
        self.board().to_string()
    }

    /// The board of the game as text, its marks in colour.
    pub fn to_coloured_string(&self) -> (text: String)
        ensures
            text@ == grid_text(self@.board, true),
    {
        self.board().to_coloured_string()
    }
}

} // verus!
