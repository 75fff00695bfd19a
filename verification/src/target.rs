//! Selectors for the rows and columns of the board.
//!
//! Players name a row or a column by a number from 1 to 3. Rows are
//! counted from the bottom and columns from the left, so 1 is the bottom
//! row or the left column and 3 is the top row or the right column. A
//! selector then stands for an index from 0 to 2 into the board, one less
//! than the number that selects it.

use crate::input::parsed_number;
use crate::input::read_number;
use crate::input::trimmed;
use vstd::prelude::*;
use vstd::std_specs::convert::FromSpecImpl;
use vstd::std_specs::convert::TryFromSpecImpl;

verus! {

/// The message that rejects a number naming no row.
pub const INVALID_ROW: &'static str =
    "An invalid move was given. The input must be 3 for Top, 2 for Center and 1 for Bottom.";

/// The message that rejects a number naming no column.
pub const INVALID_COLUMN: &'static str =
    "An invalid move was given. The input must be 3 for Right, 2 for Center and 1 for Left.";

/// The message that rejects input that holds no number.
pub const NOT_A_NUMBER: &'static str = "The number you gave was invalid. Try again.";

/// One of the three rows of the board.
#[derive(Clone, Copy, PartialEq, Eq, Debug, Structural)]
pub enum RowTarget {
    Bottom,
    Center,
    Top,
}

/// One of the three columns of the board.
#[derive(Clone, Copy, PartialEq, Eq, Debug, Structural)]
pub enum ColumnTarget {
    Left,
    Center,
    Right,
}

impl RowTarget {
    /// The index of this row in the board, counted from the bottom.
    pub open spec fn index(self) -> int {
        match self {
            RowTarget::Bottom => 0,
            RowTarget::Center => 1,
            RowTarget::Top => 2,
        }
    }

    /// The row that a number selects, if it selects one.
    pub open spec fn from_number(value: int) -> Option<RowTarget> {
        if value == 1 {
            Some(RowTarget::Bottom)
        } else if value == 2 {
            Some(RowTarget::Center)
        } else if value == 3 {
            Some(RowTarget::Top)
        } else {
            None
        }
    }

    /// The row that a player selects by input from which `number` was
    /// read, or the message that says why there is none.
    pub open spec fn selected_by(number: Option<u64>) -> Result<RowTarget, &'static str> {
        match number {
            None => Err(NOT_A_NUMBER),
            Some(value) => match RowTarget::from_number(value as int) {
                Some(row) => Ok(row),
                None => Err(INVALID_ROW),
            },
        }
    }

    /// The row that a player selects by input from which `number` was
    /// read: input without a number is rejected with `NOT_A_NUMBER`, a
    /// number that names no row with `INVALID_ROW`.
    pub fn from_parsed(number: Option<u64>) -> (selected: Result<RowTarget, &'static str>)
        ensures
            selected == RowTarget::selected_by(number),
    {
        match number {
            None => Err(NOT_A_NUMBER),
            Some(value) => match usize::try_from(value) {
                Ok(small) => RowTarget::try_from(small),
                Err(_) => Err(INVALID_ROW),
            },
        }
    }

    /// The row that a player selects by the line `input`.
    pub fn from_input(input: &str) -> (selected: Result<RowTarget, &'static str>)
        ensures
            selected == RowTarget::selected_by(parsed_number(trimmed(input@))),
    {
        RowTarget::from_parsed(read_number(input))
    }
}

impl ColumnTarget {
    /// The index of this column in the board, counted from the left.
    pub open spec fn index(self) -> int {
        match self {
            ColumnTarget::Left => 0,
            ColumnTarget::Center => 1,
            ColumnTarget::Right => 2,
        }
    }

    /// The column that a number selects, if it selects one.
    pub open spec fn from_number(value: int) -> Option<ColumnTarget> {
        if value == 1 {
            Some(ColumnTarget::Left)
        } else if value == 2 {
            Some(ColumnTarget::Center)
        } else if value == 3 {
            Some(ColumnTarget::Right)
        } else {
            None
        }
    }

    /// The column that a player selects by input from which `number` was
    /// read, or the message that says why there is none.
    pub open spec fn selected_by(number: Option<u64>) -> Result<ColumnTarget, &'static str> {
        match number {
            None => Err(NOT_A_NUMBER),
            Some(value) => match ColumnTarget::from_number(value as int) {
                Some(column) => Ok(column),
                None => Err(INVALID_COLUMN),
            },
        }
    }

    /// The column that a player selects by input from which `number` was
    /// read: input without a number is rejected with `NOT_A_NUMBER`, a
    /// number that names no column with `INVALID_COLUMN`.
    pub fn from_parsed(number: Option<u64>) -> (selected: Result<ColumnTarget, &'static str>)
        ensures
            selected == ColumnTarget::selected_by(number),
    {
        match number {
            None => Err(NOT_A_NUMBER),
            Some(value) => match usize::try_from(value) {
                Ok(small) => ColumnTarget::try_from(small),
                Err(_) => Err(INVALID_COLUMN),
            },
        }
    }

    /// The column that a player selects by the line `input`.
    pub fn from_input(input: &str) -> (selected: Result<ColumnTarget, &'static str>)
        ensures
            selected == ColumnTarget::selected_by(parsed_number(trimmed(input@))),
    {
        ColumnTarget::from_parsed(read_number(input))
    }
}

impl From<&RowTarget> for usize {
    fn from(value: &RowTarget) -> (index: Self) {
        match value {
            RowTarget::Top => 2,
            RowTarget::Center => 1,
            RowTarget::Bottom => 0,
        }
    }
}

impl FromSpecImpl<&RowTarget> for usize {
    open spec fn obeys_from_spec() -> bool {
        true
    }

    open spec fn from_spec(value: &RowTarget) -> usize {
        value.index() as usize
    }
}

impl From<&ColumnTarget> for usize {
    fn from(value: &ColumnTarget) -> (index: Self) {
        match value {
            ColumnTarget::Right => 2,
            ColumnTarget::Center => 1,
            ColumnTarget::Left => 0,
        }
    }
}

impl FromSpecImpl<&ColumnTarget> for usize {
    open spec fn obeys_from_spec() -> bool {
        true
    }

    open spec fn from_spec(value: &ColumnTarget) -> usize {
        value.index() as usize
    }
}

impl TryFrom<usize> for RowTarget {
    type Error = &'static str;

    fn try_from(value: usize) -> (result: Result<Self, Self::Error>) {
        match value {
            3 => Ok(Self::Top),
            2 => Ok(Self::Center),
            1 => Ok(Self::Bottom),
            _ => Err(INVALID_ROW),
        }
    }
}

impl TryFromSpecImpl<usize> for RowTarget {
    open spec fn obeys_try_from_spec() -> bool {
        true
    }

    open spec fn try_from_spec(value: usize) -> Result<Self, Self::Error> {
        match RowTarget::from_number(value as int) {
            Some(row) => Ok(row),
            None => Err(INVALID_ROW),
        }
    }
}

impl TryFrom<usize> for ColumnTarget {
    type Error = &'static str;

    fn try_from(value: usize) -> (result: Result<Self, Self::Error>) {
        match value {
            3 => Ok(Self::Right),
            2 => Ok(Self::Center),
            1 => Ok(Self::Left),
            _ => Err(INVALID_COLUMN),
        }
    }
}

impl TryFromSpecImpl<usize> for ColumnTarget {
    open spec fn obeys_try_from_spec() -> bool {
        true
    }

    open spec fn try_from_spec(value: usize) -> Result<Self, Self::Error> {
        match ColumnTarget::from_number(value as int) {
            Some(column) => Ok(column),
            None => Err(INVALID_COLUMN),
        }
    }
}

} // verus!
