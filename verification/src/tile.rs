//! The state of a single tile, which doubles as the identity of a player.

use vstd::prelude::*;

verus! {

/// What a tile holds: the mark of one of the two players, or nothing.
///
/// The two marks also name the players, so the player to move is a
/// `TileFill` that is never `Empty`.
#[derive(Clone, Copy, PartialEq, Eq, Debug, Structural)]
pub enum TileFill {
    X,
    O,
    Empty,
}

impl TileFill {
    /// Whether this value names a player rather than an empty tile.
    pub open spec fn is_player(self) -> bool {
        self != TileFill::Empty
    }

    /// The other player of the two. `Empty` has no opponent and maps to
    /// itself.
    pub open spec fn opponent(self) -> TileFill {
        match self {
            TileFill::X => TileFill::O,
            TileFill::O => TileFill::X,
            TileFill::Empty => TileFill::Empty,
        }
    }

    /// The player who moves after `self`.
    ///
    /// An empty tile is not a player; asking for its successor is a
    /// programming error, which the precondition rules out.
    pub fn get_next_player(self) -> (next: Self)
        requires
            self.is_player(),
        ensures
            next == self.opponent(),
            next.is_player(),
            next != self,
            next.opponent() == self,
    {
        match self {
            Self::O => Self::X,
            Self::X => Self::O,
            Self::Empty => unreached(),
        }
    }
}

} // verus!
