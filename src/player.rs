//! The two marks and the order in which they move.

use vstd::prelude::*;

verus! {

/// A player, and also the mark that player leaves on a square.
#[derive(Debug, Clone, Copy, PartialEq, Eq, Structural)]
pub enum Player {
    X,
    O,
}

impl Player {
    /// The player who moves after `self`.
    pub open spec fn spec_next(self) -> Player {
        match self {
            Player::X => Player::O,
            Player::O => Player::X,
        }
    }

    /// The one-character symbol of the mark.
    pub open spec fn symbol(self) -> Seq<char> {
        match self {
            Player::X => seq!['X'],
            Player::O => seq!['O'],
        }
    }

    /// The player who moves after `self`.
    pub fn next(&self) -> (r: Player)
        ensures
            r == self.spec_next(),
            r != *self,
    {
        match self {
            Player::X => Player::O,
            Player::O => Player::X,
        }
    }

    /// The mark as text: `"X"` or `"O"`.
    pub fn to_string(&self) -> (r: String)
        ensures
            r@ == self.symbol(),
    {
        proof {
            reveal_strlit("X");
            reveal_strlit("O");
        }
        match self {
            Player::X => String::from_str("X"),
            Player::O => String::from_str("O"),
        }
    }
}

} // verus!
