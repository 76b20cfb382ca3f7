//! The 3×3 grid, and the two questions asked of it: is it full, and who owns a line.

use vstd::prelude::*;

use crate::player::Player;

verus! {

/// The row of square `n`, numbered 1 to 9 row by row.
pub open spec fn row_of(n: int) -> int {
    (n - 1) / 3
}

/// The column of square `n`, numbered 1 to 9 row by row.
pub open spec fn col_of(n: int) -> int {
    (n - 1) % 3
}

/// The number, 1 to 9, of the square at `row`, `col`.
pub open spec fn square_number(row: int, col: int) -> int {
    3 * row + col + 1
}

/// A 3×3 grid of squares, `cells[row][col]`; `None` marks an empty square.
#[derive(Debug, Clone, Copy)]
pub struct Board {
    pub cells: [[Option<Player>; 3]; 3],
}

impl Board {
    /// The content of the square at `row`, `col`.
    pub open spec fn at(self, row: int, col: int) -> Option<Player> {
        self.cells@[row]@[col]
    }

    /// The square at `row`, `col` holds `p`'s mark.
    pub open spec fn holds(self, row: int, col: int, p: Player) -> bool {
        self.at(row, col) == Some(p)
    }

    pub open spec fn owns_row(self, p: Player, row: int) -> bool {
        self.holds(row, 0, p) && self.holds(row, 1, p) && self.holds(row, 2, p)
    }

    pub open spec fn owns_col(self, p: Player, col: int) -> bool {
        self.holds(0, col, p) && self.holds(1, col, p) && self.holds(2, col, p)
    }

    /// Top-left to bottom-right.
    pub open spec fn owns_diagonal(self, p: Player) -> bool {
        self.holds(0, 0, p) && self.holds(1, 1, p) && self.holds(2, 2, p)
    }

    /// Top-right to bottom-left.
    pub open spec fn owns_anti_diagonal(self, p: Player) -> bool {
        self.holds(0, 2, p) && self.holds(1, 1, p) && self.holds(2, 0, p)
    }

    /// `p` owns one of the eight lines: a row, a column or a diagonal.
    pub open spec fn has_line(self, p: Player) -> bool {
        ||| self.owns_row(p, 0)
        ||| self.owns_row(p, 1)
        ||| self.owns_row(p, 2)
        ||| self.owns_col(p, 0)
        ||| self.owns_col(p, 1)
        ||| self.owns_col(p, 2)
        ||| self.owns_diagonal(p)
        ||| self.owns_anti_diagonal(p)
    }

    /// The winner: `X` if it owns a line, else `O` if it does, else nobody.
    pub open spec fn winner(self) -> Option<Player> {
        if self.has_line(Player::X) {
            Some(Player::X)
        } else if self.has_line(Player::O) {
            Some(Player::O)
        } else {
            None
        }
    }

    /// Every square holds a mark.
    pub open spec fn spec_is_full(self) -> bool {
        forall|row: int, col: int| 0 <= row < 3 && 0 <= col < 3 ==> (#[trigger] self.at(row, col)).is_some()
    }

    /// No square holds a mark.
    pub open spec fn is_empty(self) -> bool {
        forall|row: int, col: int| 0 <= row < 3 && 0 <= col < 3 ==> (#[trigger] self.at(row, col)).is_none()
    }

    /// `after` is `self` with `p`'s mark put on the square at `row`, `col`.
    pub open spec fn placed(self, after: Board, row: int, col: int, p: Player) -> bool {
        forall|r: int, c: int|
            0 <= r < 3 && 0 <= c < 3 ==> #[trigger] after.at(r, c) == if r == row && c == col {
                Some(p)
            } else {
                self.at(r, c)
            }
    }

    /// Every square that holds a mark on `self` holds the same mark on `after`.
    pub open spec fn marks_kept_by(self, after: Board) -> bool {
        forall|row: int, col: int|
            0 <= row < 3 && 0 <= col < 3 && (#[trigger] self.at(row, col)) is Some ==> after.at(
                row,
                col,
            ) == self.at(row, col)
    }

    /// 1 if the square at `row`, `col` holds `p`'s mark, else 0.
    pub open spec fn square_count(self, p: Player, row: int, col: int) -> nat {
        if self.holds(row, col, p) {
            1
        } else {
            0
        }
    }

    pub open spec fn count_in_row(self, p: Player, row: int) -> nat {
        self.square_count(p, row, 0) + self.square_count(p, row, 1) + self.square_count(p, row, 2)
    }

    /// How many squares hold `p`'s mark.
    pub open spec fn count(self, p: Player) -> nat {
        self.count_in_row(p, 0) + self.count_in_row(p, 1) + self.count_in_row(p, 2)
    }

    /// How many squares hold a mark.
    pub open spec fn filled(self) -> nat {
        self.count(Player::X) + self.count(Player::O)
    }

    /// A full board on which neither player owns a line is a draw: there is no winner.
    pub proof fn lemma_draw(self)
        requires
            self.spec_is_full(),
            !self.has_line(Player::X),
            !self.has_line(Player::O),
        ensures
            self.winner() is None,
    {
    }

    /// Putting `p`'s mark on an empty square adds one to `p`'s count and leaves the other
    /// player's count as it was.
    pub proof fn lemma_place_counts(self, after: Board, row: int, col: int, p: Player)
        requires
            0 <= row < 3,
            0 <= col < 3,
            self.at(row, col).is_none(),
            self.placed(after, row, col, p),
        ensures
            after.count(p) == self.count(p) + 1,
            after.count(p.spec_next()) == self.count(p.spec_next()),
            after.filled() == self.filled() + 1,
    {
        let q = p.spec_next();
        assert forall|r: int, c: int| 0 <= r < 3 && 0 <= c < 3 implies {
            &&& #[trigger] after.square_count(p, r, c) == self.square_count(p, r, c) + if r == row
                && c == col {
                1nat
            } else {
                0nat
            }
            &&& after.square_count(q, r, c) == self.square_count(q, r, c)
        } by {
            assert(after.at(r, c) == if r == row && c == col {
                Some(p)
            } else {
                self.at(r, c)
            });
        }
        assert(after.square_count(q, 0, 0) == self.square_count(q, 0, 0));
        assert(after.square_count(q, 0, 1) == self.square_count(q, 0, 1));
        assert(after.square_count(q, 0, 2) == self.square_count(q, 0, 2));
        assert(after.square_count(q, 1, 0) == self.square_count(q, 1, 0));
        assert(after.square_count(q, 1, 1) == self.square_count(q, 1, 1));
        assert(after.square_count(q, 1, 2) == self.square_count(q, 1, 2));
        assert(after.square_count(q, 2, 0) == self.square_count(q, 2, 0));
        assert(after.square_count(q, 2, 1) == self.square_count(q, 2, 1));
        assert(after.square_count(q, 2, 2) == self.square_count(q, 2, 2));
    }

    /// A board with every square empty.
    pub fn empty() -> (b: Board)
        ensures
            b.is_empty(),
    {
        Board { cells: [[None, None, None], [None, None, None], [None, None, None]] }
    }

    /// The content of the square at `row`, `col`.
    pub fn get(&self, row: usize, col: usize) -> (r: Option<Player>)
        requires
            row < 3,
            col < 3,
        ensures
            r == self.at(row as int, col as int),
    {
        self.cells[row][col]
    }

    /// Puts `p`'s mark on the square at `row`, `col`.
    pub(crate) fn put(&mut self, row: usize, col: usize, p: Player)
        requires
            row < 3,
            col < 3,
        ensures
            old(self).placed(*final(self), row as int, col as int, p),
    {
        self.cells[row][col] = Some(p);
    }

    fn square_holds(&self, row: usize, col: usize, p: Player) -> (r: bool)
        requires
            row < 3,
            col < 3,
        ensures
            r == self.holds(row as int, col as int, p),
    {
        match self.cells[row][col] {
            Some(q) => q == p,
            None => false,
        }
    }

    /// Whether `p` owns a row, a column or a diagonal.
    pub fn owns_line(&self, p: Player) -> (r: bool)
        ensures
            r == self.has_line(p),
    {
        let mut row: usize = 0;
        while row < 3
            invariant
                row <= 3,
                forall|k: int| 0 <= k < row ==> !#[trigger] self.owns_row(p, k),
            decreases 3 - row,
        {
            if self.square_holds(row, 0, p) && self.square_holds(row, 1, p) && self.square_holds(
                row,
                2,
                p,
            ) {
                return true;
            }
            row += 1;
        }
        let mut col: usize = 0;
        while col < 3
            invariant
                col <= 3,
                forall|k: int| 0 <= k < 3 ==> !#[trigger] self.owns_row(p, k),
                forall|k: int| 0 <= k < col ==> !#[trigger] self.owns_col(p, k),
            decreases 3 - col,
        {
            if self.square_holds(0, col, p) && self.square_holds(1, col, p) && self.square_holds(
                2,
                col,
                p,
            ) {
                return true;
            }
            col += 1;
        }
        if self.square_holds(0, 0, p) && self.square_holds(1, 1, p) && self.square_holds(2, 2, p) {
            return true;
        }
        self.square_holds(0, 2, p) && self.square_holds(1, 1, p) && self.square_holds(2, 0, p)
    }

    /// Whether every square holds a mark.
    pub fn is_full(&self) -> (r: bool)
        ensures
            r == self.spec_is_full(),
    {
        let mut row: usize = 0;
        while row < 3
            invariant
                row <= 3,
                forall|r: int, c: int| 0 <= r < row && 0 <= c < 3 ==> (#[trigger] self.at(r, c)).is_some(),
            decreases 3 - row,
        {
            let mut col: usize = 0;
            while col < 3
                invariant
                    row < 3,
                    col <= 3,
                    forall|r: int, c: int| 0 <= r < row && 0 <= c < 3 ==> (#[trigger] self.at(r, c)).is_some(),
                    forall|c: int| 0 <= c < col ==> (#[trigger] self.at(row as int, c)).is_some(),
                decreases 3 - col,
            {
                if self.cells[row][col].is_none() {
                    assert(self.at(row as int, col as int).is_none());
                    return false;
                }
                col += 1;
            }
            row += 1;
        }
        true
    }

    /// The owner of a complete line, if any. `X` is looked for first, so a board on which
    /// both marks own a line reports `X`.
    pub fn get_winner(&self) -> (r: Option<Player>)
        ensures
            r == self.winner(),
    {
        if self.owns_line(Player::X) {
            Some(Player::X)
        } else if self.owns_line(Player::O) {
            Some(Player::O)
        } else {
            None
        }
    }
}

} // verus!
