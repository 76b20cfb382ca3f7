//! The board drawn as text, with an empty square shown by its number.

use vstd::prelude::*;

use crate::board::{square_number, Board};

verus! {

/// The decimal digit `n`, for `n` from 0 to 9.
pub open spec fn digit(n: int) -> char {
    ((48 + n) as u8) as char
}

/// The digit of square `n`, 1 to 9.
fn number_str(n: usize) -> (s: &'static str)
    requires
        1 <= n <= 9,
    ensures
        s@ == seq![digit(n as int)],
{
    proof {
        reveal_strlit("1");
        reveal_strlit("2");
        reveal_strlit("3");
        reveal_strlit("4");
        reveal_strlit("5");
        reveal_strlit("6");
        reveal_strlit("7");
        reveal_strlit("8");
        reveal_strlit("9");
    }
    match n {
        1 => "1",
        2 => "2",
        3 => "3",
        4 => "4",
        5 => "5",
        6 => "6",
        7 => "7",
        8 => "8",
        _ => "9",
    }
}

impl Board {
    /// What the square at `row`, `col` shows: its mark, or its number while empty.
    pub open spec fn square_text(self, row: int, col: int) -> Seq<char> {
        match self.at(row, col) {
            Some(p) => p.symbol(),
            None => seq![digit(square_number(row, col))],
        }
    }

    /// The two lines drawn for row `row`: a blank one, then the three squares.
    pub open spec fn row_text(self, row: int) -> Seq<char> {
        "|   |   |   |\n"@ + "| "@ + self.square_text(row, 0) + " "@ + "| "@ + self.square_text(
            row,
            1,
        ) + " "@ + "| "@ + self.square_text(row, 2) + " "@ + "|\n"@
    }

    /// The whole drawing: a top edge, then the three rows, each closed by a bottom edge
    /// (the last one without a line break).
    pub open spec fn text(self) -> Seq<char> {
        " ___________\n"@ + self.row_text(0) + "|___|___|___|\n"@ + self.row_text(1)
            + "|___|___|___|\n"@ + self.row_text(2) + "|___|___|___|"@
    }

    fn append_square(&self, s: &mut String, row: usize, col: usize)
        requires
            row < 3,
            col < 3,
        ensures
            final(s)@ == old(s)@ + "| "@ + self.square_text(row as int, col as int) + " "@,
    {
        s.append("| ");
        match self.cells[row][col] {
            Some(p) => {
                let mark = p.to_string();
                s.append(mark.as_str());
            },
            None => {
                s.append(number_str(3 * row + col + 1));
            },
        }
        s.append(" ");
    }

    fn append_row(&self, s: &mut String, row: usize)
        requires
            row < 3,
        ensures
            final(s)@ =~= old(s)@ + self.row_text(row as int),
    {
        s.append("|   |   |   |\n");
        self.append_square(s, row, 0);
        self.append_square(s, row, 1);
        self.append_square(s, row, 2);
        s.append("|\n");
    }

    /// The board drawn as text; empty squares show their number.
    pub fn to_string(&self) -> (r: String)
        ensures
            r@ == self.text(),
    {
        let mut s = String::from_str(" ___________\n");
        self.append_row(&mut s, 0);
        s.append("|___|___|___|\n");
        self.append_row(&mut s, 1);
        s.append("|___|___|___|\n");
        self.append_row(&mut s, 2);
        s.append("|___|___|___|");
        assert(s@ =~= self.text());
        s
    }
}

} // verus!
