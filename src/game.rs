//! The game: a board, whose turn it is, and the one operation that changes them.

use vstd::prelude::*;

use crate::board::{col_of, row_of, square_number, Board};
use crate::player::Player;

verus! {

/// Why a move was refused. A refused move changes nothing.
#[derive(Debug, Clone, Copy, PartialEq, Eq, Structural)]
pub enum MoveError {
    /// The square number is not between 1 and 9.
    OutOfRange,
    /// The square already holds `by`'s mark.
    CellOccupied { by: Player },
}

/// Row and column of square `i`, numbered 1 to 9 row by row from the top left.
pub fn get_coords(i: usize) -> (r: Result<(usize, usize), MoveError>)
    ensures
        match r {
            Ok((row, col)) => {
                &&& 1 <= i <= 9
                &&& row == row_of(i as int)
                &&& col == col_of(i as int)
                &&& row < 3
                &&& col < 3
                &&& square_number(row as int, col as int) == i
            },
            Err(e) => !(1 <= i <= 9) && e == MoveError::OutOfRange,
        },
{
    if i < 1 || i > 9 {
        return Err(MoveError::OutOfRange);
    }
    let k = i - 1;
    Ok((k / 3, k % 3))
}

/// What a game is, seen from outside: the board and the player to move.
pub struct GameView {
    pub board: Board,
    pub next: Player,
}

impl GameView {
    /// Moves have strictly alternated, `X` first: `X` holds as many squares as `O`
    /// and is to move, or holds one more and `O` is to move.
    pub open spec fn alternates(self) -> bool {
        ||| self.board.count(Player::X) == self.board.count(Player::O) && self.next == Player::X
        ||| self.board.count(Player::X) == self.board.count(Player::O) + 1 && self.next
            == Player::O
    }
}

/// A game in progress (or over: nothing stops further moves on empty squares).
pub struct Game {
    board: Board,
    next_player: Player,
}

impl View for Game {
    type V = GameView;

    closed spec fn view(&self) -> GameView {
        GameView { board: self.board, next: self.next_player }
    }
}

impl Game {
    #[verifier::type_invariant]
    spec fn inv(self) -> bool {
        self@.alternates()
    }

    /// A game on an empty board, with `X` to move.
    pub fn new() -> (g: Game)
        ensures
            g@.board.is_empty(),
            g@.next == Player::X,
            g@.alternates(),
    {
        Game { board: Board::empty(), next_player: Player::X }
    }

    /// The player whose turn it is.
    pub fn get_player(&self) -> (r: Player)
        ensures
            r == self@.next,
            self@.alternates(),
    {
        proof {
            use_type_invariant(self);
        }
        self.next_player
    }

    /// A copy of the board.
    pub fn board(&self) -> (r: Board)
        ensures
            r == self@.board,
    {
        self.board
    }

    /// Puts the current player's mark on square `i` (1 to 9, row by row) and hands the
    /// turn to the other player. A number outside 1 to 9 gives `OutOfRange`; a square
    /// that holds a mark gives `CellOccupied` with that mark. On an error the game is
    /// left as it was.
    pub fn make_move(&mut self, i: usize) -> (r: Result<(), MoveError>)
        ensures
            old(self)@.alternates(),
            final(self)@.alternates(),
            old(self)@.board.marks_kept_by(final(self)@.board),
            !(1 <= i <= 9) ==> r == Err::<(), MoveError>(MoveError::OutOfRange) && final(self)@
                == old(self)@,
            1 <= i <= 9 ==> match old(self)@.board.at(row_of(i as int), col_of(i as int)) {
                Some(by) => r == Err::<(), MoveError>(MoveError::CellOccupied { by })
                    && final(self)@ == old(self)@,
                None => {
                    &&& r == Ok::<(), MoveError>(())
                    &&& old(self)@.board.placed(
                        final(self)@.board,
                        row_of(i as int),
                        col_of(i as int),
                        old(self)@.next,
                    )
                    &&& final(self)@.next == old(self)@.next.spec_next()
                    &&& final(self)@.board.filled() == old(self)@.board.filled() + 1
                },
            },
    {
        proof {
            use_type_invariant(&*self);
        }
        let (row, col) = match get_coords(i) {
            Ok(coords) => coords,
            Err(e) => return Err(e),
        };
        match self.board.get(row, col) {
            Some(by) => Err(MoveError::CellOccupied { by }),
            None => {
                let player = self.next_player;
                let mut board = self.board;
                board.put(row, col, player);
                proof {
                    self.board.lemma_place_counts(board, row as int, col as int, player);
                }
                *self = Game { board, next_player: player.next() };
                Ok(())
            },
        }
    }

    /// Whether every square holds a mark.
    pub fn is_full(&self) -> (r: bool)
        ensures
            r == self@.board.spec_is_full(),
    {
        self.board.is_full()
    }

    /// The owner of a complete line, if any (`X` looked for first).
    pub fn get_winner(&self) -> (r: Option<Player>)
        ensures
            r == self@.board.winner(),
    {
        self.board.get_winner()
    }

    /// The board drawn as text; empty squares show their number.
    pub fn to_string(&self) -> (r: String)
        ensures
            r@ == self@.board.text(),
    {
        self.board.to_string()
    }
}

/// Square numbers and board positions match one for one: square `n` lies on the board,
/// and the number of that position is `n` again.
pub proof fn lemma_coords_round_trip(n: int)
    requires
        1 <= n <= 9,
    ensures
        0 <= row_of(n) < 3,
        0 <= col_of(n) < 3,
        square_number(row_of(n), col_of(n)) == n,
{
}

/// Every position on the board has a number from 1 to 9, which leads back to it.
pub proof fn lemma_position_round_trip(row: int, col: int)
    requires
        0 <= row < 3,
        0 <= col < 3,
    ensures
        1 <= square_number(row, col) <= 9,
        row_of(square_number(row, col)) == row,
        col_of(square_number(row, col)) == col,
{
}

/// Turns alternate, `X` first: in every game the player to move is `X` exactly when an
/// even number of squares are filled. As each successful move fills one square with the
/// mark of the player to move, the k-th successful move is made by `X` when k is odd and
/// by `O` when k is even; the ninth, which fills the board, is made by `X`.
pub proof fn lemma_turn_parity(g: GameView)
    requires
        g.alternates(),
    ensures
        g.next == (if g.board.filled() % 2 == 0 {
            Player::X
        } else {
            Player::O
        }),
        g.board.count(Player::X) == g.board.count(Player::O) || g.board.count(Player::X)
            == g.board.count(Player::O) + 1,
{
}

/// Asking twice gives the same answer: `is_full` and `get_winner` take the game by shared
/// reference, so it cannot change between two calls, and each answer is fixed by the
/// game's view alone.
pub proof fn lemma_queries_repeat(g: GameView, h: GameView)
    requires
        g == h,
    ensures
        g.board.winner() == h.board.winner(),
        g.board.spec_is_full() == h.board.spec_is_full(),
{
}

} // verus!
