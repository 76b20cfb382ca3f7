//! Rules engine for two-player tic-tac-toe on a 3×3 board: moves, turns, and the
//! detection of a win or a full board.

pub mod board;
pub mod game;
pub mod player;
pub mod render;

pub use board::Board;
pub use game::{get_coords, Game, GameView, MoveError};
pub use player::Player;
