use tic_tac_toe::Player::{O, X};
use tic_tac_toe::{get_coords, Board, Game, MoveError, Player};

#[test]
fn game_next_player() {
    let x = X;
    let o = x.next();
    assert_eq!(O, o);
    assert_eq!(X, o.next());
}

#[test]
fn display_player() {
    assert_eq!("X".to_owned(), X.to_string());
    assert_eq!("O".to_owned(), O.to_string());
}

#[test]
fn display_game() -> Result<(), MoveError> {
    let mut game = Game::new();
    assert_eq!(
        " ___________
|   |   |   |
| 1 | 2 | 3 |
|___|___|___|
|   |   |   |
| 4 | 5 | 6 |
|___|___|___|
|   |   |   |
| 7 | 8 | 9 |
|___|___|___|"
            .to_owned(),
        game.to_string()
    );
    game.make_move(1)?;
    assert_eq!(
        " ___________
|   |   |   |
| X | 2 | 3 |
|___|___|___|
|   |   |   |
| 4 | 5 | 6 |
|___|___|___|
|   |   |   |
| 7 | 8 | 9 |
|___|___|___|"
            .to_owned(),
        game.to_string()
    );
    Ok(())
}

#[test]
fn new_game() {
    let game = Game::new();
    for i in game.board().cells.into_iter().flatten() {
        assert_eq!(None, i);
    }
    assert_eq!(game.get_player(), Player::X);
}

#[test]
fn get_player_test() -> Result<(), MoveError> {
    let mut game = Game::new();
    assert_eq!(X, game.get_player());
    game.make_move(5)?;
    assert_eq!(O, game.get_player());
    Ok(())
}

#[test]
fn make_valid_move() -> Result<(), MoveError> {
    let mut game = Game::new();
    game.make_move(5)?;
    assert_eq!(Some(X), game.board().cells[1][1]);
    Ok(())
}

#[test]
fn make_out_of_range_move() {
    let mut game = Game::new();
    assert!(game.make_move(99).is_err());
}

#[test]
fn make_invalid_move() -> Result<(), MoveError> {
    let mut game = Game::new();
    game.make_move(5)?;
    assert!(game.make_move(5).is_err());
    Ok(())
}

#[test]
fn is_full() {
    let board = Board {
        cells: [
            [Some(X), Some(O), Some(X)],
            [Some(O), Some(O), Some(X)],
            [Some(O), Some(X), Some(X)],
        ],
    };
    assert!(board.is_full());
}

#[test]
fn is_not_full() {
    let board = Board {
        cells: [
            [Some(X), Some(O), Some(X)],
            [Some(O), None, Some(X)],
            [Some(O), Some(X), Some(X)],
        ],
    };
    assert!(!board.is_full());
}

#[test]
fn draw_checking() {
    let board = Board {
        cells: [
            [Some(X), Some(O), Some(O)],
            [Some(O), Some(X), Some(X)],
            [Some(O), Some(X), Some(O)],
        ],
    };
    assert_eq!(None, board.get_winner());
}

#[test]
fn loser_checking() {
    let board = Board {
        cells: [
            [Some(X), Some(X), Some(O)],
            [None, Some(O), Some(X)],
            [Some(O), Some(O), Some(X)],
        ],
    };
    assert_eq!(Some(O), board.get_winner());
}

#[test]
fn winner_checking() {
    let board = Board {
        cells: [
            [Some(X), Some(O), Some(X)],
            [Some(O), Some(O), Some(X)],
            [Some(O), Some(X), Some(X)],
        ],
    };
    assert_eq!(Some(X), board.get_winner());
}

#[test]
fn coords_test() -> Result<(), MoveError> {
    let tests = [
        (1, 0, 0),
        (2, 0, 1),
        (3, 0, 2),
        (4, 1, 0),
        (5, 1, 1),
        (6, 1, 2),
        (7, 2, 0),
        (8, 2, 1),
        (9, 2, 2),
    ];
    for t in tests {
        assert_eq!((t.1, t.2), get_coords(t.0)?);
    }
    Ok(())
}
