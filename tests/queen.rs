#![allow(unused_imports)]

use chess_voting::chess_piece::{ChessPiece, Color, Piece};
use chess_voting::game::{CastlingRights, Game, GameResult};
use uuid::Uuid;

#[test]
fn test_queen_move() {
    let mut game = Game::new(Uuid::new_v4(), Color::WHITE);
    game.field[6][4] = None;
    let val = game.validate_and_make_move("d1", "g4", ' ');
    if let Err(e) = val {
        panic!("Expected queen move to be performed, got {:?}", e);
    }

    assert_eq!(game.field[7][3], None);
    assert_eq!(
        game.field[4][6],
        Some({
            ChessPiece {
                piece: Piece::QUEEN,
                color: Color::WHITE,
            }
        })
    );
    assert_eq!(game.previous_move, "Qg4");
}

#[test]
fn test_queen_move_with_capture() {
    let mut game = Game::new(Uuid::new_v4(), Color::WHITE);
    game.field[6][3] = None;
    let val = game.validate_and_make_move("d1", "d7", ' ');
    if let Err(e) = val {
        panic!("Expected queen move to be performed, got {:?}", e);
    }

    assert_eq!(game.field[7][3], None);
    assert_eq!(
        game.field[1][3],
        Some({
            ChessPiece {
                piece: Piece::QUEEN,
                color: Color::WHITE,
            }
        })
    );
    assert_eq!(game.previous_move, "Qxd7+");
}

#[test]
fn test_queen_move_with_wrong_capture() {
    let mut game = Game::new(Uuid::new_v4(), Color::WHITE);
    let val = game.validate_and_make_move("d1", "d2", ' ');
    if val.is_ok() {
        panic!("Expected queen move to fail due to your own piece being captured");
    }
}

#[test]
fn test_queen_move_with_piece_in_the_way() {
    let mut game = Game::new(Uuid::new_v4(), Color::WHITE);
    game.field[6][3] = None;
    let val = game.validate_and_make_move("d1", "d8", ' ');
    if val.is_ok() {
        panic!("Expected queen move to fail due to a piece being in the way");
    }
}
