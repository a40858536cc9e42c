#![allow(unused_imports)]

use chess_voting::chess_piece::{ChessPiece, Color, Piece};
use chess_voting::game::{CastlingRights, Game, GameResult};
use uuid::Uuid;

#[test]
fn test_knight_move() {
    let mut game = Game::new(Uuid::new_v4(), Color::WHITE);
    let val = game.validate_and_make_move("b1", "c3", ' ');
    if let Err(e) = val {
        panic!("Expected knight move to be performed, got {:?}", e);
    }

    assert_eq!(game.field[7][1], None);
    assert_eq!(
        game.field[5][2],
        Some({
            ChessPiece {
                piece: Piece::KNIGHT,
                color: Color::WHITE,
            }
        })
    );
    assert_eq!(game.previous_move, "Nc3");
}

#[test]
fn test_knight_move_with_capture() {
    let mut game = Game::new(Uuid::new_v4(), Color::WHITE);
    game.field[6][3] = Some(ChessPiece {
        piece: Piece::ROOK,
        color: Color::BLACK,
    });
    let val = game.validate_and_make_move("b1", "d2", ' ');
    if let Err(e) = val {
        panic!("Expected knight move to be performed, got {:?}", e);
    }

    assert_eq!(game.field[7][1], None);
    assert_eq!(
        game.field[6][3],
        Some({
            ChessPiece {
                piece: Piece::KNIGHT,
                color: Color::WHITE,
            }
        })
    );
    assert_eq!(game.previous_move, "Nxd2");
}

#[test]
fn test_knight_move_with_wrong_capture() {
    let mut game = Game::new(Uuid::new_v4(), Color::WHITE);
    let val = game.validate_and_make_move("b1", "d2", ' ');
    if val.is_ok() {
        panic!("Expected knight move to fail due to your own piece being captured");
    }
}
