use chess_voting::check_mate::{can_be_captured_by, can_king_be_captured_after_move, is_mate, CapturePiece};
use chess_voting::chess_piece::{ChessPiece, Color, Piece};
use chess_voting::error::MoveError;
use chess_voting::game::{Game, GameResult};
use chess_voting::request::{MoveRequest, MoveResponse};
use chess_voting::response::serialize_field;
use uuid::Uuid;

fn new_game() -> Game {
    Game::new(Uuid::new_v4(), Color::WHITE)
}

fn white(piece: Piece) -> Option<ChessPiece> {
    Some(ChessPiece { piece, color: Color::WHITE })
}

fn black(piece: Piece) -> Option<ChessPiece> {
    Some(ChessPiece { piece, color: Color::BLACK })
}

#[test]
fn knight_opening_is_recorded() {
    let mut game = new_game();
    assert_eq!(game.validate_and_make_move("b1", "c3", ' '), Ok(()));
    assert_eq!(game.previous_move, "Nc3");
    assert_eq!(game.field[5][2], white(Piece::KNIGHT));
    assert_eq!(game.field[7][1], None);
}

#[test]
fn pawn_takes_pawn_in_the_centre() {
    let mut game = new_game();
    game.validate_and_make_move("e2", "e4", ' ').unwrap();
    game.validate_and_make_move("d7", "d5", ' ').unwrap();
    game.validate_and_make_move("e4", "d5", ' ').unwrap();
    assert_eq!(game.previous_move, "xd5");
    assert_eq!(game.field[3][3], white(Piece::PAWN));
    assert_eq!(game.field[6][4], None);
    assert_eq!(game.field[4][4], None);
    assert_eq!(game.field[1][3], None);
}

#[test]
fn quickest_mate_sets_the_result() {
    let mut game = new_game();
    game.validate_and_make_move("f2", "f3", ' ').unwrap();
    game.validate_and_make_move("e7", "e5", ' ').unwrap();
    game.validate_and_make_move("g2", "g4", ' ').unwrap();
    assert_eq!(game.game_result, None);
    game.validate_and_make_move("d8", "h4", ' ').unwrap();
    assert_eq!(game.previous_move, "Qh4+");
    assert_eq!(game.game_result, Some(GameResult::BlackWon));
    assert!(is_mate(&game));
}

#[test]
fn check_that_can_be_answered_is_no_mate() {
    let mut game = new_game();
    game.validate_and_make_move("e2", "e4", ' ').unwrap();
    game.validate_and_make_move("e7", "e5", ' ').unwrap();
    game.validate_and_make_move("d1", "h5", ' ').unwrap();
    game.validate_and_make_move("b8", "c6", ' ').unwrap();
    game.validate_and_make_move("h5", "f7", ' ').unwrap();
    assert_eq!(game.previous_move, "Qxf7+");
    assert_eq!(game.game_result, None);
    assert!(!is_mate(&game));
    game.validate_and_make_move("e8", "f7", ' ').unwrap();
    assert_eq!(game.previous_move, "Kxf7");
}

#[test]
fn check_answered_only_by_a_block_counts_as_mate() {
    let mut game = new_game();
    game.validate_and_make_move("e2", "e4", ' ').unwrap();
    game.validate_and_make_move("f7", "f6", ' ').unwrap();
    game.validate_and_make_move("d1", "h5", ' ').unwrap();
    assert_eq!(game.previous_move, "Qh5+");
    assert_eq!(game.game_result, Some(GameResult::WhiteWon));
}

#[test]
fn turns_alternate_and_count_after_black() {
    let mut game = new_game();
    assert_eq!(game.next_to_move, Color::WHITE);
    assert_eq!(game.turn_number, 0);
    game.validate_and_make_move("e2", "e4", ' ').unwrap();
    assert_eq!(game.next_to_move, Color::BLACK);
    assert_eq!(game.turn_number, 0);
    game.validate_and_make_move("e7", "e5", ' ').unwrap();
    assert_eq!(game.next_to_move, Color::WHITE);
    assert_eq!(game.turn_number, 1);
    game.validate_and_make_move("g1", "f3", ' ').unwrap();
    assert_eq!(game.next_to_move, Color::BLACK);
    assert_eq!(game.turn_number, 1);
    game.validate_and_make_move("b8", "c6", ' ').unwrap();
    assert_eq!(game.next_to_move, Color::WHITE);
    assert_eq!(game.turn_number, 2);
}

#[test]
fn rejected_move_changes_nothing() {
    let mut game = new_game();
    let before = game.field;
    assert_eq!(game.validate_and_make_move("e2", "e5", ' '), Err(MoveError::GeneralError));
    assert_eq!(game.field, before);
    assert_eq!(game.next_to_move, Color::WHITE);
    assert_eq!(game.previous_move, "");
}

#[test]
fn en_passant_lasts_one_move() {
    let mut game = new_game();
    game.validate_and_make_move("e2", "e4", ' ').unwrap();
    assert!(game.can_en_passant);
    game.validate_and_make_move("g8", "f6", ' ').unwrap();
    assert!(!game.can_en_passant);
    game.validate_and_make_move("e4", "e5", ' ').unwrap();
    assert!(!game.can_en_passant);
    game.validate_and_make_move("d7", "d5", ' ').unwrap();
    assert!(game.can_en_passant);
    game.validate_and_make_move("b1", "c3", ' ').unwrap();
    assert!(!game.can_en_passant);
    game.validate_and_make_move("a7", "a6", ' ').unwrap();
    // the window has passed: e5xd6 is no longer allowed
    assert_eq!(game.validate_and_make_move("e5", "d6", ' '), Err(MoveError::GeneralError));
}

#[test]
fn en_passant_capture_removes_the_pawn() {
    let mut game = new_game();
    game.validate_and_make_move("e2", "e4", ' ').unwrap();
    game.validate_and_make_move("a7", "a6", ' ').unwrap();
    game.validate_and_make_move("e4", "e5", ' ').unwrap();
    game.validate_and_make_move("d7", "d5", ' ').unwrap();
    game.validate_and_make_move("e5", "d6", ' ').unwrap();
    assert_eq!(game.previous_move, "xd6");
    assert!(game.previous_move_was_enpassant);
    assert_eq!(game.field[3][3], None);
    assert_eq!(game.field[2][3], white(Piece::PAWN));
}

#[test]
fn king_move_ends_castling_rights() {
    let mut game = new_game();
    game.validate_and_make_move("e2", "e4", ' ').unwrap();
    game.validate_and_make_move("e7", "e5", ' ').unwrap();
    game.validate_and_make_move("e1", "e2", ' ').unwrap();
    assert!(!game.can_castle.white_can_short_castle);
    assert!(!game.can_castle.white_can_long_castle);
    assert!(game.can_castle.black_can_short_castle);
    assert_eq!(game.king_position.white_king_position, (6, 4));
    game.validate_and_make_move("a7", "a6", ' ').unwrap();
    game.validate_and_make_move("e2", "e1", ' ').unwrap();
    assert!(!game.can_castle.white_can_short_castle);
    assert!(!game.can_castle.white_can_long_castle);
}

#[test]
fn rook_move_ends_one_castling_right() {
    let mut game = new_game();
    game.validate_and_make_move("h2", "h4", ' ').unwrap();
    game.validate_and_make_move("a7", "a5", ' ').unwrap();
    game.validate_and_make_move("h1", "h3", ' ').unwrap();
    assert!(!game.can_castle.white_can_short_castle);
    assert!(game.can_castle.white_can_long_castle);
    game.validate_and_make_move("a8", "a6", ' ').unwrap();
    assert!(!game.can_castle.black_can_long_castle);
    assert!(game.can_castle.black_can_short_castle);
}

#[test]
fn short_castle_through_attacked_square_is_rejected() {
    let mut game = new_game();
    game.field[7][5] = None;
    game.field[7][6] = None;
    game.field[6][5] = None;
    game.field[1][5] = None;
    game.field[2][5] = black(Piece::ROOK);
    assert_eq!(game.validate_and_make_move("e1", "g1", ' '), Err(MoveError::InvalidCastle));
}

#[test]
fn short_castle_moves_the_rook() {
    let mut game = new_game();
    game.field[7][5] = None;
    game.field[7][6] = None;
    game.validate_and_make_move("e1", "g1", ' ').unwrap();
    assert_eq!(game.previous_move, "0-0");
    assert_eq!(game.field[7][6], white(Piece::KING));
    assert_eq!(game.field[7][5], white(Piece::ROOK));
    assert_eq!(game.field[7][7], None);
}

#[test]
fn pawn_promotes_to_the_chosen_piece() {
    let mut game = new_game();
    game.field[1][0] = white(Piece::PAWN);
    game.field[0][0] = None;
    assert_eq!(game.validate_and_make_move("a7", "a8", ' '), Err(MoveError::PromotionRequired));
    game.validate_and_make_move("a7", "a8", 'N').unwrap();
    assert_eq!(game.previous_move, "a8=N");
    assert_eq!(game.field[0][0], white(Piece::KNIGHT));
}

#[test]
fn each_rejection_has_its_reason() {
    let mut game = new_game();
    assert_eq!(game.validate_move("e", "e4", ' '), Err(MoveError::InvalidField));
    assert_eq!(game.validate_move("e2", "", ' '), Err(MoveError::InvalidField));
    assert_eq!(game.validate_move("i2", "e4", ' '), Err(MoveError::OutOfBounds));
    assert_eq!(game.validate_move("e9", "e4", ' '), Err(MoveError::OutOfBounds));
    assert_eq!(game.validate_move("e2", "e0", ' '), Err(MoveError::OutOfBounds));
    assert_eq!(game.validate_move("e4", "e5", ' '), Err(MoveError::NoPieceSelected));
    assert_eq!(game.validate_move("b1", "b3", ' '), Err(MoveError::GeneralError));
    assert_eq!(game.validate_move("a1", "a3", ' '), Err(MoveError::PieceInTheWay));
    assert_eq!(game.validate_move("g1", "e2", ' '), Err(MoveError::CaptureOwnPiece));
    assert_eq!(game.validate_move("e1", "g1", ' '), Err(MoveError::InvalidCastle));
    game.field[6][4] = None;
    game.field[1][4] = None;
    game.field[5][4] = white(Piece::BISHOP);
    game.field[2][4] = black(Piece::QUEEN);
    assert_eq!(game.validate_move("e3", "d4", ' '), Err(MoveError::OwnKingInCheck));
    assert_eq!(game.validate_move("e3", "e4", ' '), Err(MoveError::GeneralError));
}

#[test]
fn error_messages() {
    assert_eq!(MoveError::OwnKingInCheck.to_str(), "Your king is in check");
    assert_eq!(MoveError::GeneralError.to_str(), "Invalid move");
}

#[test]
fn attackers_of_a_square_in_scan_order() {
    let game = new_game();
    let found = can_be_captured_by(Color::WHITE, (5, 5), &game);
    assert_eq!(
        found,
        vec![
            CapturePiece { row: 7, col: 6, piece: Piece::KNIGHT },
            CapturePiece { row: 6, col: 6, piece: Piece::PAWN },
            CapturePiece { row: 6, col: 4, piece: Piece::PAWN },
        ]
    );
    assert_eq!(can_be_captured_by(Color::BLACK, (5, 5), &game), vec![]);
}

#[test]
fn look_ahead_finds_a_pinned_piece() {
    let mut game = new_game();
    game.field[6][4] = None;
    game.field[1][4] = None;
    game.field[5][4] = white(Piece::BISHOP);
    game.field[2][4] = black(Piece::QUEEN);
    let found = can_king_be_captured_after_move(&game, "e3", "d4", ' ');
    assert_eq!(found, vec![CapturePiece { row: 2, col: 4, piece: Piece::QUEEN }]);
    assert!(can_king_be_captured_after_move(&game, "e3", "e2", ' ').is_empty());
}

#[test]
fn board_codes() {
    let game = new_game();
    let state = serialize_field(&game.field);
    assert_eq!(state.len(), 8);
    assert_eq!(state[0][0], "bR");
    assert_eq!(state[0][4], "bK");
    assert_eq!(state[1][3], "bP");
    assert_eq!(state[7][3], "wQ");
    assert_eq!(state[7][6], "wN");
    assert_eq!(state[7][5], "wB");
    assert_eq!(state[4][4], "");
}

#[test]
fn response_after_a_move() {
    let mut game = new_game();
    game.validate_and_make_move("e2", "e4", ' ').unwrap();
    let request = MoveRequest {
        from: "e2".to_string(),
        to: "e4".to_string(),
        promotion: " ".to_string(),
    };
    let r = MoveResponse::after_move(&game, request);
    assert_eq!(r.player, "white");
    assert_eq!(r.from, "e2");
    assert_eq!(r.to, "e4");
    assert_eq!(r.move_notation, "e4");
    assert!(!r.en_passant);
    assert_eq!(r.result, None);
}

#[test]
fn names_of_colors_and_results() {
    assert_eq!(Color::WHITE.to_str(), "white");
    assert_eq!(Color::BLACK.to_str(), "black");
    assert_eq!(Color::WHITE.opposite_color(), "black");
    assert_eq!(Color::BLACK.opponent(), Color::WHITE);
    assert_eq!(GameResult::WhiteWon.to_str(), "1-0");
    assert_eq!(GameResult::BlackWon.to_str(), "0-1");
}

#[test]
fn back_rank_mate_is_found() {
    let mut game = new_game();
    game.field = [[None; 8]; 8];
    game.field[7][6] = white(Piece::KING);
    game.field[6][5] = white(Piece::PAWN);
    game.field[6][6] = white(Piece::PAWN);
    game.field[6][7] = white(Piece::PAWN);
    game.field[7][0] = black(Piece::ROOK);
    game.field[0][4] = black(Piece::KING);
    game.king_position.white_king_position = (7, 6);
    game.king_position.black_king_position = (0, 4);
    assert!(is_mate(&game));
    // with an air square on h3 the king escapes to h2
    game.field[6][7] = None;
    game.field[5][7] = white(Piece::PAWN);
    assert!(!is_mate(&game));
}

#[test]
fn only_the_side_to_move_moves() {
    let mut game = new_game();
    assert_eq!(game.validate_and_make_move("e7", "e5", ' '), Err(MoveError::NoPieceSelected));
    game.validate_and_make_move("e2", "e4", ' ').unwrap();
    assert_eq!(game.validate_and_make_move("e4", "e5", ' '), Err(MoveError::NoPieceSelected));
    assert_eq!(game.validate_and_make_move("e8", "e7", ' '), Err(MoveError::CaptureOwnPiece));
}
