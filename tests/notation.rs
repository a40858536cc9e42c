use chess_voting::chess_piece::Piece;
use chess_voting::convert_notation::{
    get_notation_from_square, get_promotion_piece, get_squares_from_notation,
};
use chess_voting::error::MoveError;
use chess_voting::utils::is_in_bounds;

#[test]
fn squares_are_read_as_row_and_column() {
    assert_eq!(get_squares_from_notation("a8", "h1"), Ok(((0, 0), (7, 7))));
    assert_eq!(get_squares_from_notation("e2", "e4"), Ok(((6, 4), (4, 4))));
}

#[test]
fn every_square_name_reads_back() {
    for file in "abcdefgh".chars() {
        for rank in "12345678".chars() {
            let name: String = [file, rank].iter().collect();
            let (sq, _) = get_squares_from_notation(&name, "a1").unwrap();
            assert_eq!(get_notation_from_square(sq), Ok(name));
        }
    }
}

#[test]
fn malformed_square_names() {
    assert_eq!(get_squares_from_notation("", "e4"), Err(MoveError::InvalidField));
    assert_eq!(get_squares_from_notation("e2", "e"), Err(MoveError::InvalidField));
    assert_eq!(get_squares_from_notation("z2", "e4"), Err(MoveError::OutOfBounds));
    assert_eq!(get_squares_from_notation("e2", "e9"), Err(MoveError::OutOfBounds));
    assert_eq!(get_notation_from_square((8, 0)), Err(MoveError::OutOfBounds));
    assert_eq!(get_notation_from_square((0, 8)), Err(MoveError::OutOfBounds));
    assert_eq!(get_notation_from_square((7, 0)), Ok("a1".to_string()));
}

#[test]
fn promotion_characters() {
    assert_eq!(get_promotion_piece('Q'), Some(Piece::QUEEN));
    assert_eq!(get_promotion_piece('R'), Some(Piece::ROOK));
    assert_eq!(get_promotion_piece('B'), Some(Piece::BISHOP));
    assert_eq!(get_promotion_piece('N'), Some(Piece::KNIGHT));
    assert_eq!(get_promotion_piece('K'), None);
    assert_eq!(get_promotion_piece(' '), None);
}

#[test]
fn bounds() {
    assert!(is_in_bounds(0, 7));
    assert!(!is_in_bounds(-1, 3));
    assert!(!is_in_bounds(3, 8));
}
