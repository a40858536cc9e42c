use vstd::prelude::*;

use crate::chess_piece::Piece;
use crate::error::MoveError;

verus! {

/// Relies on std's String::push: the character is appended at the end.
pub assume_specification[ String::push ](s: &mut String, ch: char)
    ensures
        final(s)@ == old(s)@.push(ch),
;

/// The column that a file letter 'a'..'h' names.
pub open spec fn file_index(c: char) -> Option<int> {
    if c == 'a' {
        Some(0)
    } else if c == 'b' {
        Some(1)
    } else if c == 'c' {
        Some(2)
    } else if c == 'd' {
        Some(3)
    } else if c == 'e' {
        Some(4)
    } else if c == 'f' {
        Some(5)
    } else if c == 'g' {
        Some(6)
    } else if c == 'h' {
        Some(7)
    } else {
        None
    }
}

/// The row that a rank digit '1'..'8' names: rank 8 is row 0, rank 1 is row 7.
pub open spec fn rank_row(c: char) -> Option<int> {
    if c == '8' {
        Some(0)
    } else if c == '7' {
        Some(1)
    } else if c == '6' {
        Some(2)
    } else if c == '5' {
        Some(3)
    } else if c == '4' {
        Some(4)
    } else if c == '3' {
        Some(5)
    } else if c == '2' {
        Some(6)
    } else if c == '1' {
        Some(7)
    } else {
        None
    }
}

/// The file letter of a column in 0..8.
pub open spec fn file_char(col: int) -> char {
    if col == 0 {
        'a'
    } else if col == 1 {
        'b'
    } else if col == 2 {
        'c'
    } else if col == 3 {
        'd'
    } else if col == 4 {
        'e'
    } else if col == 5 {
        'f'
    } else if col == 6 {
        'g'
    } else {
        'h'
    }
}

/// The rank digit of a row in 0..8.
pub open spec fn rank_char(row: int) -> char {
    if row == 0 {
        '8'
    } else if row == 1 {
        '7'
    } else if row == 2 {
        '6'
    } else if row == 3 {
        '5'
    } else if row == 4 {
        '4'
    } else if row == 5 {
        '3'
    } else if row == 6 {
        '2'
    } else {
        '1'
    }
}

/// The algebraic name of a square, such as "e4".
pub open spec fn square_name(row: int, col: int) -> Seq<char> {
    seq![file_char(col), rank_char(row)]
}

/// Reading a pair of square names. The characters are checked in this order: the
/// file of the first, the file of the second, the rank of the first, the rank of
/// the second; characters after the second one are not read.
pub open spec fn squares_of(
    f: Seq<char>,
    t: Seq<char>,
) -> Result<((usize, usize), (usize, usize)), MoveError> {
    if f.len() < 1 {
        Err(MoveError::InvalidField)
    } else if file_index(f[0]) is None {
        Err(MoveError::OutOfBounds)
    } else if t.len() < 1 {
        Err(MoveError::InvalidField)
    } else if file_index(t[0]) is None {
        Err(MoveError::OutOfBounds)
    } else if f.len() < 2 {
        Err(MoveError::InvalidField)
    } else if rank_row(f[1]) is None {
        Err(MoveError::OutOfBounds)
    } else if t.len() < 2 {
        Err(MoveError::InvalidField)
    } else if rank_row(t[1]) is None {
        Err(MoveError::OutOfBounds)
    } else {
        Ok(
            (
                (rank_row(f[1])->Some_0 as usize, file_index(f[0])->Some_0 as usize),
                (rank_row(t[1])->Some_0 as usize, file_index(t[0])->Some_0 as usize),
            ),
        )
    }
}

/// A two-character square name with a file in a..h and a rank in 1..8.
pub open spec fn valid_square_name(s: Seq<char>) -> bool {
    s.len() == 2 && file_index(s[0]) is Some && rank_row(s[1]) is Some
}

/// The piece that a promotion character asks for.
pub open spec fn promotion_of(ch: char) -> Option<Piece> {
    if ch == 'Q' {
        Some(Piece::QUEEN)
    } else if ch == 'R' {
        Some(Piece::ROOK)
    } else if ch == 'B' {
        Some(Piece::BISHOP)
    } else if ch == 'N' {
        Some(Piece::KNIGHT)
    } else {
        None
    }
}

fn file_of(c: char) -> (r: Option<usize>)
    ensures
        r matches Some(v) ==> file_index(c) == Some(v as int),
        r is None ==> file_index(c) is None,
{
    match c {
        'a' => Some(0),
        'b' => Some(1),
        'c' => Some(2),
        'd' => Some(3),
        'e' => Some(4),
        'f' => Some(5),
        'g' => Some(6),
        'h' => Some(7),
        _ => None,
    }
}

fn row_of(c: char) -> (r: Option<usize>)
    ensures
        r matches Some(v) ==> rank_row(c) == Some(v as int),
        r is None ==> rank_row(c) is None,
{
    match c {
        '8' => Some(0),
        '7' => Some(1),
        '6' => Some(2),
        '5' => Some(3),
        '4' => Some(4),
        '3' => Some(5),
        '2' => Some(6),
        '1' => Some(7),
        _ => None,
    }
}

/// Reads the squares that two algebraic names denote, as (row, column) pairs.
pub fn get_squares_from_notation(from: &str, to: &str) -> (r: Result<
    ((usize, usize), (usize, usize)),
    MoveError,
>)
    ensures
        r == squares_of(from@, to@),
        r matches Ok(sq) ==> sq.0.0 < 8 && sq.0.1 < 8 && sq.1.0 < 8 && sq.1.1 < 8,
{
    let from_len: usize = from.unicode_len();
    let to_len: usize = to.unicode_len();
    if from_len < 1 {
        return Err(MoveError::InvalidField);
    }
    let from_col = match file_of(from.get_char(0)) {
        Some(v) => v,
        None => return Err(MoveError::OutOfBounds),
    };
    if to_len < 1 {
        return Err(MoveError::InvalidField);
    }
    let to_col = match file_of(to.get_char(0)) {
        Some(v) => v,
        None => return Err(MoveError::OutOfBounds),
    };
    if from_len < 2 {
        return Err(MoveError::InvalidField);
    }
    let from_row = match row_of(from.get_char(1)) {
        Some(v) => v,
        None => return Err(MoveError::OutOfBounds),
    };
    if to_len < 2 {
        return Err(MoveError::InvalidField);
    }
    let to_row = match row_of(to.get_char(1)) {
        Some(v) => v,
        None => return Err(MoveError::OutOfBounds),
    };
    Ok(((from_row, from_col), (to_row, to_col)))
}

fn file_letter(col: usize) -> (r: char)
    requires
        col < 8,
    ensures
        r == file_char(col as int),
{
    if col == 0 {
        'a'
    } else if col == 1 {
        'b'
    } else if col == 2 {
        'c'
    } else if col == 3 {
        'd'
    } else if col == 4 {
        'e'
    } else if col == 5 {
        'f'
    } else if col == 6 {
        'g'
    } else {
        'h'
    }
}

fn rank_digit(row: usize) -> (r: char)
    requires
        row < 8,
    ensures
        r == rank_char(row as int),
{
    if row == 0 {
        '8'
    } else if row == 1 {
        '7'
    } else if row == 2 {
        '6'
    } else if row == 3 {
        '5'
    } else if row == 4 {
        '4'
    } else if row == 5 {
        '3'
    } else if row == 6 {
        '2'
    } else {
        '1'
    }
}

/// Appends the algebraic name of an on-board square to `s`.
pub fn push_square_name(s: &mut String, row: usize, col: usize)
    requires
        row < 8,
        col < 8,
    ensures
        final(s)@ == old(s)@ + square_name(row as int, col as int),
{
    s.push(file_letter(col));
    s.push(rank_digit(row));
    assert(final(s)@ =~= old(s)@ + square_name(row as int, col as int));
}

/// The algebraic name of a (row, column) square; off-board squares are rejected.
pub fn get_notation_from_square(square: (usize, usize)) -> (r: Result<String, MoveError>)
    ensures
        square.0 < 8 && square.1 < 8 ==> (r matches Ok(s) && s@ == square_name(
            square.0 as int,
            square.1 as int,
        )),
        !(square.0 < 8 && square.1 < 8) ==> r == Err::<String, MoveError>(MoveError::OutOfBounds),
{
    if square.0 > 7 || square.1 > 7 {
        return Err(MoveError::OutOfBounds);
    }
    let mut notation = String::new();
    push_square_name(&mut notation, square.0, square.1);
    Ok(notation)
}

/// The piece that a promotion character asks for: 'Q', 'R', 'B' or 'N'.
pub fn get_promotion_piece(promotion_ch: char) -> (r: Option<Piece>)
    ensures
        r == promotion_of(promotion_ch),
{
    match promotion_ch {
        'Q' => Some(Piece::QUEEN),
        'R' => Some(Piece::ROOK),
        'B' => Some(Piece::BISHOP),
        'N' => Some(Piece::KNIGHT),
        _ => None,
    }
}

/// Reading a valid square name and writing the square back gives the same name.
pub proof fn lemma_notation_round_trip(s: Seq<char>, t: Seq<char>)
    requires
        valid_square_name(s),
        valid_square_name(t),
    ensures
        squares_of(s, t) is Ok,
        ({
            let sq = squares_of(s, t)->Ok_0.0;
            sq.0 < 8 && sq.1 < 8 && square_name(sq.0 as int, sq.1 as int) == s
        }),
{
    let sq = squares_of(s, t)->Ok_0.0;
    assert(square_name(sq.0 as int, sq.1 as int) =~= s);
}

} // verus!
