use vstd::prelude::*;

use crate::chess_piece::{ChessPiece, Color, Piece};
use crate::game::Board;

verus! {

/// The board as it is sent out, with the color of the game's admin.
pub struct GameState {
    pub admin_color: String,
    pub state: Vec<Vec<String>>,
}

/// The two-character code of a square: color ('w' or 'b') then piece letter
/// ('K', 'Q', 'R', 'B', 'N', 'P'); empty for an empty square.
pub open spec fn square_code(x: Option<ChessPiece>) -> Seq<char> {
    match x {
        None => Seq::empty(),
        Some(p) => seq![
            match p.color {
                Color::WHITE => 'w',
                Color::BLACK => 'b',
            },
            match p.piece {
                Piece::KING => 'K',
                Piece::QUEEN => 'Q',
                Piece::ROOK => 'R',
                Piece::BISHOP => 'B',
                Piece::KNIGHT => 'N',
                Piece::PAWN => 'P',
            },
        ],
    }
}

fn code_of(x: Option<ChessPiece>) -> (r: String)
    ensures
        r@ == square_code(x),
{
    let mut code = String::new();
    if let Some(chess_piece) = x {
        match chess_piece.color {
            Color::WHITE => code.push('w'),
            Color::BLACK => code.push('b'),
        }
        match chess_piece.piece {
            Piece::KING => code.push('K'),
            Piece::QUEEN => code.push('Q'),
            Piece::ROOK => code.push('R'),
            Piece::BISHOP => code.push('B'),
            Piece::KNIGHT => code.push('N'),
            Piece::PAWN => code.push('P'),
        }
    }
    assert(code@ =~= square_code(x));
    code
}

/// The board as an 8x8 grid of square codes, row by row.
pub fn serialize_field(field: &Board) -> (r: Vec<Vec<String>>)
    ensures
        r@.len() == 8,
        forall|i: int| 0 <= i < 8 ==> #[trigger] r@[i]@.len() == 8,
        forall|i: int, j: int| 0 <= i < 8 && 0 <= j < 8 ==> #[trigger] r@[i]@[j]@ == square_code(field[i][j]),
{
    let mut serialized_fields: Vec<Vec<String>> = Vec::new();
    let mut i: usize = 0;
    while i < 8
        invariant
            i <= 8,
            serialized_fields@.len() == i,
            forall|a: int| 0 <= a < i ==> #[trigger] serialized_fields@[a]@.len() == 8,
            forall|a: int, b: int|
                0 <= a < i && 0 <= b < 8 ==> #[trigger] serialized_fields@[a]@[b]@ == square_code(
                    field[a][b],
                ),
        decreases 8 - i,
    {
        let mut row: Vec<String> = Vec::new();
        let mut j: usize = 0;
        while j < 8
            invariant
                i < 8,
                j <= 8,
                row@.len() == j,
                forall|b: int| 0 <= b < j ==> #[trigger] row@[b]@ == square_code(field[i as int][b]),
            decreases 8 - j,
        {
            row.push(code_of(field[i][j]));
            j = j + 1;
        }
        serialized_fields.push(row);
        i = i + 1;
    }
    serialized_fields
}

} // verus!
