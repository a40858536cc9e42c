use vstd::prelude::*;

use crate::check_mate::{attackers, can_be_captured_by};
use crate::chess_piece::{ChessPiece, Color, other};
use crate::convert_notation::{
    get_notation_from_square,
    get_promotion_piece,
    promotion_of,
    square_name,
};
use crate::error::MoveError;
use crate::game::{CastlingRights, Game};

verus! {

pub open spec fn abs(x: int) -> int {
    if x < 0 {
        -x
    } else {
        x
    }
}

/// The coordinate `k` steps from `a` toward `b`.
pub open spec fn step_toward(a: int, b: int, k: int) -> int {
    if b > a {
        a + k
    } else if b < a {
        a - k
    } else {
        a
    }
}

/// The number of steps of a straight or diagonal move.
pub open spec fn distance(from: (usize, usize), to: (usize, usize)) -> int {
    let dr = abs(from.0 - to.0);
    let dc = abs(from.1 - to.1);
    if dr > dc {
        dr
    } else {
        dc
    }
}

/// Every square strictly between `from` and `to` on a straight or diagonal line is empty.
pub open spec fn path_clear(
    b: Seq<Seq<Option<ChessPiece>>>,
    from: (usize, usize),
    to: (usize, usize),
) -> bool {
    forall|k: int|
        1 <= k < distance(from, to) ==> #[trigger] b[step_toward(from.0 as int, to.0 as int, k)][step_toward(
            from.1 as int,
            to.1 as int,
            k,
        )] is None
}

/// The destination holds a piece of the side to move.
pub open spec fn captures_own(b: Seq<Seq<Option<ChessPiece>>>, mover: Color, to: (usize, usize)) -> bool {
    b[to.0 as int][to.1 as int] matches Some(p) && p.color == mover
}

/// The last check that every piece but the pawn and the king shares.
pub open spec fn capture_rule(
    b: Seq<Seq<Option<ChessPiece>>>,
    mover: Color,
    to: (usize, usize),
) -> Result<(), MoveError> {
    if captures_own(b, mover, to) {
        Err(MoveError::CaptureOwnPiece)
    } else {
        Ok(())
    }
}

pub open spec fn bishop_rule(
    b: Seq<Seq<Option<ChessPiece>>>,
    mover: Color,
    from: (usize, usize),
    to: (usize, usize),
) -> Result<(), MoveError> {
    let dr = from.0 - to.0;
    let dc = from.1 - to.1;
    if abs(dr) != abs(dc) || dr == 0 {
        Err(MoveError::GeneralError)
    } else if !path_clear(b, from, to) {
        Err(MoveError::PieceInTheWay)
    } else {
        capture_rule(b, mover, to)
    }
}

pub open spec fn rook_rule(
    b: Seq<Seq<Option<ChessPiece>>>,
    mover: Color,
    from: (usize, usize),
    to: (usize, usize),
) -> Result<(), MoveError> {
    let dr = from.0 - to.0;
    let dc = from.1 - to.1;
    if (dr == 0) == (dc == 0) {
        Err(MoveError::GeneralError)
    } else if !path_clear(b, from, to) {
        Err(MoveError::PieceInTheWay)
    } else {
        capture_rule(b, mover, to)
    }
}

pub open spec fn queen_rule(
    b: Seq<Seq<Option<ChessPiece>>>,
    mover: Color,
    from: (usize, usize),
    to: (usize, usize),
) -> Result<(), MoveError> {
    let dr = from.0 - to.0;
    let dc = from.1 - to.1;
    if dr == 0 && dc == 0 {
        Err(MoveError::GeneralError)
    } else if dr != 0 && dc != 0 && abs(dr) != abs(dc) {
        Err(MoveError::GeneralError)
    } else if !path_clear(b, from, to) {
        Err(MoveError::PieceInTheWay)
    } else {
        capture_rule(b, mover, to)
    }
}

pub open spec fn knight_rule(
    b: Seq<Seq<Option<ChessPiece>>>,
    mover: Color,
    from: (usize, usize),
    to: (usize, usize),
) -> Result<(), MoveError> {
    let dr = abs(from.0 - to.0);
    let dc = abs(from.1 - to.1);
    if !((dr == 1 && dc == 2) || (dr == 2 && dc == 1)) {
        Err(MoveError::GeneralError)
    } else {
        capture_rule(b, mover, to)
    }
}

/// The back rank of a color.
pub open spec fn home_row(c: Color) -> int {
    match c {
        Color::WHITE => 7,
        Color::BLACK => 0,
    }
}

/// `enemy` could capture on (row, col).
pub open spec fn attacked(b: Seq<Seq<Option<ChessPiece>>>, enemy: Color, row: int, col: int) -> bool {
    attackers(b, enemy, row, col).len() > 0
}

/// Castling toward the queen's side: the right is kept, the three squares between
/// king and rook are empty, and the king's start, transit and destination squares
/// are not attacked.
pub open spec fn long_castle_allowed(
    b: Seq<Seq<Option<ChessPiece>>>,
    mover: Color,
    rights: CastlingRights,
) -> bool {
    let h = home_row(mover);
    let e = other(mover);
    &&& match mover {
        Color::WHITE => rights.white_can_long_castle,
        Color::BLACK => rights.black_can_long_castle,
    }
    &&& b[h][1] is None && b[h][2] is None && b[h][3] is None
    &&& !attacked(b, e, h, 2) && !attacked(b, e, h, 3) && !attacked(b, e, h, 4)
}

/// Castling toward the king's side, under the same conditions.
pub open spec fn short_castle_allowed(
    b: Seq<Seq<Option<ChessPiece>>>,
    mover: Color,
    rights: CastlingRights,
) -> bool {
    let h = home_row(mover);
    let e = other(mover);
    &&& match mover {
        Color::WHITE => rights.white_can_short_castle,
        Color::BLACK => rights.black_can_short_castle,
    }
    &&& b[h][5] is None && b[h][6] is None
    &&& !attacked(b, e, h, 4) && !attacked(b, e, h, 5) && !attacked(b, e, h, 6)
}

/// A two-column king move from the king's start square is a castling move.
pub open spec fn castle_allowed(
    b: Seq<Seq<Option<ChessPiece>>>,
    mover: Color,
    rights: CastlingRights,
    from: (usize, usize),
    to: (usize, usize),
) -> bool {
    &&& from.0 == home_row(mover) && from.1 == 4
    &&& (to.1 == 2 && long_castle_allowed(b, mover, rights)) || (to.1 == 6 && short_castle_allowed(
        b,
        mover,
        rights,
    ))
}

pub open spec fn king_rule(
    b: Seq<Seq<Option<ChessPiece>>>,
    mover: Color,
    rights: CastlingRights,
    from: (usize, usize),
    to: (usize, usize),
) -> Result<(), MoveError> {
    let dr = abs(from.0 - to.0);
    let dc = abs(from.1 - to.1);
    if (dr == 1 && dc == 0) || (dr == 0 && dc == 1) || (dr == 1 && dc == 1) {
        capture_rule(b, mover, to)
    } else if dr == 0 && dc == 2 {
        if castle_allowed(b, mover, rights, from, to) {
            Ok(())
        } else {
            Err(MoveError::InvalidCastle)
        }
    } else {
        Err(MoveError::GeneralError)
    }
}

/// A pawn that reaches the first or last row needs a promotion piece.
pub open spec fn promotion_rule(to: (usize, usize), promotion_ch: char) -> Result<(), MoveError> {
    if (to.0 == 0 || to.0 == 7) && promotion_of(promotion_ch) is None {
        Err(MoveError::PromotionRequired)
    } else {
        Ok(())
    }
}

/// The row step of a pawn of a color: White moves toward row 0.
pub open spec fn forward(c: Color) -> int {
    match c {
        Color::WHITE => -1,
        Color::BLACK => 1,
    }
}

/// The pawn rules. An en-passant capture needs the flag of a two-square advance and
/// that the last move's notation names the square of the pawn that advanced.
pub open spec fn pawn_rule(
    b: Seq<Seq<Option<ChessPiece>>>,
    mover: Color,
    en_passant: bool,
    previous_move: Seq<char>,
    from: (usize, usize),
    to: (usize, usize),
    promotion_ch: char,
) -> Result<(), MoveError> {
    let dr = to.0 - from.0;
    let dc = to.1 - from.1;
    let f = forward(mover);
    if dr == f && dc == 0 {
        if b[to.0 as int][to.1 as int] is Some {
            Err(MoveError::PieceInTheWay)
        } else {
            promotion_rule(to, promotion_ch)
        }
    } else if dr == 2 * f && dc == 0 {
        if from.0 != home_row(mover) + f || to.0 != home_row(mover) + 3 * f {
            Err(MoveError::GeneralError)
        } else if b[to.0 as int][to.1 as int] is Some || b[from.0 + f][to.1 as int] is Some {
            Err(MoveError::PieceInTheWay)
        } else {
            promotion_rule(to, promotion_ch)
        }
    } else if dr == f && abs(dc) == 1 {
        if captures_own(b, mover, to) {
            Err(MoveError::CaptureOwnPiece)
        } else if b[to.0 as int][to.1 as int] is None && (!en_passant || previous_move
            != square_name(from.0 as int, to.1 as int)) {
            Err(MoveError::GeneralError)
        } else {
            promotion_rule(to, promotion_ch)
        }
    } else {
        Err(MoveError::GeneralError)
    }
}

/// Whether the squares strictly between `from` and `to` are empty; the move is
/// straight or diagonal.
fn path_is_clear(from: (usize, usize), to: (usize, usize), game: &Game) -> (r: bool)
    requires
        from.0 < 8,
        from.1 < 8,
        to.0 < 8,
        to.1 < 8,
        from.0 == to.0 || from.1 == to.1 || abs(from.0 - to.0) == abs(from.1 - to.1),
    ensures
        r == path_clear(game@.board, from, to),
{
    let n_rows: usize = if from.0 > to.0 {
        from.0 - to.0
    } else {
        to.0 - from.0
    };
    let n_cols: usize = if from.1 > to.1 {
        from.1 - to.1
    } else {
        to.1 - from.1
    };
    let n: usize = if n_rows > n_cols {
        n_rows
    } else {
        n_cols
    };
    let mut i: usize = 1;
    while i < n
        invariant
            1 <= i,
            i <= n || i == 1,
            from.0 < 8,
            from.1 < 8,
            to.0 < 8,
            to.1 < 8,
            from.0 == to.0 || from.1 == to.1 || abs(from.0 - to.0) == abs(from.1 - to.1),
            n == distance(from, to),
            n <= 7,
            n_rows == abs(from.0 - to.0),
            n_cols == abs(from.1 - to.1),
            forall|k: int| 1 <= k < i ==> #[trigger] game@.board[step_toward(from.0 as int, to.0 as int, k)][step_toward(
                from.1 as int,
                to.1 as int,
                k,
            )] is None,
        decreases n - i,
    {
        let r: usize = if to.0 > from.0 {
            from.0 + i
        } else if to.0 < from.0 {
            from.0 - i
        } else {
            from.0
        };
        let c: usize = if to.1 > from.1 {
            from.1 + i
        } else if to.1 < from.1 {
            from.1 - i
        } else {
            from.1
        };
        assert(r == step_toward(from.0 as int, to.0 as int, i as int));
        assert(c == step_toward(from.1 as int, to.1 as int, i as int));
        if game.square_at(r, c).is_some() {
            assert(game@.board[step_toward(from.0 as int, to.0 as int, i as int)][step_toward(
                from.1 as int,
                to.1 as int,
                i as int,
            )] is Some);
            return false;
        }
        i = i + 1;
    }
    true
}

fn check_capture(to: (usize, usize), game: &Game) -> (r: Result<(), MoveError>)
    requires
        to.0 < 8,
        to.1 < 8,
    ensures
        r == capture_rule(game@.board, game.next_to_move, to),
{
    if let Some(piece) = game.square_at(to.0, to.1) {
        if piece.color == game.next_to_move {
            return Err(MoveError::CaptureOwnPiece);
        }
    }
    Ok(())
}

pub fn validate_bishop_move(from: (usize, usize), to: (usize, usize), game: &Game) -> (r: Result<
    (),
    MoveError,
>)
    requires
        from.0 < 8,
        from.1 < 8,
        to.0 < 8,
        to.1 < 8,
    ensures
        r == bishop_rule(game@.board, game.next_to_move, from, to),
{
    let row_diff: i32 = from.0 as i32 - to.0 as i32;
    let col_diff: i32 = from.1 as i32 - to.1 as i32;
    let abs_row: i32 = if row_diff < 0 { -row_diff } else { row_diff };
    let abs_col: i32 = if col_diff < 0 { -col_diff } else { col_diff };
    if abs_row != abs_col || row_diff == 0 {
        return Err(MoveError::GeneralError);
    }
    if !path_is_clear(from, to, game) {
        return Err(MoveError::PieceInTheWay);
    }
    check_capture(to, game)
}

pub fn validate_rook_move(from: (usize, usize), to: (usize, usize), game: &Game) -> (r: Result<
    (),
    MoveError,
>)
    requires
        from.0 < 8,
        from.1 < 8,
        to.0 < 8,
        to.1 < 8,
    ensures
        r == rook_rule(game@.board, game.next_to_move, from, to),
{
    if (from.0 == to.0) == (from.1 == to.1) {
        return Err(MoveError::GeneralError);
    }
    if !path_is_clear(from, to, game) {
        return Err(MoveError::PieceInTheWay);
    }
    check_capture(to, game)
}

pub fn validate_queen_move(from: (usize, usize), to: (usize, usize), game: &Game) -> (r: Result<
    (),
    MoveError,
>)
    requires
        from.0 < 8,
        from.1 < 8,
        to.0 < 8,
        to.1 < 8,
    ensures
        r == queen_rule(game@.board, game.next_to_move, from, to),
{
    let row_diff: i32 = from.0 as i32 - to.0 as i32;
    let col_diff: i32 = from.1 as i32 - to.1 as i32;
    let abs_row: i32 = if row_diff < 0 { -row_diff } else { row_diff };
    let abs_col: i32 = if col_diff < 0 { -col_diff } else { col_diff };
    if row_diff == 0 && col_diff == 0 {
        return Err(MoveError::GeneralError);
    }
    if row_diff != 0 && col_diff != 0 && abs_row != abs_col {
        return Err(MoveError::GeneralError);
    }
    if !path_is_clear(from, to, game) {
        return Err(MoveError::PieceInTheWay);
    }
    check_capture(to, game)
}

pub fn validate_knight_move(from: (usize, usize), to: (usize, usize), game: &Game) -> (r: Result<
    (),
    MoveError,
>)
    requires
        from.0 < 8,
        from.1 < 8,
        to.0 < 8,
        to.1 < 8,
    ensures
        r == knight_rule(game@.board, game.next_to_move, from, to),
{
    let row_diff: i32 = from.0 as i32 - to.0 as i32;
    let col_diff: i32 = from.1 as i32 - to.1 as i32;
    let abs_row: i32 = if row_diff < 0 { -row_diff } else { row_diff };
    let abs_col: i32 = if col_diff < 0 { -col_diff } else { col_diff };
    if !((abs_row == 1 && abs_col == 2) || (abs_row == 2 && abs_col == 1)) {
        return Err(MoveError::GeneralError);
    }
    check_capture(to, game)
}

fn is_attacked(enemy: Color, square: (usize, usize), game: &Game) -> (r: bool)
    requires
        square.0 < 8,
        square.1 < 8,
    ensures
        r == attacked(game@.board, enemy, square.0 as int, square.1 as int),
{
    can_be_captured_by(enemy, square, game).len() > 0
}

fn can_castle_long(game: &Game) -> (r: bool)
    ensures
        r == long_castle_allowed(game@.board, game.next_to_move, game.can_castle),
{
    let h: usize = match game.next_to_move {
        Color::WHITE => 7,
        Color::BLACK => 0,
    };
    let enemy = game.next_to_move.opponent();
    let right = match game.next_to_move {
        Color::WHITE => game.can_castle.white_can_long_castle,
        Color::BLACK => game.can_castle.black_can_long_castle,
    };
    right && game.square_at(h, 1).is_none() && game.square_at(h, 2).is_none() && game.square_at(
        h,
        3,
    ).is_none() && !is_attacked(enemy, (h, 2), game) && !is_attacked(enemy, (h, 3), game)
        && !is_attacked(enemy, (h, 4), game)
}

fn can_castle_short(game: &Game) -> (r: bool)
    ensures
        r == short_castle_allowed(game@.board, game.next_to_move, game.can_castle),
{
    let h: usize = match game.next_to_move {
        Color::WHITE => 7,
        Color::BLACK => 0,
    };
    let enemy = game.next_to_move.opponent();
    let right = match game.next_to_move {
        Color::WHITE => game.can_castle.white_can_short_castle,
        Color::BLACK => game.can_castle.black_can_short_castle,
    };
    right && game.square_at(h, 5).is_none() && game.square_at(h, 6).is_none() && !is_attacked(
        enemy,
        (h, 4),
        game,
    ) && !is_attacked(enemy, (h, 5), game) && !is_attacked(enemy, (h, 6), game)
}

pub fn validate_king_move(from: (usize, usize), to: (usize, usize), game: &Game) -> (r: Result<
    (),
    MoveError,
>)
    requires
        from.0 < 8,
        from.1 < 8,
        to.0 < 8,
        to.1 < 8,
    ensures
        r == king_rule(game@.board, game.next_to_move, game.can_castle, from, to),
{
    let row_diff: i32 = from.0 as i32 - to.0 as i32;
    let col_diff: i32 = from.1 as i32 - to.1 as i32;
    let abs_row: i32 = if row_diff < 0 { -row_diff } else { row_diff };
    let abs_col: i32 = if col_diff < 0 { -col_diff } else { col_diff };
    if (abs_row == 1 && abs_col == 0) || (abs_row == 0 && abs_col == 1) || (abs_row == 1 && abs_col
        == 1) {
        return check_capture(to, game);
    }
    if abs_row == 0 && abs_col == 2 {
        let h: usize = match game.next_to_move {
            Color::WHITE => 7,
            Color::BLACK => 0,
        };
        if from.0 == h && from.1 == 4 {
            if to.1 == 2 && can_castle_long(game) {
                return Ok(());
            }
            if to.1 == 6 && can_castle_short(game) {
                return Ok(());
            }
        }
        return Err(MoveError::InvalidCastle);
    }
    Err(MoveError::GeneralError)
}

fn check_promotion(to: (usize, usize), promotion_ch: char) -> (r: Result<(), MoveError>)
    ensures
        r == promotion_rule(to, promotion_ch),
{
    let promotion_piece = get_promotion_piece(promotion_ch);
    if (to.0 == 0 || to.0 == 7) && promotion_piece.is_none() {
        return Err(MoveError::PromotionRequired);
    }
    Ok(())
}

pub fn validate_pawn_move(
    from: (usize, usize),
    to: (usize, usize),
    promotion_ch: char,
    game: &Game,
) -> (r: Result<(), MoveError>)
    requires
        from.0 < 8,
        from.1 < 8,
        to.0 < 8,
        to.1 < 8,
    ensures
        r == pawn_rule(
            game@.board,
            game.next_to_move,
            game.can_en_passant,
            game.previous_move@,
            from,
            to,
            promotion_ch,
        ),
{
    let row_diff: i32 = to.0 as i32 - from.0 as i32;
    let col_diff: i32 = to.1 as i32 - from.1 as i32;
    let white = game.next_to_move == Color::WHITE;
    let f: i32 = if white { -1 } else { 1 };
    if row_diff == f && col_diff == 0 {
        if game.square_at(to.0, to.1).is_some() {
            return Err(MoveError::PieceInTheWay);
        }
    } else if row_diff == 2 * f && col_diff == 0 {
        let (start, target): (usize, usize) = if white { (6, 4) } else { (1, 3) };
        if from.0 != start || to.0 != target {
            return Err(MoveError::GeneralError);
        }
        let passed: usize = if white { from.0 - 1 } else { from.0 + 1 };
        if game.square_at(to.0, to.1).is_some() || game.square_at(passed, to.1).is_some() {
            return Err(MoveError::PieceInTheWay);
        }
    } else if row_diff == f && (col_diff == 1 || col_diff == -1) {
        if let Some(piece) = game.square_at(to.0, to.1) {
            if piece.color == game.next_to_move {
                return Err(MoveError::CaptureOwnPiece);
            }
        }
        if game.square_at(to.0, to.1).is_none() {
            if !game.can_en_passant {
                return Err(MoveError::GeneralError);
            }
            let passed_pawn = match get_notation_from_square((from.0, to.1)) {
                Ok(s) => s,
                Err(e) => return Err(e),
            };
            if game.previous_move != passed_pawn {
                return Err(MoveError::GeneralError);
            }
        }
    } else {
        return Err(MoveError::GeneralError);
    }
    check_promotion(to, promotion_ch)
}

} // verus!
