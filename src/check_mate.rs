use vstd::prelude::*;

use crate::chess_piece::{ChessPiece, Color, Piece, other};
use crate::convert_notation::{get_squares_from_notation, squares_of};
use crate::game::{Game, GameModel, effects, king_of, move_ready, with_square};
use crate::utils::{in_bounds, is_in_bounds};
use crate::validation::attacked;

verus! {

/// A piece that could capture on a given square with its next move.
#[derive(Debug, Clone, Copy, PartialEq, Eq, Structural)]
pub struct CapturePiece {
    pub row: usize,
    pub col: usize,
    pub piece: Piece,
}

/// The eight knight jumps, in the order in which they are tried.
pub open spec fn knight_delta(k: int) -> (int, int) {
    if k == 0 {
        (2, 1)
    } else if k == 1 {
        (2, -1)
    } else if k == 2 {
        (1, 2)
    } else if k == 3 {
        (1, -2)
    } else if k == 4 {
        (-2, 1)
    } else if k == 5 {
        (-2, -1)
    } else if k == 6 {
        (-1, 2)
    } else {
        (-1, -2)
    }
}

/// The knight of `enemy` that the `k`-th jump from (r, c) finds, if any.
pub open spec fn knight_hit(
    b: Seq<Seq<Option<ChessPiece>>>,
    enemy: Color,
    r: int,
    c: int,
    k: int,
) -> Seq<CapturePiece> {
    let rr = r + knight_delta(k).0;
    let cc = c + knight_delta(k).1;
    if in_bounds(rr, cc) && b[rr][cc] == Some(ChessPiece { piece: Piece::KNIGHT, color: enemy }) {
        seq![CapturePiece { row: rr as usize, col: cc as usize, piece: Piece::KNIGHT }]
    } else {
        Seq::empty()
    }
}

/// The knights of `enemy` found by the first `k` jumps from (r, c).
pub open spec fn knight_attackers(
    b: Seq<Seq<Option<ChessPiece>>>,
    enemy: Color,
    r: int,
    c: int,
    k: int,
) -> Seq<CapturePiece>
    decreases k,
{
    if k <= 0 {
        Seq::empty()
    } else {
        knight_attackers(b, enemy, r, c, k - 1) + knight_hit(b, enemy, r, c, k - 1)
    }
}

/// The four diagonal directions, or the four straight ones, in the order in which
/// they are scanned.
pub open spec fn ray_dir(diagonal: bool, k: int) -> (int, int) {
    if diagonal {
        if k == 0 {
            (1, 1)
        } else if k == 1 {
            (1, -1)
        } else if k == 2 {
            (-1, 1)
        } else {
            (-1, -1)
        }
    } else {
        if k == 0 {
            (1, 0)
        } else if k == 1 {
            (-1, 0)
        } else if k == 2 {
            (0, 1)
        } else {
            (0, -1)
        }
    }
}

/// Whether an enemy piece, first met at distance `dist` on a ray whose row step
/// is `dr`, could capture along that ray back to its start.
pub open spec fn attacks_along(p: Piece, dist: int, dr: int, enemy: Color, diagonal: bool) -> bool {
    match p {
        Piece::QUEEN => true,
        Piece::BISHOP => diagonal,
        Piece::ROOK => !diagonal,
        Piece::PAWN => diagonal && dist == 1 && ((dr == -1 && enemy == Color::BLACK) || (dr == 1
            && enemy == Color::WHITE)),
        Piece::KING => dist == 1,
        Piece::KNIGHT => false,
    }
}

/// Walking from (row, col) in steps (dr, dc), at distance `dist` from the target:
/// the attacker that the first occupied square holds, if it is one.
pub open spec fn ray_attacker(
    b: Seq<Seq<Option<ChessPiece>>>,
    enemy: Color,
    row: int,
    col: int,
    dr: int,
    dc: int,
    dist: int,
    diagonal: bool,
) -> Option<CapturePiece>
    decreases 8 - dist,
{
    if dist >= 8 || !in_bounds(row, col) {
        None
    } else {
        match b[row][col] {
            None => ray_attacker(b, enemy, row + dr, col + dc, dr, dc, dist + 1, diagonal),
            Some(p) => {
                if p.color != enemy || !attacks_along(p.piece, dist, dr, enemy, diagonal) {
                    None
                } else {
                    Some(CapturePiece { row: row as usize, col: col as usize, piece: p.piece })
                }
            },
        }
    }
}

pub open spec fn opt_seq(o: Option<CapturePiece>) -> Seq<CapturePiece> {
    match o {
        Some(x) => seq![x],
        None => Seq::empty(),
    }
}

/// The attackers found on the first `k` rays out of (r, c).
pub open spec fn ray_attackers(
    b: Seq<Seq<Option<ChessPiece>>>,
    enemy: Color,
    r: int,
    c: int,
    diagonal: bool,
    k: int,
) -> Seq<CapturePiece>
    decreases k,
{
    if k <= 0 {
        Seq::empty()
    } else {
        let d = ray_dir(diagonal, k - 1);
        ray_attackers(b, enemy, r, c, diagonal, k - 1) + opt_seq(
            ray_attacker(b, enemy, r + d.0, c + d.1, d.0, d.1, 1, diagonal),
        )
    }
}

/// Every piece of `enemy` that could capture on (r, c) with its next move:
/// knights first, then the diagonal rays, then the straight ones.
pub open spec fn attackers(
    b: Seq<Seq<Option<ChessPiece>>>,
    enemy: Color,
    r: int,
    c: int,
) -> Seq<CapturePiece> {
    knight_attackers(b, enemy, r, c, 8) + ray_attackers(b, enemy, r, c, true, 4) + ray_attackers(
        b,
        enemy,
        r,
        c,
        false,
        4,
    )
}

fn knight_jump(k: usize) -> (r: (i32, i32))
    requires
        k < 8,
    ensures
        r.0 as int == knight_delta(k as int).0,
        r.1 as int == knight_delta(k as int).1,
{
    if k == 0 {
        (2, 1)
    } else if k == 1 {
        (2, -1)
    } else if k == 2 {
        (1, 2)
    } else if k == 3 {
        (1, -2)
    } else if k == 4 {
        (-2, 1)
    } else if k == 5 {
        (-2, -1)
    } else if k == 6 {
        (-1, 2)
    } else {
        (-1, -2)
    }
}

fn direction(diagonal: bool, k: usize) -> (r: (i32, i32))
    requires
        k < 4,
    ensures
        r.0 as int == ray_dir(diagonal, k as int).0,
        r.1 as int == ray_dir(diagonal, k as int).1,
{
    if diagonal {
        if k == 0 {
            (1, 1)
        } else if k == 1 {
            (1, -1)
        } else if k == 2 {
            (-1, 1)
        } else {
            (-1, -1)
        }
    } else {
        if k == 0 {
            (1, 0)
        } else if k == 1 {
            (-1, 0)
        } else if k == 2 {
            (0, 1)
        } else {
            (0, -1)
        }
    }
}

fn attacks_along_exec(p: Piece, dist: i32, dr: i32, enemy: Color, diagonal: bool) -> (r: bool)
    ensures
        r == attacks_along(p, dist as int, dr as int, enemy, diagonal),
{
    match p {
        Piece::QUEEN => true,
        Piece::BISHOP => diagonal,
        Piece::ROOK => !diagonal,
        Piece::PAWN => diagonal && dist == 1 && ((dr == -1 && enemy == Color::BLACK) || (dr == 1
            && enemy == Color::WHITE)),
        Piece::KING => dist == 1,
        Piece::KNIGHT => false,
    }
}

/// Scans one ray out of (row, col) and returns the attacker found on it.
fn first_on_ray(
    enemy: Color,
    row: i32,
    col: i32,
    dr: i32,
    dc: i32,
    diagonal: bool,
    game: &Game,
) -> (r: Option<CapturePiece>)
    requires
        in_bounds(row as int, col as int),
        -1 <= dr <= 1,
        -1 <= dc <= 1,
    ensures
        r == ray_attacker(
            game@.board,
            enemy,
            row + dr,
            col + dc,
            dr as int,
            dc as int,
            1,
            diagonal,
        ),
{
    let mut i: i32 = 1;
    let mut cr: i32 = row + dr;
    let mut cc: i32 = col + dc;
    while i < 8
        invariant
            1 <= i <= 8,
            -1 <= cr <= 8,
            -1 <= cc <= 8,
            -1 <= dr <= 1,
            -1 <= dc <= 1,
            ray_attacker(game@.board, enemy, row + dr, col + dc, dr as int, dc as int, 1, diagonal)
                == ray_attacker(
                game@.board,
                enemy,
                cr as int,
                cc as int,
                dr as int,
                dc as int,
                i as int,
                diagonal,
            ),
        decreases 8 - i,
    {
        if !is_in_bounds(cr, cc) {
            return None;
        }
        match game.square_at(cr as usize, cc as usize) {
            None => {},
            Some(p) => {
                if p.color != enemy || !attacks_along_exec(p.piece, i, dr, enemy, diagonal) {
                    return None;
                }
                return Some(CapturePiece { row: cr as usize, col: cc as usize, piece: p.piece });
            },
        }
        cr = cr + dr;
        cc = cc + dc;
        i = i + 1;
    }
    None
}

fn capturable_by_knight(
    enemy_color: Color,
    square: (usize, usize),
    game: &Game,
    capturable_by: &mut Vec<CapturePiece>,
)
    requires
        square.0 < 8,
        square.1 < 8,
    ensures
        final(capturable_by)@ == old(capturable_by)@ + knight_attackers(
            game@.board,
            enemy_color,
            square.0 as int,
            square.1 as int,
            8,
        ),
{
    let row = square.0 as i32;
    let col = square.1 as i32;
    let mut k: usize = 0;
    while k < 8
        invariant
            k <= 8,
            row == square.0,
            col == square.1,
            row < 8,
            col < 8,
            capturable_by@ == old(capturable_by)@ + knight_attackers(
                game@.board,
                enemy_color,
                row as int,
                col as int,
                k as int,
            ),
        decreases 8 - k,
    {
        let (dr, dc) = knight_jump(k);
        let r: i32 = row + dr;
        let c: i32 = col + dc;
        if is_in_bounds(r, c) {
            match game.square_at(r as usize, c as usize) {
                Some(p) => {
                    if p.piece == Piece::KNIGHT && p.color == enemy_color {
                        capturable_by.push(
                            CapturePiece { row: r as usize, col: c as usize, piece: Piece::KNIGHT },
                        );
                    }
                },
                None => {},
            }
        }
        k = k + 1;
    }
}

fn capturable_by_ray(
    enemy_color: Color,
    square: (usize, usize),
    game: &Game,
    diagonal: bool,
    capturable_by: &mut Vec<CapturePiece>,
)
    requires
        square.0 < 8,
        square.1 < 8,
    ensures
        final(capturable_by)@ == old(capturable_by)@ + ray_attackers(
            game@.board,
            enemy_color,
            square.0 as int,
            square.1 as int,
            diagonal,
            4,
        ),
{
    let row = square.0 as i32;
    let col = square.1 as i32;
    let mut k: usize = 0;
    while k < 4
        invariant
            k <= 4,
            row == square.0,
            col == square.1,
            row < 8,
            col < 8,
            capturable_by@ == old(capturable_by)@ + ray_attackers(
                game@.board,
                enemy_color,
                row as int,
                col as int,
                diagonal,
                k as int,
            ),
        decreases 4 - k,
    {
        let (dr, dc) = direction(diagonal, k);
        let found = first_on_ray(enemy_color, row, col, dr, dc, diagonal, game);
        match found {
            Some(p) => capturable_by.push(p),
            None => {},
        }
        assert(capturable_by@ =~= old(capturable_by)@ + ray_attackers(
            game@.board,
            enemy_color,
            row as int,
            col as int,
            diagonal,
            k + 1,
        ));
        k = k + 1;
    }
}

/// Diagonal rays: queens, bishops, and pawns and kings next to the square.
fn capturable_by_diagonal_move(
    enemy_color: Color,
    square: (usize, usize),
    game: &Game,
    capturable_by: &mut Vec<CapturePiece>,
)
    requires
        square.0 < 8,
        square.1 < 8,
    ensures
        final(capturable_by)@ == old(capturable_by)@ + ray_attackers(
            game@.board,
            enemy_color,
            square.0 as int,
            square.1 as int,
            true,
            4,
        ),
{
    capturable_by_ray(enemy_color, square, game, true, capturable_by);
}

/// Straight rays: queens, rooks, and kings next to the square.
fn capturable_by_linear_move(
    enemy_color: Color,
    square: (usize, usize),
    game: &Game,
    capturable_by: &mut Vec<CapturePiece>,
)
    requires
        square.0 < 8,
        square.1 < 8,
    ensures
        final(capturable_by)@ == old(capturable_by)@ + ray_attackers(
            game@.board,
            enemy_color,
            square.0 as int,
            square.1 as int,
            false,
            4,
        ),
{
    capturable_by_ray(enemy_color, square, game, false, capturable_by);
}

/// Every piece of `enemy_color` that could capture on `square` with its next move.
pub fn can_be_captured_by(enemy_color: Color, square: (usize, usize), game: &Game) -> (r: Vec<
    CapturePiece,
>)
    requires
        square.0 < 8,
        square.1 < 8,
    ensures
        r@ == attackers(game@.board, enemy_color, square.0 as int, square.1 as int),
{
    let mut capturable_by: Vec<CapturePiece> = Vec::new();
    capturable_by_knight(enemy_color, square, game, &mut capturable_by);
    capturable_by_diagonal_move(enemy_color, square, game, &mut capturable_by);
    capturable_by_linear_move(enemy_color, square, game, &mut capturable_by);
    assert(capturable_by@ =~= attackers(game@.board, enemy_color, square.0 as int, square.1 as int));
    capturable_by
}

/// Every listed attacker stands on an occupied square of the board.
pub open spec fn on_board_pieces(s: Seq<CapturePiece>, b: Seq<Seq<Option<ChessPiece>>>) -> bool {
    forall|i: int|
        0 <= i < s.len() ==> #[trigger] s[i].row < 8 && s[i].col < 8 && b[s[i].row as int][s[i].col as int] is Some
}

proof fn lemma_ray_attacker_on_board(
    b: Seq<Seq<Option<ChessPiece>>>,
    enemy: Color,
    row: int,
    col: int,
    dr: int,
    dc: int,
    dist: int,
    diagonal: bool,
)
    ensures
        on_board_pieces(opt_seq(ray_attacker(b, enemy, row, col, dr, dc, dist, diagonal)), b),
    decreases 8 - dist,
{
    if dist < 8 && in_bounds(row, col) && b[row][col] is None {
        lemma_ray_attacker_on_board(b, enemy, row + dr, col + dc, dr, dc, dist + 1, diagonal);
    }
}

proof fn lemma_concat_on_board(s: Seq<CapturePiece>, t: Seq<CapturePiece>, b: Seq<Seq<Option<ChessPiece>>>)
    requires
        on_board_pieces(s, b),
        on_board_pieces(t, b),
    ensures
        on_board_pieces(s + t, b),
{
    assert forall|i: int| 0 <= i < (s + t).len() implies #[trigger] (s + t)[i].row < 8 && (s
        + t)[i].col < 8 && b[(s + t)[i].row as int][(s + t)[i].col as int] is Some by {
        if i < s.len() {
            assert((s + t)[i] == s[i]);
        } else {
            assert((s + t)[i] == t[i - s.len()]);
        }
    }
}

proof fn lemma_knight_attackers_on_board(
    b: Seq<Seq<Option<ChessPiece>>>,
    enemy: Color,
    r: int,
    c: int,
    k: int,
)
    ensures
        on_board_pieces(knight_attackers(b, enemy, r, c, k), b),
    decreases k,
{
    if k > 0 {
        lemma_knight_attackers_on_board(b, enemy, r, c, k - 1);
        lemma_concat_on_board(knight_attackers(b, enemy, r, c, k - 1), knight_hit(b, enemy, r, c, k - 1), b);
    }
}

proof fn lemma_ray_attackers_on_board(
    b: Seq<Seq<Option<ChessPiece>>>,
    enemy: Color,
    r: int,
    c: int,
    diagonal: bool,
    k: int,
)
    ensures
        on_board_pieces(ray_attackers(b, enemy, r, c, diagonal, k), b),
    decreases k,
{
    if k > 0 {
        let d = ray_dir(diagonal, k - 1);
        lemma_ray_attackers_on_board(b, enemy, r, c, diagonal, k - 1);
        lemma_ray_attacker_on_board(b, enemy, r + d.0, c + d.1, d.0, d.1, 1, diagonal);
        lemma_concat_on_board(
            ray_attackers(b, enemy, r, c, diagonal, k - 1),
            opt_seq(ray_attacker(b, enemy, r + d.0, c + d.1, d.0, d.1, 1, diagonal)),
            b,
        );
    }
}

/// An attacker always stands on an occupied square of the board.
pub proof fn lemma_attackers_on_board(b: Seq<Seq<Option<ChessPiece>>>, enemy: Color, r: int, c: int)
    ensures
        on_board_pieces(attackers(b, enemy, r, c), b),
{
    lemma_knight_attackers_on_board(b, enemy, r, c, 8);
    lemma_ray_attackers_on_board(b, enemy, r, c, true, 4);
    lemma_ray_attackers_on_board(b, enemy, r, c, false, 4);
    lemma_concat_on_board(knight_attackers(b, enemy, r, c, 8), ray_attackers(b, enemy, r, c, true, 4), b);
    lemma_concat_on_board(
        knight_attackers(b, enemy, r, c, 8) + ray_attackers(b, enemy, r, c, true, 4),
        ray_attackers(b, enemy, r, c, false, 4),
        b,
    );
}

/// The pieces that could capture the mover's king once the move is carried out.
pub open spec fn attackers_after(
    m: GameModel,
    from: (usize, usize),
    to: (usize, usize),
    promotion_ch: char,
) -> Seq<CapturePiece> {
    let e = effects(m, from, to, promotion_ch);
    let k = king_of(e.kings, m.next);
    attackers(e.board, other(m.next), k.0 as int, k.1 as int)
}

/// The eight squares around a king, in the order in which they are tried.
pub open spec fn neighbour(k: int) -> (int, int) {
    if k == 0 {
        (1, -1)
    } else if k == 1 {
        (1, 0)
    } else if k == 2 {
        (1, 1)
    } else if k == 3 {
        (0, -1)
    } else if k == 4 {
        (0, 1)
    } else if k == 5 {
        (-1, -1)
    } else if k == 6 {
        (-1, 0)
    } else {
        (-1, 1)
    }
}

/// The board after the king of the side to move steps to (r, c).
pub open spec fn king_stepped_board(m: GameModel, r: int, c: int) -> Seq<Seq<Option<ChessPiece>>> {
    let kp = king_of(m.kings, m.next);
    with_square(
        with_square(m.board, r, c, m.board[kp.0 as int][kp.1 as int]),
        kp.0 as int,
        kp.1 as int,
        None,
    )
}

/// The `k`-th square around the king of the side to move is on the board and
/// empty, and once the king has stepped there it is not attacked.
pub open spec fn escape_square(m: GameModel, k: int) -> bool {
    let kp = king_of(m.kings, m.next);
    let r = kp.0 + neighbour(k).0;
    let c = kp.1 + neighbour(k).1;
    in_bounds(r, c) && m.board[r][c] is None && !attacked(king_stepped_board(m, r, c), other(m.next), r, c)
}

/// The pieces that give check to the side to move.
pub open spec fn checking_pieces(m: GameModel) -> Seq<CapturePiece> {
    let kp = king_of(m.kings, m.next);
    attackers(m.board, other(m.next), kp.0 as int, kp.1 as int)
}

/// Some piece of the side to move takes the first checking piece, and after that
/// capture (a pawn promoting to a queen) its king is not attacked.
pub open spec fn rescued(m: GameModel) -> bool {
    let t = checking_pieces(m)[0];
    let savers = attackers(m.board, m.next, t.row as int, t.col as int);
    exists|i: int|
        0 <= i < savers.len() && (#[trigger] attackers_after(
            m,
            (savers[i].row, savers[i].col),
            (t.row, t.col),
            'Q',
        )).len() == 0
}

/// The side to move is mated: its king is attacked, has no free and safe square
/// next to it, and either two pieces give check or the one checking piece cannot
/// be taken safely. Putting a piece between the king and a checking piece is not
/// considered.
pub open spec fn mate(m: GameModel) -> bool {
    &&& checking_pieces(m).len() > 0
    &&& !exists|k: int| 0 <= k < 8 && #[trigger] escape_square(m, k)
    &&& checking_pieces(m).len() > 1 || !rescued(m)
}

fn neighbour_step(k: usize) -> (r: (i32, i32))
    requires
        k < 8,
    ensures
        r.0 as int == neighbour(k as int).0,
        r.1 as int == neighbour(k as int).1,
{
    if k == 0 {
        (1, -1)
    } else if k == 1 {
        (1, 0)
    } else if k == 2 {
        (1, 1)
    } else if k == 3 {
        (0, -1)
    } else if k == 4 {
        (0, 1)
    } else if k == 5 {
        (-1, -1)
    } else if k == 6 {
        (-1, 0)
    } else {
        (-1, 1)
    }
}

/// Carries out the move on a copy of the game and lists what could then capture
/// the mover's king.
pub fn king_attackers_after(
    game: &Game,
    from: (usize, usize),
    to: (usize, usize),
    promotion_ch: char,
) -> (r: Vec<CapturePiece>)
    requires
        game.wf(),
        move_ready(game@, from, to, promotion_ch),
    ensures
        r@ == attackers_after(game@, from, to, promotion_ch),
{
    let mut copy = game.duplicate();
    copy.apply_move(from, to, promotion_ch);
    let king = copy.king_square(game.next_to_move);
    can_be_captured_by(game.next_to_move.opponent(), king, &copy)
}

/// What could capture the mover's king after the move between two named squares.
pub fn can_king_be_captured_after_move(
    game: &Game,
    algebraic_from: &str,
    algebraic_to: &str,
    promotion_ch: char,
) -> (r: Vec<CapturePiece>)
    requires
        game.wf(),
        squares_of(algebraic_from@, algebraic_to@) is Ok,
        move_ready(
            game@,
            squares_of(algebraic_from@, algebraic_to@)->Ok_0.0,
            squares_of(algebraic_from@, algebraic_to@)->Ok_0.1,
            promotion_ch,
        ),
    ensures
        r@ == attackers_after(
            game@,
            squares_of(algebraic_from@, algebraic_to@)->Ok_0.0,
            squares_of(algebraic_from@, algebraic_to@)->Ok_0.1,
            promotion_ch,
        ),
{
    let (from, to) = get_squares_from_notation(algebraic_from, algebraic_to).unwrap();
    king_attackers_after(game, from, to, promotion_ch)
}

/// Whether the side to move is mated, by the rule of `mate`.
pub fn is_mate(game: &Game) -> (r: bool)
    requires
        game.wf(),
    ensures
        r == mate(game@),
{
    let enemy_color = game.next_to_move.opponent();
    let king_position = game.king_square(game.next_to_move);

    let threatening_pieces = can_be_captured_by(enemy_color, king_position, game);
    if threatening_pieces.len() == 0 {
        return false;
    }

    let king_row = king_position.0 as i32;
    let king_col = king_position.1 as i32;
    let mut k: usize = 0;
    while k < 8
        invariant
            k <= 8,
            game.wf(),
            enemy_color == other(game.next_to_move),
            king_position == king_of(game.king_position, game.next_to_move),
            king_row == king_position.0,
            king_col == king_position.1,
            king_row < 8,
            king_col < 8,
            forall|j: int| 0 <= j < k ==> !#[trigger] escape_square(game@, j),
        decreases 8 - k,
    {
        let (dr, dc) = neighbour_step(k);
        let r: i32 = king_row + dr;
        let c: i32 = king_col + dc;
        if is_in_bounds(r, c) && game.square_at(r as usize, c as usize).is_none() {
            // the king steps there, so that it no longer shields the square
            let mut stepped = game.duplicate();
            let king = game.square_at(king_position.0, king_position.1);
            stepped.set_square(r as usize, c as usize, king);
            stepped.set_square(king_position.0, king_position.1, None);
            assert(stepped@.board == king_stepped_board(game@, r as int, c as int));
            if can_be_captured_by(enemy_color, (r as usize, c as usize), &stepped).len() == 0 {
                assert(escape_square(game@, k as int));
                return false;
            }
        }
        k = k + 1;
    }

    // two checking pieces cannot both be taken with one move
    if threatening_pieces.len() > 1 {
        return true;
    }

    let threat = threatening_pieces[0];
    proof {
        lemma_attackers_on_board(game@.board, enemy_color, king_position.0 as int, king_position.1 as int);
        assert(threatening_pieces@[0] == threat);
    }
    let saving_pieces = can_be_captured_by(game.next_to_move, (threat.row, threat.col), game);
    proof {
        lemma_attackers_on_board(game@.board, game.next_to_move, threat.row as int, threat.col as int);
    }
    let mut i: usize = 0;
    while i < saving_pieces.len()
        invariant
            i <= saving_pieces.len(),
            game.wf(),
            checking_pieces(game@).len() == 1,
            threat == checking_pieces(game@)[0],
            threat.row < 8,
            threat.col < 8,
            saving_pieces@ == attackers(game@.board, game.next_to_move, threat.row as int, threat.col as int),
            on_board_pieces(saving_pieces@, game@.board),
            forall|j: int|
                0 <= j < i ==> (#[trigger] attackers_after(
                    game@,
                    (saving_pieces@[j].row, saving_pieces@[j].col),
                    (threat.row, threat.col),
                    'Q',
                )).len() != 0,
        decreases saving_pieces.len() - i,
    {
        let piece = saving_pieces[i];
        assert(saving_pieces@[i as int] == piece);
        let after = king_attackers_after(game, (piece.row, piece.col), (threat.row, threat.col), 'Q');
        if after.len() == 0 {
            assert((attackers_after(
                game@,
                (saving_pieces@[i as int].row, saving_pieces@[i as int].col),
                (threat.row, threat.col),
                'Q',
            )).len() == 0);
            assert(rescued(game@));
            return false;
        }
        i = i + 1;
    }
    true
}

} // verus!
