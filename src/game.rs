use vstd::prelude::*;

use crate::chess_piece::{ChessPiece, Color, Piece, other};
use crate::convert_notation::{get_promotion_piece, promotion_of, push_square_name, square_name};
use crate::check_mate::{attackers_after, can_be_captured_by, is_mate, king_attackers_after, mate};
use crate::convert_notation::{get_squares_from_notation, squares_of};
use crate::error::MoveError;
use crate::validation::{
    abs,
    attacked,
    captures_own,
    home_row,
    bishop_rule,
    king_rule,
    knight_rule,
    pawn_rule,
    queen_rule,
    rook_rule,
    validate_bishop_move,
    validate_king_move,
    validate_knight_move,
    validate_pawn_move,
    validate_queen_move,
    validate_rook_move,
};

verus! {

/// uuid::Uuid, the identifier of a game: carried along, never read by the rules.
#[verifier::external_type_specification]
#[verifier::external_body]
pub struct ExUuid(uuid::Uuid);

/// The board as rows of squares; row 0 is Black's back rank, row 7 White's.
pub type Board = [[Option<ChessPiece>; 8]; 8];

/// The board as a sequence of rows, each a sequence of squares.
pub open spec fn board_view(f: Board) -> Seq<Seq<Option<ChessPiece>>> {
    Seq::new(8, |i: int| f[i]@)
}

/// The board with one square replaced.
pub open spec fn with_square(
    b: Seq<Seq<Option<ChessPiece>>>,
    r: int,
    c: int,
    x: Option<ChessPiece>,
) -> Seq<Seq<Option<ChessPiece>>> {
    b.update(r, b[r].update(c, x))
}

/// Eight rows of eight squares.
pub open spec fn board_shape(b: Seq<Seq<Option<ChessPiece>>>) -> bool {
    b.len() == 8 && forall|r: int| 0 <= r < 8 ==> #[trigger] b[r].len() == 8
}

/// Every game's board model has eight rows of eight squares.
pub proof fn lemma_game_board_shape(g: &Game)
    ensures
        board_shape(g@.board),
{
}

#[derive(Debug)]
pub struct Game {
    pub id: uuid::Uuid,
    pub admin_color: Color,
    pub game_result: Option<GameResult>,
    pub turn_number: u32,
    pub next_to_move: Color,
    pub previous_move: String,
    pub previous_move_was_enpassant: bool,
    pub can_castle: CastlingRights,
    pub can_en_passant: bool,
    pub king_position: KingPosition,
    pub field: Board,
}

/// Which castling moves each side may still make. A right is never given back.
#[derive(Clone, Copy, Debug, PartialEq, Eq, Structural)]
pub struct CastlingRights {
    pub white_can_short_castle: bool,
    pub white_can_long_castle: bool,
    pub black_can_short_castle: bool,
    pub black_can_long_castle: bool,
}

/// Where each king stands, as (row, column).
#[derive(Clone, Copy, Debug)]
pub struct KingPosition {
    pub white_king_position: (usize, usize),
    pub black_king_position: (usize, usize),
}

#[derive(Clone, Copy, Debug, PartialEq, Eq, Structural)]
pub enum GameResult {
    WhiteWon,
    BlackWon,
}

/// The score that a result is written as.
pub open spec fn result_name(r: GameResult) -> Seq<char> {
    match r {
        GameResult::WhiteWon => "1-0"@,
        GameResult::BlackWon => "0-1"@,
    }
}

impl GameResult {
    pub fn to_str(&self) -> (r: String)
        ensures
            r@ == result_name(*self),
    {
        match self {
            GameResult::WhiteWon => String::from_str("1-0"),
            GameResult::BlackWon => String::from_str("0-1"),
        }
    }
}

/// What a game is, as far as the rules are concerned.
pub struct GameModel {
    pub board: Seq<Seq<Option<ChessPiece>>>,
    pub next: Color,
    pub turn: nat,
    pub notation: Seq<char>,
    pub was_en_passant: bool,
    pub castle: CastlingRights,
    pub en_passant: bool,
    pub kings: KingPosition,
    pub result: Option<GameResult>,
}

impl View for Game {
    type V = GameModel;

    open spec fn view(&self) -> GameModel {
        GameModel {
            board: board_view(self.field),
            next: self.next_to_move,
            turn: self.turn_number as nat,
            notation: self.previous_move@,
            was_en_passant: self.previous_move_was_enpassant,
            castle: self.can_castle,
            en_passant: self.can_en_passant,
            kings: self.king_position,
            result: self.game_result,
        }
    }
}

/// The cached square of a color's king.
pub open spec fn king_of(k: KingPosition, c: Color) -> (usize, usize) {
    match c {
        Color::WHITE => k.white_king_position,
        Color::BLACK => k.black_king_position,
    }
}

/// Both cached king squares lie on the board.
pub open spec fn kings_on_board(k: KingPosition) -> bool {
    k.white_king_position.0 < 8 && k.white_king_position.1 < 8 && k.black_king_position.0 < 8
        && k.black_king_position.1 < 8
}

/// The piece that starts a game on a square of the back rank.
pub open spec fn back_rank_piece(col: int) -> Piece {
    if col == 0 || col == 7 {
        Piece::ROOK
    } else if col == 1 || col == 6 {
        Piece::KNIGHT
    } else if col == 2 || col == 5 {
        Piece::BISHOP
    } else if col == 3 {
        Piece::QUEEN
    } else {
        Piece::KING
    }
}

/// What stands on each square when a game starts.
pub open spec fn start_square(row: int, col: int) -> Option<ChessPiece> {
    if row == 0 {
        Some(ChessPiece { piece: back_rank_piece(col), color: Color::BLACK })
    } else if row == 1 {
        Some(ChessPiece { piece: Piece::PAWN, color: Color::BLACK })
    } else if row == 6 {
        Some(ChessPiece { piece: Piece::PAWN, color: Color::WHITE })
    } else if row == 7 {
        Some(ChessPiece { piece: back_rank_piece(col), color: Color::WHITE })
    } else {
        None
    }
}

/// The position in which every game starts, White to move.
pub open spec fn start_model() -> GameModel {
    GameModel {
        board: Seq::new(8, |r: int| Seq::new(8, |c: int| start_square(r, c))),
        next: Color::WHITE,
        turn: 0,
        notation: Seq::empty(),
        was_en_passant: false,
        castle: CastlingRights {
            white_can_short_castle: true,
            white_can_long_castle: true,
            black_can_short_castle: true,
            black_can_long_castle: true,
        },
        en_passant: false,
        kings: KingPosition { white_king_position: (7, 4), black_king_position: (0, 4) },
        result: None,
    }
}


/// The piece on the start square of a move.
pub open spec fn moving_piece(m: GameModel, from: (usize, usize)) -> ChessPiece {
    m.board[from.0 as int][from.1 as int]->Some_0
}

/// A pawn moves diagonally onto an empty square: it takes the pawn beside it.
pub open spec fn en_passant_capture(m: GameModel, from: (usize, usize), to: (usize, usize)) -> bool {
    m.board[to.0 as int][to.1 as int] is None && moving_piece(m, from).piece == Piece::PAWN
        && from.1 != to.1
}

/// The move takes a piece.
pub open spec fn captures(m: GameModel, from: (usize, usize), to: (usize, usize)) -> bool {
    m.board[to.0 as int][to.1 as int] is Some || en_passant_capture(m, from, to)
}

/// The letter that the notation of a piece's move starts with.
pub open spec fn piece_letter(p: Piece) -> Seq<char> {
    match p {
        Piece::KING => seq!['K'],
        Piece::QUEEN => seq!['Q'],
        Piece::ROOK => seq!['R'],
        Piece::BISHOP => seq!['B'],
        Piece::KNIGHT => seq!['N'],
        Piece::PAWN => Seq::empty(),
    }
}

/// The move is carried out on the board, and its plain notation is written:
/// the piece letter, 'x' for a capture, the destination square.
pub open spec fn relocated(m: GameModel, from: (usize, usize), to: (usize, usize)) -> GameModel {
    let p = moving_piece(m, from);
    let ep = en_passant_capture(m, from, to);
    let b1 = if ep {
        with_square(m.board, from.0 as int, to.1 as int, None)
    } else {
        m.board
    };
    let b2 = with_square(
        with_square(b1, to.0 as int, to.1 as int, Some(p)),
        from.0 as int,
        from.1 as int,
        None,
    );
    GameModel {
        board: b2,
        notation: piece_letter(p.piece) + (if captures(m, from, to) {
            seq!['x']
        } else {
            Seq::empty()
        }) + square_name(to.0 as int, to.1 as int),
        was_en_passant: ep,
        en_passant: false,
        ..m
    }
}

/// A king move between these squares is a castling move toward the king's side.
pub open spec fn short_castle_geometry(from: (usize, usize), to: (usize, usize)) -> bool {
    from.1 == 4 && to.1 == 6 && from.0 == to.0 && (from.0 == 0 || from.0 == 7)
}

/// A king move between these squares is a castling move toward the queen's side.
pub open spec fn long_castle_geometry(from: (usize, usize), to: (usize, usize)) -> bool {
    from.1 == 4 && to.1 == 2 && from.0 == to.0 && (from.0 == 0 || from.0 == 7)
}

/// Both castling rights of one color are gone.
pub open spec fn without_castling(c: CastlingRights, color: Color) -> CastlingRights {
    match color {
        Color::WHITE => CastlingRights {
            white_can_short_castle: false,
            white_can_long_castle: false,
            ..c
        },
        Color::BLACK => CastlingRights {
            black_can_short_castle: false,
            black_can_long_castle: false,
            ..c
        },
    }
}

/// One king's cached square is replaced.
pub open spec fn with_king(k: KingPosition, color: Color, sq: (usize, usize)) -> KingPosition {
    match color {
        Color::WHITE => KingPosition { white_king_position: sq, ..k },
        Color::BLACK => KingPosition { black_king_position: sq, ..k },
    }
}

/// After a king move: the rook jumps over on a castling move, whose notation is
/// "0-0" or "0-0-0"; the mover's king square is cached; the mover loses both rights.
pub open spec fn king_stage(s: GameModel, from: (usize, usize), to: (usize, usize)) -> GameModel {
    let r = from.0 as int;
    let board = if short_castle_geometry(from, to) {
        with_square(with_square(s.board, r, 5, s.board[r][7]), r, 7, None)
    } else if long_castle_geometry(from, to) {
        with_square(with_square(s.board, r, 3, s.board[r][0]), r, 0, None)
    } else {
        s.board
    };
    let notation = if short_castle_geometry(from, to) {
        "0-0"@
    } else if long_castle_geometry(from, to) {
        "0-0-0"@
    } else {
        s.notation
    };
    GameModel {
        board,
        notation,
        kings: with_king(s.kings, s.next, to),
        castle: without_castling(s.castle, s.next),
        ..s
    }
}

/// After a pawn move: on the first or last row it becomes the promotion piece and
/// "=" and the promotion character are added to the notation; a two-row advance
/// opens en passant.
pub open spec fn pawn_stage(s: GameModel, from: (usize, usize), to: (usize, usize), promotion_ch: char) -> GameModel {
    let promoted = to.0 == 0 || to.0 == 7;
    GameModel {
        board: if promoted {
            with_square(
                s.board,
                to.0 as int,
                to.1 as int,
                Some(ChessPiece { piece: promotion_of(promotion_ch)->Some_0, color: s.next }),
            )
        } else {
            s.board
        },
        notation: if promoted {
            s.notation + seq!['=', promotion_ch]
        } else {
            s.notation
        },
        en_passant: abs(from.0 - to.0) == 2,
        ..s
    }
}

/// After a rook move from its corner, the mover loses the right to castle with it.
pub open spec fn rook_stage(s: GameModel, from: (usize, usize)) -> GameModel {
    let c = s.castle;
    let castle = match s.next {
        Color::BLACK => CastlingRights {
            black_can_long_castle: c.black_can_long_castle && !(from.0 == 0 && from.1 == 0),
            black_can_short_castle: c.black_can_short_castle && !(from.0 == 0 && from.1 == 7),
            ..c
        },
        Color::WHITE => CastlingRights {
            white_can_long_castle: c.white_can_long_castle && !(from.0 == 7 && from.1 == 0),
            white_can_short_castle: c.white_can_short_castle && !(from.0 == 7 && from.1 == 7),
            ..c
        },
    };
    GameModel { castle, ..s }
}

/// Everything a move does to the position before the turn passes.
pub open spec fn effects(m: GameModel, from: (usize, usize), to: (usize, usize), promotion_ch: char) -> GameModel {
    let s = relocated(m, from, to);
    match moving_piece(m, from).piece {
        Piece::KING => king_stage(s, from, to),
        Piece::PAWN => pawn_stage(s, from, to, promotion_ch),
        Piece::ROOK => rook_stage(s, from),
        _ => s,
    }
}

/// The move is carried out and the turn passes; the counter grows after Black's move.
pub open spec fn applied(m: GameModel, from: (usize, usize), to: (usize, usize), promotion_ch: char) -> GameModel {
    let e = effects(m, from, to, promotion_ch);
    GameModel {
        next: other(m.next),
        turn: if m.next == Color::BLACK {
            m.turn + 1
        } else {
            m.turn
        },
        ..e
    }
}

/// A move can be carried out: its start square holds a piece, and a pawn that
/// reaches the first or last row has a promotion piece.
pub open spec fn move_ready(m: GameModel, from: (usize, usize), to: (usize, usize), promotion_ch: char) -> bool {
    &&& from.0 < 8 && from.1 < 8 && to.0 < 8 && to.1 < 8
    &&& m.board[from.0 as int][from.1 as int] is Some
    &&& (moving_piece(m, from).piece == Piece::PAWN && (to.0 == 0 || to.0 == 7)) ==> promotion_of(
        promotion_ch,
    ) is Some
}


/// After the move the side now to move is in check.
pub open spec fn gives_check(a: GameModel) -> bool {
    let k = king_of(a.kings, a.next);
    attacked(a.board, other(a.next), k.0 as int, k.1 as int)
}

/// The result when `c` is mated.
pub open spec fn winner_against(c: Color) -> GameResult {
    match c {
        Color::WHITE => GameResult::BlackWon,
        Color::BLACK => GameResult::WhiteWon,
    }
}

/// A whole accepted move: it is carried out, the turn passes, "+" marks a check,
/// and a mate records the result.
pub open spec fn step(m: GameModel, from: (usize, usize), to: (usize, usize), promotion_ch: char) -> GameModel {
    let a = applied(m, from, to, promotion_ch);
    let c = if gives_check(a) {
        GameModel { notation: a.notation.push('+'), ..a }
    } else {
        a
    };
    if mate(c) {
        GameModel { result: Some(winner_against(c.next)), ..c }
    } else {
        c
    }
}

/// The rules of the piece on the start square, which must be one of the mover's.
pub open spec fn piece_verdict(
    m: GameModel,
    from: (usize, usize),
    to: (usize, usize),
    promotion_ch: char,
) -> Result<(), MoveError> {
    match m.board[from.0 as int][from.1 as int] {
        None => Err(MoveError::NoPieceSelected),
        Some(p) => if p.color != m.next {
            Err(MoveError::NoPieceSelected)
        } else {
            match p.piece {
            Piece::BISHOP => bishop_rule(m.board, m.next, from, to),
            Piece::ROOK => rook_rule(m.board, m.next, from, to),
            Piece::QUEEN => queen_rule(m.board, m.next, from, to),
            Piece::KNIGHT => knight_rule(m.board, m.next, from, to),
            Piece::PAWN => pawn_rule(
                m.board,
                m.next,
                m.en_passant,
                m.notation,
                from,
                to,
                promotion_ch,
            ),
            Piece::KING => king_rule(m.board, m.next, m.castle, from, to),
            }
        },
    }
}

/// Whether a move between two named squares is accepted: the names are read, the
/// piece's own rules are applied, and the move must not leave the mover's king
/// attacked.
pub open spec fn verdict(m: GameModel, f: Seq<char>, t: Seq<char>, promotion_ch: char) -> Result<
    (),
    MoveError,
> {
    match squares_of(f, t) {
        Err(e) => Err(e),
        Ok(sq) => match piece_verdict(m, sq.0, sq.1, promotion_ch) {
            Err(e) => Err(e),
            Ok(_) => if attackers_after(m, sq.0, sq.1, promotion_ch).len() > 0 {
                Err(MoveError::OwnKingInCheck)
            } else {
                Ok(())
            },
        },
    }
}

fn back_rank(color: Color) -> (r: [Option<ChessPiece>; 8])
    ensures
        forall|c: int|
            0 <= c < 8 ==> r@[c] == Some(ChessPiece { piece: back_rank_piece(c), color }),
{
    [
        Some(ChessPiece { piece: Piece::ROOK, color }),
        Some(ChessPiece { piece: Piece::KNIGHT, color }),
        Some(ChessPiece { piece: Piece::BISHOP, color }),
        Some(ChessPiece { piece: Piece::QUEEN, color }),
        Some(ChessPiece { piece: Piece::KING, color }),
        Some(ChessPiece { piece: Piece::BISHOP, color }),
        Some(ChessPiece { piece: Piece::KNIGHT, color }),
        Some(ChessPiece { piece: Piece::ROOK, color }),
    ]
}

impl Game {
    /// A game in the starting position, White to move.
    pub fn new(uuid: uuid::Uuid, color: Color) -> (g: Game)
        ensures
            g@ == start_model(),
            g.id == uuid,
            g.admin_color == color,
            g.wf(),
    {
        let pawn: Option<ChessPiece> = Some(ChessPiece { piece: Piece::PAWN, color: Color::BLACK });
        let black_pawns: [Option<ChessPiece>; 8] = [pawn; 8];
        let pawn: Option<ChessPiece> = Some(ChessPiece { piece: Piece::PAWN, color: Color::WHITE });
        let white_pawns: [Option<ChessPiece>; 8] = [pawn; 8];
        let empty: [Option<ChessPiece>; 8] = [None; 8];
        let field: Board = [
            back_rank(Color::BLACK),
            black_pawns,
            empty,
            empty,
            empty,
            empty,
            white_pawns,
            back_rank(Color::WHITE),
        ];
        let g = Game {
            id: uuid,
            admin_color: color,
            game_result: None,
            turn_number: 0,
            previous_move: String::new(),
            previous_move_was_enpassant: false,
            next_to_move: Color::WHITE,
            can_castle: CastlingRights {
                white_can_short_castle: true,
                white_can_long_castle: true,
                black_can_short_castle: true,
                black_can_long_castle: true,
            },
            can_en_passant: false,
            king_position: KingPosition {
                white_king_position: (7, 4),
                black_king_position: (0, 4),
            },
            field,
        };
        assert(g@.board =~~= start_model().board);
        assert(g@.notation =~= start_model().notation);
        g
    }

    /// The game is well formed: the cached king squares lie on the board.
    pub open spec fn wf(&self) -> bool {
        kings_on_board(self.king_position)
    }

    /// A copy of the game, for looking one move ahead.
    pub fn duplicate(&self) -> (r: Game)
        ensures
            r@ == self@,
            r.id == self.id,
            r.admin_color == self.admin_color,
    {
        Game {
            id: self.id,
            admin_color: self.admin_color,
            game_result: self.game_result,
            turn_number: self.turn_number,
            next_to_move: self.next_to_move,
            previous_move: self.previous_move.clone(),
            previous_move_was_enpassant: self.previous_move_was_enpassant,
            can_castle: self.can_castle,
            can_en_passant: self.can_en_passant,
            king_position: self.king_position,
            field: self.field,
        }
    }

    /// What stands on one square.
    pub fn square_at(&self, r: usize, c: usize) -> (x: Option<ChessPiece>)
        requires
            r < 8,
            c < 8,
        ensures
            x == self@.board[r as int][c as int],
    {
        self.field[r][c]
    }

    /// The cached square of a color's king.
    pub fn king_square(&self, color: Color) -> (r: (usize, usize))
        requires
            self.wf(),
        ensures
            r == king_of(self.king_position, color),
            r.0 < 8 && r.1 < 8,
    {
        match color {
            Color::WHITE => self.king_position.white_king_position,
            Color::BLACK => self.king_position.black_king_position,
        }
    }

    /// Checks a move between two named squares against every rule, without making it.
    pub fn validate_move(&self, algebraic_from: &str, algebraic_to: &str, promotion_ch: char) -> (r:
        Result<(), MoveError>)
        requires
            self.wf(),
        ensures
            r == verdict(self@, algebraic_from@, algebraic_to@, promotion_ch),
    {
        let (from, to) = match get_squares_from_notation(algebraic_from, algebraic_to) {
            Ok(squares) => squares,
            Err(e) => return Err(e),
        };
        let piece = match self.square_at(from.0, from.1) {
            None => return Err(MoveError::NoPieceSelected),
            Some(x) => x,
        };
        // only the side to move moves, so the cached king squares stay true
        if piece.color != self.next_to_move {
            return Err(MoveError::NoPieceSelected);
        }
        let checked = match piece.piece {
            Piece::BISHOP => validate_bishop_move(from, to, self),
            Piece::ROOK => validate_rook_move(from, to, self),
            Piece::QUEEN => validate_queen_move(from, to, self),
            Piece::KNIGHT => validate_knight_move(from, to, self),
            Piece::PAWN => validate_pawn_move(from, to, promotion_ch, self),
            Piece::KING => validate_king_move(from, to, self),
        };
        if let Err(e) = checked {
            return Err(e);
        }
        // the move must not leave the mover's own king attacked
        if king_attackers_after(self, from, to, promotion_ch).len() != 0 {
            return Err(MoveError::OwnKingInCheck);
        }
        Ok(())
    }

    /// Makes a move that has been checked: the turn passes, a check is marked with
    /// "+", and a mate sets the result.
    pub fn make_move(&mut self, algebraic_from: &str, algebraic_to: &str, promotion_ch: char)
        requires
            old(self).wf(),
            old(self).turn_number < u32::MAX,
            squares_of(algebraic_from@, algebraic_to@) is Ok,
            move_ready(
                old(self)@,
                squares_of(algebraic_from@, algebraic_to@)->Ok_0.0,
                squares_of(algebraic_from@, algebraic_to@)->Ok_0.1,
                promotion_ch,
            ),
        ensures
            final(self)@ == step(
                old(self)@,
                squares_of(algebraic_from@, algebraic_to@)->Ok_0.0,
                squares_of(algebraic_from@, algebraic_to@)->Ok_0.1,
                promotion_ch,
            ),
            final(self).wf(),
            final(self).id == old(self).id,
            final(self).admin_color == old(self).admin_color,
    {
        let (from, to) = get_squares_from_notation(algebraic_from, algebraic_to).unwrap();
        self.apply_move(from, to, promotion_ch);

        // pass the turn; the counter grows after Black's move
        match self.next_to_move {
            Color::BLACK => {
                self.next_to_move = Color::WHITE;
                self.turn_number = self.turn_number + 1;
            },
            Color::WHITE => {
                self.next_to_move = Color::BLACK;
            },
        }

        let king = self.king_square(self.next_to_move);
        if can_be_captured_by(self.next_to_move.opponent(), king, self).len() > 0 {
            self.previous_move.push('+');
        }
        if is_mate(self) {
            self.game_result = match self.next_to_move {
                Color::WHITE => Some(GameResult::BlackWon),
                Color::BLACK => Some(GameResult::WhiteWon),
            };
        }
    }

    /// Checks a move and, when it is accepted, makes it. A rejected move leaves the
    /// game as it was.
    pub fn validate_and_make_move(
        &mut self,
        algebraic_from: &str,
        algebraic_to: &str,
        promotion_ch: char,
    ) -> (r: Result<(), MoveError>)
        requires
            old(self).wf(),
            old(self).turn_number < u32::MAX,
        ensures
            r == verdict(old(self)@, algebraic_from@, algebraic_to@, promotion_ch),
            r is Ok ==> final(self)@ == step(
                old(self)@,
                squares_of(algebraic_from@, algebraic_to@)->Ok_0.0,
                squares_of(algebraic_from@, algebraic_to@)->Ok_0.1,
                promotion_ch,
            ),
            r is Ok ==> final(self).next_to_move == other(old(self).next_to_move),
            r is Err ==> final(self)@ == old(self)@,
            final(self).wf(),
            final(self).id == old(self).id,
            final(self).admin_color == old(self).admin_color,
    {
        match self.validate_move(algebraic_from, algebraic_to, promotion_ch) {
            Err(e) => Err(e),
            Ok(()) => {
                proof {
                    lemma_accepted_move_ready(self@, algebraic_from@, algebraic_to@, promotion_ch);
                }
                self.make_move(algebraic_from, algebraic_to, promotion_ch);
                Ok(())
            },
        }
    }

    /// Carries out a move without passing the turn: the board, the notation, the
    /// en-passant flags, the castling rights and the cached king squares change.
    pub(crate) fn apply_move(&mut self, from: (usize, usize), to: (usize, usize), promotion_ch: char)
        requires
            old(self).wf(),
            move_ready(old(self)@, from, to, promotion_ch),
        ensures
            final(self)@ == effects(old(self)@, from, to, promotion_ch),
            final(self).wf(),
            final(self).id == old(self).id,
            final(self).admin_color == old(self).admin_color,
    {
        let ghost m = self@;
        self.can_en_passant = false;
        self.previous_move_was_enpassant = false;
        let moving = self.square_at(from.0, from.1).unwrap();
        let move_with_capture = self.square_at(to.0, to.1).is_some();

        let mut notation = String::new();
        match moving.piece {
            Piece::KING => notation.push('K'),
            Piece::QUEEN => notation.push('Q'),
            Piece::ROOK => notation.push('R'),
            Piece::BISHOP => notation.push('B'),
            Piece::KNIGHT => notation.push('N'),
            Piece::PAWN => {},
        }
        assert(notation@ =~= piece_letter(moving.piece));

        // a pawn moving diagonally onto an empty square takes the pawn beside it
        if !move_with_capture && moving.piece == Piece::PAWN && from.1 != to.1 {
            self.set_square(from.0, to.1, None);
            self.previous_move_was_enpassant = true;
        }
        if move_with_capture || self.previous_move_was_enpassant {
            notation.push('x');
        }
        push_square_name(&mut notation, to.0, to.1);
        self.previous_move = notation;

        self.set_square(to.0, to.1, Some(moving));
        self.set_square(from.0, from.1, None);
        assert(self@.notation =~= relocated(m, from, to).notation);
        assert(self@.board =~= relocated(m, from, to).board);
        assert(self@ == relocated(m, from, to));

        match moving.piece {
            Piece::KING => self.make_king_move(from, to),
            Piece::PAWN => self.make_pawn_move(from, to, promotion_ch),
            Piece::ROOK => self.make_rook_move(from),
            _ => {},
        }
    }

    fn make_rook_move(&mut self, from: (usize, usize))
        ensures
            final(self)@ == rook_stage(old(self)@, from),
            final(self).id == old(self).id,
            final(self).admin_color == old(self).admin_color,
            final(self).king_position == old(self).king_position,
    {
        if self.next_to_move == Color::BLACK {
            if from.0 == 0 && from.1 == 0 {
                self.can_castle.black_can_long_castle = false;
            }
            if from.0 == 0 && from.1 == 7 {
                self.can_castle.black_can_short_castle = false;
            }
        }
        if self.next_to_move == Color::WHITE {
            if from.0 == 7 && from.1 == 0 {
                self.can_castle.white_can_long_castle = false;
            }
            if from.0 == 7 && from.1 == 7 {
                self.can_castle.white_can_short_castle = false;
            }
        }
    }

    fn make_king_move(&mut self, from: (usize, usize), to: (usize, usize))
        requires
            from.0 < 8,
            from.1 < 8,
            to.0 < 8,
            to.1 < 8,
        ensures
            final(self)@ == king_stage(old(self)@, from, to),
            final(self).id == old(self).id,
            final(self).admin_color == old(self).admin_color,
    {
        let r: usize = from.0;
        if from.1 == 4 && to.1 == 6 && from.0 == to.0 && (r == 0 || r == 7) {
            let rook = self.square_at(r, 7);
            self.set_square(r, 5, rook);
            self.set_square(r, 7, None);
            self.previous_move = String::from_str("0-0");
        } else if from.1 == 4 && to.1 == 2 && from.0 == to.0 && (r == 0 || r == 7) {
            let rook = self.square_at(r, 0);
            self.set_square(r, 3, rook);
            self.set_square(r, 0, None);
            self.previous_move = String::from_str("0-0-0");
        }
        match self.next_to_move {
            Color::BLACK => {
                self.king_position.black_king_position = to;
                self.can_castle.black_can_long_castle = false;
                self.can_castle.black_can_short_castle = false;
            },
            Color::WHITE => {
                self.king_position.white_king_position = to;
                self.can_castle.white_can_long_castle = false;
                self.can_castle.white_can_short_castle = false;
            },
        }
    }

    fn make_pawn_move(&mut self, from: (usize, usize), to: (usize, usize), promotion_ch: char)
        requires
            from.0 < 8,
            from.1 < 8,
            to.0 < 8,
            to.1 < 8,
            (to.0 == 0 || to.0 == 7) ==> promotion_of(promotion_ch) is Some,
        ensures
            final(self)@ == pawn_stage(old(self)@, from, to, promotion_ch),
            final(self).id == old(self).id,
            final(self).admin_color == old(self).admin_color,
            final(self).king_position == old(self).king_position,
    {
        if to.0 == 7 || to.0 == 0 {
            let promotion_piece = get_promotion_piece(promotion_ch).unwrap();
            let color = self.next_to_move;
            self.set_square(to.0, to.1, Some(ChessPiece { piece: promotion_piece, color }));
            self.previous_move.push('=');
            self.previous_move.push(promotion_ch);
            assert(self.previous_move@ =~= old(self).previous_move@ + seq!['=', promotion_ch]);
        }
        // a two-row advance opens en passant for the next move
        let two_rows: bool = if from.0 > to.0 {
            from.0 - to.0 == 2
        } else {
            to.0 - from.0 == 2
        };
        self.can_en_passant = two_rows;
    }

    /// Puts `x` on one square.
    pub(crate) fn set_square(&mut self, r: usize, c: usize, x: Option<ChessPiece>)
        requires
            r < 8,
            c < 8,
        ensures
            final(self)@ == (GameModel { board: with_square(old(self)@.board, r as int, c as int, x), ..old(self)@ }),
            final(self).id == old(self).id,
            final(self).admin_color == old(self).admin_color,
    {
        self.field[r][c] = x;
        assert(board_view(self.field) =~~= with_square(old(self)@.board, r as int, c as int, x));
    }
}

/// An accepted move can be carried out.
proof fn lemma_accepted_move_ready(m: GameModel, f: Seq<char>, t: Seq<char>, promotion_ch: char)
    requires
        verdict(m, f, t, promotion_ch) is Ok,
    ensures
        squares_of(f, t) is Ok,
        move_ready(m, squares_of(f, t)->Ok_0.0, squares_of(f, t)->Ok_0.1, promotion_ch),
{
    let sq = squares_of(f, t)->Ok_0;
    assert(piece_verdict(m, sq.0, sq.1, promotion_ch) is Ok);
}

/// Every accepted move passes the turn to the other color, and the move counter
/// grows exactly when Black has moved.
pub proof fn lemma_turn_alternates(m: GameModel, from: (usize, usize), to: (usize, usize), promotion_ch: char)
    ensures
        step(m, from, to, promotion_ch).next == other(m.next),
        step(m, from, to, promotion_ch).turn == if m.next == Color::BLACK {
            m.turn + 1
        } else {
            m.turn
        },
{
}

/// A move is accepted exactly when its squares can be read, the piece's own rules
/// allow it, and afterwards nothing attacks the mover's king; a move rejected for
/// check leaves, once carried out, at least one attacker on the mover's king square.
pub proof fn lemma_accepted_iff_legal_and_safe(m: GameModel, f: Seq<char>, t: Seq<char>, promotion_ch: char)
    ensures
        verdict(m, f, t, promotion_ch) is Ok <==> ({
            &&& squares_of(f, t) is Ok
            &&& piece_verdict(m, squares_of(f, t)->Ok_0.0, squares_of(f, t)->Ok_0.1, promotion_ch) is Ok
            &&& attackers_after(m, squares_of(f, t)->Ok_0.0, squares_of(f, t)->Ok_0.1, promotion_ch).len() == 0
        }),
        verdict(m, f, t, promotion_ch) == Err::<(), MoveError>(MoveError::OwnKingInCheck) ==> ({
            let sq = squares_of(f, t)->Ok_0;
            let e = effects(m, sq.0, sq.1, promotion_ch);
            let k = king_of(e.kings, m.next);
            attacked(e.board, other(m.next), k.0 as int, k.1 as int)
        }),
{
}

/// After any move, en passant is open exactly when that move advanced a pawn by two
/// rows: the flag lasts for the one following move and no longer.
pub proof fn lemma_en_passant_window(m: GameModel, from: (usize, usize), to: (usize, usize), promotion_ch: char)
    ensures
        step(m, from, to, promotion_ch).en_passant == (moving_piece(m, from).piece == Piece::PAWN
            && abs(from.0 - to.0) == 2),
{
}

/// A castling right that is gone stays gone; a king move takes both rights of the
/// mover, and a rook move from its corner takes the right of that side.
pub proof fn lemma_castling_rights_never_return(
    m: GameModel,
    from: (usize, usize),
    to: (usize, usize),
    promotion_ch: char,
)
    ensures
        ({
            let c = step(m, from, to, promotion_ch).castle;
            &&& c.white_can_short_castle ==> m.castle.white_can_short_castle
            &&& c.white_can_long_castle ==> m.castle.white_can_long_castle
            &&& c.black_can_short_castle ==> m.castle.black_can_short_castle
            &&& c.black_can_long_castle ==> m.castle.black_can_long_castle
            &&& moving_piece(m, from).piece == Piece::KING ==> match m.next {
                Color::WHITE => !c.white_can_short_castle && !c.white_can_long_castle,
                Color::BLACK => !c.black_can_short_castle && !c.black_can_long_castle,
            }
            &&& moving_piece(m, from).piece == Piece::ROOK && from.0 == home_row(m.next) ==> {
                &&& from.1 == 0 ==> match m.next {
                    Color::WHITE => !c.white_can_long_castle,
                    Color::BLACK => !c.black_can_long_castle,
                }
                &&& from.1 == 7 ==> match m.next {
                    Color::WHITE => !c.white_can_short_castle,
                    Color::BLACK => !c.black_can_short_castle,
                }
            }
        }),
{
}

/// A castling move is accepted only with its right kept, from the king's start
/// square, and with the start, transit and destination squares not attacked.
pub proof fn lemma_castling_needs_safe_path(m: GameModel, from: (usize, usize), to: (usize, usize))
    requires
        king_rule(m.board, m.next, m.castle, from, to) is Ok,
        from.0 == to.0,
        abs(from.1 - to.1) == 2,
    ensures
        from.0 == home_row(m.next),
        from.1 == 4,
        to.1 == 2 || to.1 == 6,
        to.1 == 2 ==> match m.next {
            Color::WHITE => m.castle.white_can_long_castle,
            Color::BLACK => m.castle.black_can_long_castle,
        },
        to.1 == 6 ==> match m.next {
            Color::WHITE => m.castle.white_can_short_castle,
            Color::BLACK => m.castle.black_can_short_castle,
        },
        !attacked(m.board, other(m.next), from.0 as int, 4),
        !attacked(m.board, other(m.next), from.0 as int, (from.1 + to.1) / 2),
        !attacked(m.board, other(m.next), from.0 as int, to.1 as int),
{
}

/// A move of one of the mover's pieces that does not land on a piece of the mover's
/// and does not take en passant on the king's square keeps the mover's king on its
/// cached square, before and after the move.
pub proof fn lemma_cached_king_follows_the_king(
    m: GameModel,
    from: (usize, usize),
    to: (usize, usize),
    promotion_ch: char,
)
    requires
        board_shape(m.board),
        move_ready(m, from, to, promotion_ch),
        king_of(m.kings, m.next).0 < 8,
        king_of(m.kings, m.next).1 < 8,
        m.board[king_of(m.kings, m.next).0 as int][king_of(m.kings, m.next).1 as int] == Some(
            ChessPiece { piece: Piece::KING, color: m.next },
        ),
        moving_piece(m, from).color == m.next,
        !captures_own(m.board, m.next, to),
        !(en_passant_capture(m, from, to) && from.0 == king_of(m.kings, m.next).0 && to.1
            == king_of(m.kings, m.next).1),
    ensures
        ({
            let e = effects(m, from, to, promotion_ch);
            let k = king_of(e.kings, m.next);
            e.board[k.0 as int][k.1 as int] == Some(ChessPiece { piece: Piece::KING, color: m.next })
        }),
{
    let kp = king_of(m.kings, m.next);
    let s = relocated(m, from, to);
    let p = moving_piece(m, from);
    let king = Some(ChessPiece { piece: Piece::KING, color: m.next });
    if p.piece == Piece::KING {
        assert(s.board[to.0 as int][to.1 as int] == Some(p));
        assert(s.board[to.0 as int][to.1 as int] == king);
    } else {
        assert(from != kp);
        assert(to != kp);
        assert(s.board[kp.0 as int][kp.1 as int] == king);
    }
}

/// When the mover's king stands on its cached square, a move rejected for check
/// leaves that king, found on the board after the move, attacked.
pub proof fn lemma_rejected_for_check_attacks_the_king(
    m: GameModel,
    f: Seq<char>,
    t: Seq<char>,
    promotion_ch: char,
)
    requires
        verdict(m, f, t, promotion_ch) == Err::<(), MoveError>(MoveError::OwnKingInCheck),
        board_shape(m.board),
        kings_on_board(m.kings),
        m.board[king_of(m.kings, m.next).0 as int][king_of(m.kings, m.next).1 as int] == Some(
            ChessPiece { piece: Piece::KING, color: m.next },
        ),
        !(en_passant_capture(m, squares_of(f, t)->Ok_0.0, squares_of(f, t)->Ok_0.1)
            && squares_of(f, t)->Ok_0.0.0 == king_of(m.kings, m.next).0
            && squares_of(f, t)->Ok_0.1.1 == king_of(m.kings, m.next).1),
    ensures
        ({
            let sq = squares_of(f, t)->Ok_0;
            let e = effects(m, sq.0, sq.1, promotion_ch);
            let k = king_of(e.kings, m.next);
            &&& e.board[k.0 as int][k.1 as int] == Some(ChessPiece { piece: Piece::KING, color: m.next })
            &&& attacked(e.board, other(m.next), k.0 as int, k.1 as int)
        }),
{
    let sq = squares_of(f, t)->Ok_0;
    lemma_accepted_rules_ready(m, sq.0, sq.1, promotion_ch);
    lemma_cached_king_follows_the_king(m, sq.0, sq.1, promotion_ch);
}

/// A move that the piece rules accept moves one of the mover's pieces, lands on no
/// piece of the mover's, and can be carried out.
proof fn lemma_accepted_rules_ready(m: GameModel, from: (usize, usize), to: (usize, usize), promotion_ch: char)
    requires
        piece_verdict(m, from, to, promotion_ch) is Ok,
        from.0 < 8 && from.1 < 8 && to.0 < 8 && to.1 < 8,
    ensures
        move_ready(m, from, to, promotion_ch),
        moving_piece(m, from).color == m.next,
        !captures_own(m.board, m.next, to),
{
}

} // verus!
