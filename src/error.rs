use vstd::prelude::*;

verus! {

/// Why a move or a square name was rejected. No rejection changes the game.
#[derive(Debug, Clone, Copy, PartialEq, Eq, Structural)]
pub enum MoveError {
    /// The move is not in the moving piece's pattern.
    GeneralError,
    /// A square name is outside files a-h or ranks 1-8.
    OutOfBounds,
    /// A square name has fewer than two characters.
    InvalidField,
    /// A square between the start and the destination is occupied.
    PieceInTheWay,
    /// The destination holds a piece of the side to move.
    CaptureOwnPiece,
    /// A pawn reaches the last rank without a valid promotion piece.
    PromotionRequired,
    /// The start square holds no piece of the side to move.
    NoPieceSelected,
    /// The castling move is not allowed.
    InvalidCastle,
    /// After the move the mover's king could be captured.
    OwnKingInCheck,
}

impl MoveError {
    /// The message that is shown for this rejection.
    pub fn to_str(&self) -> (r: String)
        ensures
            r@ == error_message(*self),
    {
        match self {
            MoveError::GeneralError => String::from_str("Invalid move"),
            MoveError::OutOfBounds => String::from_str(
                "The selected square is not inside the bounds of the chessboard",
            ),
            MoveError::InvalidField => String::from_str("A square field in your request is incorrect"),
            MoveError::PieceInTheWay => String::from_str("There is a piece in the way of your move"),
            MoveError::CaptureOwnPiece => String::from_str("You cannot capture your own piece"),
            MoveError::PromotionRequired => String::from_str("No promotion piece specified"),
            MoveError::NoPieceSelected => String::from_str("You have not selected any piece"),
            MoveError::InvalidCastle => String::from_str("That castle move is invalid"),
            MoveError::OwnKingInCheck => String::from_str("Your king is in check"),
        }
    }
}

/// The message of each rejection.
pub open spec fn error_message(e: MoveError) -> Seq<char> {
    match e {
        MoveError::GeneralError => "Invalid move"@,
        MoveError::OutOfBounds => "The selected square is not inside the bounds of the chessboard"@,
        MoveError::InvalidField => "A square field in your request is incorrect"@,
        MoveError::PieceInTheWay => "There is a piece in the way of your move"@,
        MoveError::CaptureOwnPiece => "You cannot capture your own piece"@,
        MoveError::PromotionRequired => "No promotion piece specified"@,
        MoveError::NoPieceSelected => "You have not selected any piece"@,
        MoveError::InvalidCastle => "That castle move is invalid"@,
        MoveError::OwnKingInCheck => "Your king is in check"@,
    }
}

} // verus!
