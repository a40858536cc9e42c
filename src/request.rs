use vstd::prelude::*;

use crate::chess_piece::{color_name, other};
use crate::game::{Game, result_name};

verus! {

/// A move as a player sends it: two square names and a promotion character.
pub struct MoveRequest {
    pub from: String,
    pub to: String,
    pub promotion: String,
}

/// What every viewer of a game is told after an accepted move.
pub struct MoveResponse {
    pub player: String,
    pub from: String,
    pub to: String,
    pub promotion: String,
    pub en_passant: bool,
    pub result: Option<String>,
    pub move_notation: String,
}

/// A request to end a game with a result.
pub struct FinishRequest {
    pub game_result: String,
}

/// A request to start a game; the admin plays this color.
pub struct StartRequest {
    pub admin_color: String,
}

/// The claims that a login token carries.
pub struct Claims {
    pub email: String,
}

impl MoveResponse {
    /// The report of the move just made in `game`: who moved, the request's own
    /// fields, whether it took en passant, the result if the game is over, and
    /// the move's notation.
    pub fn after_move(game: &Game, request: MoveRequest) -> (r: MoveResponse)
        ensures
            r.player@ == color_name(other(game.next_to_move)),
            r.from@ == request.from@,
            r.to@ == request.to@,
            r.promotion@ == request.promotion@,
            r.en_passant == game.previous_move_was_enpassant,
            r.move_notation@ == game.previous_move@,
            game.game_result is None ==> r.result is None,
            game.game_result matches Some(g) ==> (r.result matches Some(s) && s@ == result_name(g)),
    {
        let result = match game.game_result {
            None => None,
            Some(res) => Some(res.to_str()),
        };
        MoveResponse {
            move_notation: game.previous_move.clone(),
            player: game.next_to_move.opposite_color(),
            from: request.from,
            to: request.to,
            promotion: request.promotion,
            en_passant: game.previous_move_was_enpassant,
            result,
        }
    }
}

} // verus!
