use vstd::prelude::*;

verus! {

/// A stored move: its notation, the turn it was made in, and who made it.
pub struct Move {
    pub move_notation: String,
    pub turn: u32,
    pub player: String,
}

/// A stored game without a result, with the player who moved last, if any.
pub struct DBGame {
    pub game_id: String,
    pub created_at: String,
    pub last_moved: Option<String>,
    pub admin_color: String,
}

} // verus!
