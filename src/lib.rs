//! A chess rules engine: board state, move validation for every piece,
//! attack detection, check and checkmate, with the move notation it records.

pub mod check_mate;
pub mod chess_piece;
pub mod convert_notation;
pub mod db;
pub mod error;
pub mod game;
pub mod request;
pub mod response;
pub mod utils;
pub mod validation;
