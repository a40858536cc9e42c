use vstd::prelude::*;

verus! {

/// A piece on the board: its kind and its owner.
#[derive(Debug, Clone, Copy, PartialEq, Eq, Structural)]
pub struct ChessPiece {
    pub piece: Piece,
    pub color: Color,
}

#[allow(non_camel_case_types)]
#[derive(Debug, Clone, Copy, PartialEq, Eq, Hash, Structural)]
pub enum Piece {
    KING,
    QUEEN,
    ROOK,
    BISHOP,
    KNIGHT,
    PAWN,
}

#[derive(Debug, Clone, Copy, PartialEq, Eq, Structural)]
pub enum Color {
    BLACK,
    WHITE,
}

/// The other player.
pub open spec fn other(c: Color) -> Color {
    match c {
        Color::WHITE => Color::BLACK,
        Color::BLACK => Color::WHITE,
    }
}

/// The lower-case name of a color.
pub open spec fn color_name(c: Color) -> Seq<char> {
    match c {
        Color::WHITE => "white"@,
        Color::BLACK => "black"@,
    }
}

impl Color {
    pub fn to_str(&self) -> (r: String)
        ensures
            r@ == color_name(*self),
    {
        match self {
            Color::WHITE => String::from_str("white"),
            Color::BLACK => String::from_str("black"),
        }
    }

    /// The name of the other player.
    pub fn opposite_color(&self) -> (r: String)
        ensures
            r@ == color_name(other(*self)),
    {
        match self {
            Color::WHITE => String::from_str("black"),
            Color::BLACK => String::from_str("white"),
        }
    }

    /// The other player, as a value.
    pub fn opponent(&self) -> (r: Color)
        ensures
            r == other(*self),
    {
        match self {
            Color::WHITE => Color::BLACK,
            Color::BLACK => Color::WHITE,
        }
    }
}

} // verus!
