//! Plain values that stand for what the rules engine knows: colours, pieces,
//! squares and moves. The engine itself stays with the caller, which copies
//! its answers into these types.

use vstd::prelude::*;

verus! {

/// One of the two sides.
#[derive(Clone, Copy, Debug, PartialEq, Eq, Structural)]
pub enum Colour {
    White,
    Black,
}

impl Colour {
    /// The other side.
    pub open spec fn spec_opposite(self) -> Colour {
        match self {
            Colour::White => Colour::Black,
            Colour::Black => Colour::White,
        }
    }

    /// The other side.
    #[verifier::when_used_as_spec(spec_opposite)]
    pub fn opposite(self) -> (other: Colour)
        ensures
            other == self.spec_opposite(),
    {
        match self {
            Colour::White => Colour::Black,
            Colour::Black => Colour::White,
        }
    }

    /// Whether this is Black.
    pub fn is_black(self) -> (black: bool)
        ensures
            black == (self == Colour::Black),
    {
        match self {
            Colour::White => false,
            Colour::Black => true,
        }
    }
}

/// What the rules engine reports of the game as a whole.
#[derive(Clone, Copy, Debug, PartialEq, Eq, Structural)]
pub enum GameState {
    Active,
    Check,
    GameOver,
}

/// Why a game ended.
#[derive(Clone, Copy, Debug, PartialEq, Eq, Structural)]
pub enum GameOverReason {
    Checkmate,
    Stalemate,
    FivefoldRepetitionRule,
    SeventyFiveMoveRule,
}

/// The six kinds of chessmen.
#[derive(Clone, Copy, Debug, PartialEq, Eq, Structural)]
pub enum PieceType {
    Pawn,
    Knight,
    Bishop,
    Rook,
    Queen,
    King,
}

/// A chessman on the board.
#[derive(Clone, Copy, Debug, PartialEq, Eq, Structural)]
pub struct Piece {
    pub piece_type: PieceType,
    pub colour: Colour,
}

/// The kinds a pawn may be promoted to.
#[derive(Clone, Copy, Debug, PartialEq, Eq, Structural)]
pub enum PromotionPiece {
    Queen,
    Rook,
    Bishop,
    Knight,
}

impl PromotionPiece {
    /// The kind of chessman that the pawn becomes.
    pub open spec fn spec_piece_type(self) -> PieceType {
        match self {
            PromotionPiece::Queen => PieceType::Queen,
            PromotionPiece::Rook => PieceType::Rook,
            PromotionPiece::Bishop => PieceType::Bishop,
            PromotionPiece::Knight => PieceType::Knight,
        }
    }

    /// The kind of chessman that the pawn becomes.
    #[verifier::when_used_as_spec(spec_piece_type)]
    pub fn piece_type(self) -> (kind: PieceType)
        ensures
            kind == self.spec_piece_type(),
    {
        match self {
            PromotionPiece::Queen => PieceType::Queen,
            PromotionPiece::Rook => PieceType::Rook,
            PromotionPiece::Bishop => PieceType::Bishop,
            PromotionPiece::Knight => PieceType::Knight,
        }
    }
}

/// A square as the rules engine names it: by file and rank, both counted
/// from zero, and by its index on the drawn board.
#[derive(Clone, Copy, Debug, PartialEq, Eq, Structural)]
pub struct Position {
    pub file: u8,
    pub rank: u8,
    pub idx: u8,
}

/// A move of the local side, from one square to another.
#[derive(Clone, Copy, Debug, PartialEq, Eq, Structural)]
pub struct Move {
    pub from: Position,
    pub to: Position,
    pub promotion_choice: Option<PromotionPiece>,
}

/// One legal destination of the chessman on a selected square.
#[derive(Clone, Copy, Debug, PartialEq, Eq, Structural)]
pub struct Destination {
    pub to: Position,
    /// Whether moving there promotes a pawn.
    pub promotion: bool,
}

} // verus!
