//! The values that the evaluator and the search work on.

use vstd::prelude::*;

verus! {

/// One of the two players.
#[derive(Clone, Copy, Debug, PartialEq, Eq, Structural)]
pub enum Side {
    White,
    Black,
}

impl Side {
    /// The other player.
    pub open spec fn opponent(self) -> Side {
        match self {
            Side::White => Side::Black,
            Side::Black => Side::White,
        }
    }
}

/// The six kinds of chess men.
#[derive(Clone, Copy, Debug, PartialEq, Eq, Structural)]
pub enum PieceKind {
    Pawn,
    Knight,
    Bishop,
    Rook,
    Queen,
    King,
}

/// Whether a game goes on, and how it ended if it does not.
#[derive(Clone, Copy, Debug, PartialEq, Eq, Structural)]
pub enum Outcome {
    /// The side to move has a legal move.
    Ongoing,
    /// The side to move has no legal move and is not in check: stalemate.
    Draw,
    /// The side to move has no legal move and is in check: it has lost.
    Checkmate,
}

/// The men of one side, counted by kind.
#[derive(Clone, Copy, Debug, PartialEq, Eq, Structural)]
pub struct Census {
    pub pawns: u8,
    pub knights: u8,
    pub bishops: u8,
    pub rooks: u8,
    pub queens: u8,
    pub kings: u8,
}

impl Census {
    /// The number of men of a kind.
    pub open spec fn count(self, kind: PieceKind) -> nat {
        match kind {
            PieceKind::Pawn => self.pawns as nat,
            PieceKind::Knight => self.knights as nat,
            PieceKind::Bishop => self.bishops as nat,
            PieceKind::Rook => self.rooks as nat,
            PieceKind::Queen => self.queens as nat,
            PieceKind::King => self.kings as nat,
        }
    }

    /// The number of men of a kind.
    pub fn get(&self, kind: PieceKind) -> (count: u8)
        ensures
            count == self.count(kind),
    {
        match kind {
            PieceKind::Pawn => self.pawns,
            PieceKind::Knight => self.knights,
            PieceKind::Bishop => self.bishops,
            PieceKind::Rook => self.rooks,
            PieceKind::Queen => self.queens,
            PieceKind::King => self.kings,
        }
    }
}

/// The men on the board: those of each side, counted by kind.
#[derive(Clone, Copy, Debug, PartialEq, Eq, Structural)]
pub struct Inventory {
    pub white: Census,
    pub black: Census,
}

impl Inventory {
    /// The men of one side.
    pub open spec fn of(self, side: Side) -> Census {
        match side {
            Side::White => self.white,
            Side::Black => self.black,
        }
    }

    /// The number of men of a kind that a side has.
    pub fn get(&self, kind: PieceKind, side: Side) -> (count: u8)
        ensures
            count == self.of(side).count(kind),
    {
        match side {
            Side::White => self.white.get(kind),
            Side::Black => self.black.get(kind),
        }
    }
}

} // verus!
