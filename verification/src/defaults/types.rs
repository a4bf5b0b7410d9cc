use vstd::prelude::*;

verus! {

/// The six kinds of pieces of the default rule set.
#[derive(Debug, Copy, Clone, PartialEq, Eq, Structural)]
pub enum PieceType {
    King,
    Queen,
    Rook,
    Bishop,
    Knight,
    Pawn,
}

impl PieceType {
    /// The number that stands for a kind in a piece's `ty` field.
    pub open spec fn code(self) -> int {
        match self {
            PieceType::King => 5,
            PieceType::Queen => 4,
            PieceType::Rook => 3,
            PieceType::Bishop => 2,
            PieceType::Knight => 1,
            PieceType::Pawn => 0,
        }
    }

    /// Whether a number stands for a kind.
    pub open spec fn is_code(num: int) -> bool {
        0 <= num <= 5
    }

    /// The kind that a number stands for.
    pub open spec fn of_code(num: int) -> PieceType {
        if num == 5 {
            PieceType::King
        } else if num == 4 {
            PieceType::Queen
        } else if num == 3 {
            PieceType::Rook
        } else if num == 2 {
            PieceType::Bishop
        } else if num == 1 {
            PieceType::Knight
        } else {
            PieceType::Pawn
        }
    }

    /// The kind that a number stands for. Only the numbers 0 to 5 stand
    /// for a kind.
    pub fn from(num: i32) -> (piece: PieceType)
        requires
            Self::is_code(num as int),
        ensures
            piece == Self::of_code(num as int),
            piece.code() == num,
    {
        if num == 5 {
            PieceType::King
        } else if num == 4 {
            PieceType::Queen
        } else if num == 3 {
            PieceType::Rook
        } else if num == 2 {
            PieceType::Bishop
        } else if num == 1 {
            PieceType::Knight
        } else {
            PieceType::Pawn
        }
    }
}

impl From<PieceType> for i32 {
    fn from(piece: PieceType) -> (num: i32) {
        match piece {
            PieceType::King => 5,
            PieceType::Queen => 4,
            PieceType::Rook => 3,
            PieceType::Bishop => 2,
            PieceType::Knight => 1,
            PieceType::Pawn => 0,
        }
    }
}

impl vstd::std_specs::convert::FromSpecImpl<PieceType> for i32 {
    open spec fn obeys_from_spec() -> bool {
        true
    }

    open spec fn from_spec(piece: PieceType) -> i32 {
        piece.code() as i32
    }
}

/// Turning a kind into its number and back gives the kind again, and
/// every number from 0 to 5 is the number of the kind it stands for.
pub proof fn lemma_code_round_trip(piece: PieceType, num: int)
    ensures
        PieceType::is_code(piece.code()),
        PieceType::of_code(piece.code()) == piece,
        PieceType::is_code(num) ==> PieceType::of_code(num).code() == num,
{
}

} // verus!
