use crate::defaults::types::PieceType;
use crate::model::Piece;
use crate::point::Point;
use vstd::prelude::*;

verus! {

/// The two-dimensional point with the given row and column.
pub open spec fn point2(at: Seq<int>) -> Point<2> {
    Point { coords: [at[0] as i32, at[1] as i32] }
}

/// A two-dimensional point is the point of its own row and column.
pub proof fn lemma_point2(point: Point<2>)
    ensures
        point2(point@) == point,
{
    assert(point2(point@).coords =~= point.coords);
}

/// The distance between two coordinates.
pub open spec fn distance(a: int, b: int) -> int {
    if a >= b {
        a - b
    } else {
        b - a
    }
}

/// Whether a piece of the given kind may go from `start` to `end`, by the
/// shape of the step alone. With `dw` the distance between the rows and
/// `dh` the distance between the columns:
/// the king takes a step of length 1, which is one square along one axis;
/// the queen goes along a diagonal or along one axis;
/// the rook goes along one axis;
/// the bishop goes along a diagonal;
/// the knight takes a step with `dw == 2` and `dh == 1`, or with
/// `dh == 2`, or with `dw == 1`;
/// the pawn takes a step with `dh == 1`.
pub open spec fn legal_shape(kind: PieceType, start: Seq<int>, end: Seq<int>) -> bool {
    let dw = distance(start[0], end[0]);
    let dh = distance(start[1], end[1]);
    match kind {
        PieceType::King => dw * dw + dh * dh == 1,
        PieceType::Queen => dw == dh || (dw != 0 && dh == 0) || (dw == 0 && dh != 0),
        PieceType::Rook => (dw != 0 && dh == 0) || (dw == 0 && dh != 0),
        PieceType::Bishop => dw == dh,
        PieceType::Knight => (dw == 2 && dh == 1) || dh == 2 || dw == 1,
        PieceType::Pawn => dh == 1,
    }
}

/// The index of the first piece at or after `from` that stands on `at`, or
/// the number of pieces where there is none.
pub open spec fn first_on(pieces: Seq<Piece<2>>, at: Seq<int>, from: int) -> int
    decreases pieces.len() - from,
{
    if from >= pieces.len() {
        pieces.len() as int
    } else if pieces[from].pos@ == at {
        from
    } else {
        first_on(pieces, at, from + 1)
    }
}

/// `first_on` is the least index at or after `from` whose piece stands on
/// `at`.
pub proof fn lemma_first_on(pieces: Seq<Piece<2>>, at: Seq<int>, from: int, found: int)
    requires
        0 <= from <= found <= pieces.len(),
        forall|i: int| from <= i < found ==> pieces[i].pos@ != at,
        found < pieces.len() ==> pieces[found].pos@ == at,
    ensures
        first_on(pieces, at, from) == found,
    decreases found - from,
{
    if from < found {
        lemma_first_on(pieces, at, from + 1, found);
    }
}

/// `first_on` lies between `from` and the number of pieces, no piece
/// before it stands on `at`, and where it is an index its piece does.
pub proof fn lemma_first_on_bounds(pieces: Seq<Piece<2>>, at: Seq<int>, from: int)
    requires
        0 <= from <= pieces.len(),
    ensures
        from <= first_on(pieces, at, from) <= pieces.len(),
        forall|i: int| from <= i < first_on(pieces, at, from) ==> pieces[i].pos@ != at,
        first_on(pieces, at, from) < pieces.len() ==> pieces[first_on(pieces, at, from)].pos@
            == at,
    decreases pieces.len() - from,
{
    if from < pieces.len() && pieces[from].pos@ != at {
        lemma_first_on_bounds(pieces, at, from + 1);
    }
}

/// The index of the first piece at or after `from` with the number `id`,
/// or the number of pieces where there is none.
pub open spec fn first_with_id(pieces: Seq<Piece<2>>, id: i32, from: int) -> int
    decreases pieces.len() - from,
{
    if from >= pieces.len() {
        pieces.len() as int
    } else if pieces[from].id == id {
        from
    } else {
        first_with_id(pieces, id, from + 1)
    }
}

/// `first_with_id` is the least index at or after `from` whose piece has
/// the number `id`.
pub proof fn lemma_first_with_id(pieces: Seq<Piece<2>>, id: i32, from: int, found: int)
    requires
        0 <= from <= found <= pieces.len(),
        forall|i: int| from <= i < found ==> pieces[i].id != id,
        found < pieces.len() ==> pieces[found].id == id,
    ensures
        first_with_id(pieces, id, from) == found,
    decreases found - from,
{
    if from < found {
        lemma_first_with_id(pieces, id, from + 1, found);
    }
}

} // verus!
