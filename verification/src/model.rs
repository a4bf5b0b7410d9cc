use crate::point::Point;
use vstd::prelude::*;

verus! {

/// A participant of a game, known to the engine by its number alone.
pub struct Player {
    pub id: i32,
}

impl Player {
    /// Makes the player with the given number.
    pub fn new(id: i32) -> (player: Self)
        ensures
            player.id == id,
    {
        Self { id }
    }
}

/// One step of a game: a piece of a player goes to a square. A piece that
/// enters the board has no square to come from.
#[derive(Debug, Copy, Clone)]
pub struct Move<const N: usize> {
    pub player_id: i32,
    pub piece_id: i32,
    pub from: Option<Point<N>>,
    pub to: Point<N>,
}

/// What a presentation layer needs to know of one piece on a flat board.
#[derive(Debug, Copy, Clone)]
pub struct RenderMove2D {
    pub player_id: i32,
    pub piece_id: i32,
    pub pos: Point<2>,
}

/// A piece: who owns it, its number, an optional second number for pieces
/// made of several parts, the number of its kind, and where it stands.
#[derive(Debug, Copy, Clone)]
pub struct Piece<const N: usize> {
    pub player: i32,
    pub id: i32,
    pub sub_id: Option<i32>,
    pub ty: i32,
    pub pos: Point<N>,
}

impl<const N: usize> Piece<N> {
    /// A piece without a second number.
    pub fn new(player: i32, id: i32, ty: i32, pos: Point<N>) -> (piece: Self)
        ensures
            piece.player == player,
            piece.id == id,
            piece.sub_id is None,
            piece.ty == ty,
            piece.pos == pos,
    {
        Self { player, id, sub_id: None, ty, pos }
    }

    /// A piece with a second number.
    pub fn new_with_sub(player: i32, id: i32, sub_id: i32, ty: i32, pos: Point<N>) -> (piece: Self)
        ensures
            piece.player == player,
            piece.id == id,
            piece.sub_id == Some(sub_id),
            piece.ty == ty,
            piece.pos == pos,
    {
        Self { player, id, sub_id: Some(sub_id), ty, pos }
    }
}

/// The extent of a board: along each axis the legal coordinates run from
/// the origin's coordinate, which is legal, up to that coordinate plus the
/// size, which is not.
pub struct Board<const DIMS: usize> {
    pub start: Point<DIMS>,
    pub size: [i32; DIMS],
}

impl<const DIMS: usize> Board<DIMS> {
    /// The board with the given origin and sizes.
    pub fn new(start: Point<DIMS>, size: [i32; DIMS]) -> (board: Self)
        ensures
            board.start == start,
            board.size == size,
    {
        Self { start, size }
    }

    /// Whether a position lies on the board.
    pub open spec fn holds(&self, point: Seq<int>) -> bool {
        &&& point.len() == DIMS
        &&& forall|axis: int|
            0 <= axis < DIMS ==> self.start@[axis] <= #[trigger] point[axis] < self.start@[axis]
                + self.size[axis]
    }

    /// Whether a point lies on the board.
    pub fn contains(&self, point: &Point<DIMS>) -> (inside: bool)
        ensures
            inside == self.holds(point@),
    {
        let mut axis: usize = 0;
        while axis < DIMS
            invariant
                axis <= DIMS,
                forall|a: int|
                    0 <= a < axis ==> self.start@[a] <= #[trigger] point@[a] < self.start@[a]
                        + self.size[a],
            decreases DIMS - axis,
        {
            let low: i64 = self.start.get(axis) as i64;
            let high: i64 = low + self.size[axis] as i64;
            let coord: i64 = point.get(axis) as i64;
            if coord < low || coord >= high {
                return false;
            }
            axis += 1;
        }
        true
    }
}

/// How the turn passes on once a move has been committed.
#[derive(Debug, Copy, Clone)]
pub enum PlayerSwap {
    /// To the next player of the roster, and from the last to the first.
    NextUp,
    /// To the player before, and from the first to the last.
    NextDown,
    /// The same player moves again.
    Same,
    /// To the player with the given number.
    Custom(i32),
}

} // verus!
