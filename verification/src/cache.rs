use crate::model::Move;
use vstd::prelude::*;

verus! {

/// The log of the moves that were committed on one board, oldest first.
/// A move enters at the end and is never changed or taken out again.
#[derive(Debug, Clone)]
pub struct MoveCache<const N: usize> {
    pub cache: Vec<Move<N>>,
}

impl<const N: usize> View for MoveCache<N> {
    type V = Seq<Move<N>>;

    /// The committed moves, oldest first.
    open spec fn view(&self) -> Seq<Move<N>> {
        self.cache@
    }
}

impl<const N: usize> MoveCache<N> {
    /// An empty log.
    pub fn new() -> (log: Self)
        ensures
            log@ == Seq::<Move<N>>::empty(),
    {
        Self { cache: Vec::new() }
    }

    /// An empty log with room for `capacity` moves.
    pub fn new_with_capacity(capacity: usize) -> (log: Self)
        ensures
            log@ == Seq::<Move<N>>::empty(),
    {
        Self { cache: Vec::with_capacity(capacity) }
    }

    /// Adds a move at the end of the log.
    pub fn append(&mut self, mo: Move<N>)
        ensures
            final(self)@ == old(self)@.push(mo),
    {
        self.cache.push(mo);
    }

    /// All the moves of the log, oldest first.
    pub fn all(&self) -> (moves: &Vec<Move<N>>)
        ensures
            moves@ == self@,
    {
        &self.cache
    }
}

} // verus!
