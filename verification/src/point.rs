use vstd::prelude::*;

verus! {

/// A position in `N`-dimensional integer space: one coordinate per axis, in
/// axis order. On the two-dimensional board axis 0 is the row and axis 1 the
/// column.
#[derive(Clone, Copy, Debug)]
pub struct Point<const N: usize> {
    pub coords: [i32; N],
}

impl<const N: usize> View for Point<N> {
    type V = Seq<int>;

    /// The coordinates as mathematical integers, one per axis.
    open spec fn view(&self) -> Seq<int> {
        Seq::new(N as nat, |axis: int| self.coords[axis] as int)
    }
}

impl<const N: usize> Point<N> {
    /// The point with the given coordinates.
    pub fn new(coords: [i32; N]) -> (point: Self)
        ensures
            point.coords == coords,
            point@.len() == N,
            forall|axis: int| 0 <= axis < N ==> point@[axis] == coords[axis],
    {
        Self { coords }
    }

    /// The coordinate along one axis.
    pub fn get(&self, axis: usize) -> (coord: i32)
        requires
            axis < N,
        ensures
            coord == self@[axis as int],
    {
        self.coords[axis]
    }

    /// Whether two points agree on every axis.
    pub fn same_as(&self, other: &Self) -> (same: bool)
        ensures
            same == (self@ == other@),
            same == (*self == *other),
    {
        let mut axis: usize = 0;
        while axis < N
            invariant
                axis <= N,
                forall|a: int| 0 <= a < axis ==> self.coords[a] == other.coords[a],
            decreases N - axis,
        {
            if self.coords[axis] != other.coords[axis] {
                proof {
                    assert(self@[axis as int] != other@[axis as int]);
                }
                return false;
            }
            axis += 1;
        }
        proof {
            assert(self.coords =~= other.coords);
            assert(self@ =~= other@);
        }
        true
    }
}

impl<const N: usize> PartialEq for Point<N> {
    fn eq(&self, other: &Self) -> (same: bool) {
        self.same_as(other)
    }
}

impl<const N: usize> Eq for Point<N> {}

impl<const N: usize> vstd::std_specs::cmp::PartialEqSpecImpl for Point<N> {
    open spec fn obeys_eq_spec() -> bool {
        true
    }

    open spec fn eq_spec(&self, other: &Self) -> bool {
        self@ == other@
    }
}

} // verus!
