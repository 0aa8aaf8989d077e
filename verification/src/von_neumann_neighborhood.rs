use vstd::prelude::*;

use crate::neighborhood::Neighborhood;

verus! {

/// The von Neumann neighborhood: the four orthogonally adjacent cells.
#[derive(Debug, Clone, Copy)]
pub struct VonNeumannNeighborhood {
    offsets: [(isize, isize); 4],
}

/// The four orthogonal offsets: up, left, right, down.
pub open spec fn von_neumann_offsets() -> Seq<(isize, isize)> {
    seq![(0isize, -1isize), (-1isize, 0isize), (1isize, 0isize), (0isize, 1isize)]
}

impl VonNeumannNeighborhood {
    /// Creates a new von Neumann neighborhood.
    pub fn new() -> (r: Self)
        ensures
            r.spec_offsets() == von_neumann_offsets(),
    {
        let offsets: [(isize, isize); 4] = [(0, -1), (-1, 0), (1, 0), (0, 1)];
        proof {
            assert(offsets@ =~= von_neumann_offsets());
        }
        VonNeumannNeighborhood { offsets }
    }
}

impl Default for VonNeumannNeighborhood {
    fn default() -> (r: Self)
        ensures
            r.spec_offsets() == von_neumann_offsets(),
    {
        VonNeumannNeighborhood::new()
    }
}

impl Neighborhood for VonNeumannNeighborhood {
    closed spec fn spec_offsets(&self) -> Seq<(isize, isize)> {
        self.offsets@
    }

    fn offsets(&self) -> (r: &[(isize, isize)]) {
        self.offsets.as_slice()
    }

    fn name(&self) -> (r: &str)
        ensures
            r@ == "Von Neumann (4 neighbors)"@,
    {
        "Von Neumann (4 neighbors)"
    }
}

} // verus!
