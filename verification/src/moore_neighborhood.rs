use vstd::prelude::*;

use crate::neighborhood::Neighborhood;

verus! {

/// The Moore neighborhood: the eight cells of the full ring around the
/// center.
#[derive(Debug, Clone, Copy)]
pub struct MooreNeighborhood {
    offsets: [(isize, isize); 8],
}

/// The eight offsets of the ring around the center, top row first, the
/// center itself excluded.
pub open spec fn moore_offsets() -> Seq<(isize, isize)> {
    seq![
        (-1isize, -1isize),
        (0isize, -1isize),
        (1isize, -1isize),
        (-1isize, 0isize),
        (1isize, 0isize),
        (-1isize, 1isize),
        (0isize, 1isize),
        (1isize, 1isize),
    ]
}

impl MooreNeighborhood {
    /// Creates a new Moore neighborhood.
    pub fn new() -> (r: Self)
        ensures
            r.spec_offsets() == moore_offsets(),
    {
        let offsets: [(isize, isize); 8] = [
            (-1, -1),
            (0, -1),
            (1, -1),
            (-1, 0),
            (1, 0),
            (-1, 1),
            (0, 1),
            (1, 1),
        ];
        proof {
            assert(offsets@ =~= moore_offsets());
        }
        MooreNeighborhood { offsets }
    }
}

impl Default for MooreNeighborhood {
    fn default() -> (r: Self)
        ensures
            r.spec_offsets() == moore_offsets(),
    {
        MooreNeighborhood::new()
    }
}

impl Neighborhood for MooreNeighborhood {
    closed spec fn spec_offsets(&self) -> Seq<(isize, isize)> {
        self.offsets@
    }

    fn offsets(&self) -> (r: &[(isize, isize)]) {
        self.offsets.as_slice()
    }

    fn name(&self) -> (r: &str)
        ensures
            r@ == "Moore (8 neighbors)"@,
    {
        "Moore (8 neighbors)"
    }
}

} // verus!
