use vstd::prelude::*;

use crate::cell::Position;

verus! {

/// The policy that resolves a neighbor coordinate falling outside the grid's
/// rectangle. `spec_wrap` is the mathematical resolution; `wrap` computes it.
pub trait Boundary {
    /// The resolution of a coordinate pair against a `width` by `height`
    /// rectangle: either a position inside the rectangle, or no neighbor.
    /// Unspecified until an implementation overrides it.
    open spec fn spec_wrap(&self, x: int, y: int, width: nat, height: nat) -> Option<Position> {
        arbitrary()
    }

    /// Wraps a coordinate pair according to the boundary rules. The
    /// coordinates may be negative or beyond the grid's dimensions; the
    /// result, if any, lies inside the rectangle.
    fn wrap(&self, x: isize, y: isize, width: usize, height: usize) -> (r: Option<Position>)
        requires
            width <= isize::MAX as usize,
            height <= isize::MAX as usize,
        ensures
            r == self.spec_wrap(x as int, y as int, width as nat, height as nat),
            r matches Some(p) ==> p.x < width && p.y < height,
    ;
}

} // verus!
