use vstd::prelude::*;

verus! {

/// The policy that names which relative positions count as adjacent to a
/// cell. The offsets are fixed for the lifetime of the policy and their
/// enumeration order is stable across calls.
pub trait Neighborhood {
    /// The fixed, ordered list of `(dx, dy)` offsets of the neighborhood.
    /// Unspecified until an implementation overrides it.
    open spec fn spec_offsets(&self) -> Seq<(isize, isize)> {
        arbitrary()
    }

    /// Returns the relative offsets of the neighbors, in their stable order.
    fn offsets(&self) -> (r: &[(isize, isize)])
        ensures
            r@ == self.spec_offsets(),
    ;

    /// Returns the name of the neighborhood type.
    fn name(&self) -> (r: &str);
}

} // verus!
