use vstd::prelude::*;

use crate::boundary::Boundary;
use crate::cell::Position;

verus! {

/// Toroidal boundary: edges wrap around to the opposite side, giving the grid
/// a "donut" topology. A coordinate is reduced with the true mathematical
/// modulo of the dimension, so negative coordinates wrap correctly.
#[derive(Debug, Clone, Copy)]
pub struct ToroidalBoundary;

impl ToroidalBoundary {
    /// Creates a new toroidal boundary.
    pub fn new() -> (r: Self) {
        ToroidalBoundary
    }
}

impl Default for ToroidalBoundary {
    fn default() -> (r: Self) {
        ToroidalBoundary::new()
    }
}

impl Boundary for ToroidalBoundary {
    /// On a nonempty rectangle, each coordinate is reduced modulo its
    /// dimension (mathematical modulo, never negative); an empty rectangle
    /// has no positions to resolve to.
    open spec fn spec_wrap(&self, x: int, y: int, width: nat, height: nat) -> Option<Position> {
        if width == 0 || height == 0 {
            None
        } else {
            Some(
                Position {
                    x: (x % width as int) as usize,
                    y: (y % height as int) as usize,
                },
            )
        }
    }

    fn wrap(&self, x: isize, y: isize, width: usize, height: usize) -> (r: Option<Position>) {
        if width == 0 || height == 0 {
            return None;
        }
        let width_i = width as isize;
        let height_i = height as isize;

        let rx = x % width_i;
        let wrapped_x = if rx < 0 {
            rx + width_i
        } else {
            rx
        };
        let ry = y % height_i;
        let wrapped_y = if ry < 0 {
            ry + height_i
        } else {
            ry
        };
        proof {
            lemma_trunc_rem_to_euclid_mod(x as int, width as int);
            lemma_trunc_rem_to_euclid_mod(y as int, height as int);
        }
        Some(Position::new(wrapped_x as usize, wrapped_y as usize))
    }
}

/// Relates Rust's truncating remainder to the mathematical modulo for a
/// positive divisor: they agree on non-negative dividends, and differ by the
/// divisor on negative dividends with a nonzero remainder.
proof fn lemma_trunc_rem_to_euclid_mod(a: int, d: int)
    requires
        d >= 1,
    ensures
        0 <= a % d < d,
        a >= 0 ==> a % d == trunc_rem(a, d),
        a < 0 && trunc_rem(a, d) == 0 ==> a % d == 0,
        a < 0 && trunc_rem(a, d) != 0 ==> a % d == trunc_rem(a, d) + d,
{
    vstd::arithmetic::div_mod::lemma_mod_bound(a, d);
    if a < 0 {
        vstd::arithmetic::div_mod::lemma_mod_bound(-a, d);
        vstd::arithmetic::div_mod::lemma_mod_adds(a, -a, d);
        let s = a % d + (-a) % d;
        assert(0int % d == 0) by (nonlinear_arith)
            requires
                d >= 1,
        ;
        assert(s == 0 || s == d) by (nonlinear_arith)
            requires
                s == d * (s / d),
                0 <= s,
                s < 2 * d,
                d >= 1,
        ;
    }
}

/// Rust's truncating remainder, expressed over the integers: the remainder
/// has the sign of the dividend.
pub open spec fn trunc_rem(a: int, d: int) -> int {
    if a >= 0 {
        a % d
    } else {
        -((-a) % d)
    }
}

} // verus!
