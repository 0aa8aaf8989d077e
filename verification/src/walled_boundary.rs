use vstd::prelude::*;

use crate::boundary::Boundary;
use crate::cell::Position;

verus! {

/// Walled boundary: coordinates beyond the far edges are clamped to the last
/// column or row, while negative coordinates have no neighbor at all. The
/// asymmetry between the two sides is deliberate and part of the contract.
#[derive(Debug, Clone, Copy)]
pub struct WalledBoundary;

impl WalledBoundary {
    /// Creates a new walled boundary.
    pub fn new() -> (r: Self) {
        WalledBoundary
    }
}

impl Default for WalledBoundary {
    fn default() -> (r: Self) {
        WalledBoundary::new()
    }
}

impl Boundary for WalledBoundary {
    /// On a nonempty rectangle, a negative coordinate resolves to nothing,
    /// and a coordinate at or beyond a dimension is clamped to that
    /// dimension's last index; an empty rectangle has no positions to
    /// resolve to.
    open spec fn spec_wrap(&self, x: int, y: int, width: nat, height: nat) -> Option<Position> {
        if width == 0 || height == 0 {
            None
        } else if x < 0 || y < 0 {
            None
        } else {
            Some(
                Position {
                    x: (if x < width - 1 {
                        x
                    } else {
                        width - 1
                    }) as usize,
                    y: (if y < height - 1 {
                        y
                    } else {
                        height - 1
                    }) as usize,
                },
            )
        }
    }

    fn wrap(&self, x: isize, y: isize, width: usize, height: usize) -> (r: Option<Position>) {
        if width == 0 || height == 0 {
            return None;
        }
        if x < 0 || y < 0 {
            return None;
        }

        let xu = x as usize;
        let yu = y as usize;
        let clamped_x = if xu < width - 1 {
            xu
        } else {
            width - 1
        };
        let clamped_y = if yu < height - 1 {
            yu
        } else {
            height - 1
        };

        Some(Position::new(clamped_x, clamped_y))
    }
}

} // verus!
