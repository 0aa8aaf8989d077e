use vstd::prelude::*;

verus! {

/// The state of a single cell in the grid.
#[derive(Debug, Clone, Copy, PartialEq, Eq, Hash, Structural)]
pub enum CellState {
    /// Cell is alive
    Alive,
    /// Cell is dead
    Dead,
}

impl CellState {
    /// Returns true if the cell is alive.
    pub fn is_alive(&self) -> (r: bool)
        ensures
            r == (*self is Alive),
    {
        matches!(self, CellState::Alive)
    }

    /// Returns true if the cell is dead.
    pub fn is_dead(&self) -> (r: bool)
        ensures
            r == (*self is Dead),
    {
        matches!(self, CellState::Dead)
    }

    /// Returns the opposite state.
    pub fn toggle(&self) -> (r: Self)
        ensures
            r == (if *self is Alive {
                CellState::Dead
            } else {
                CellState::Alive
            }),
    {
        match self {
            CellState::Alive => CellState::Dead,
            CellState::Dead => CellState::Alive,
        }
    }
}

impl Default for CellState {
    /// The default cell state is dead.
    fn default() -> (r: Self)
        ensures
            r is Dead,
    {
        CellState::Dead
    }
}

/// A coordinate pair in the grid: column `x`, row `y`.
#[derive(Debug, Clone, Copy, PartialEq, Eq, Hash, Structural)]
pub struct Position {
    /// X coordinate (column)
    pub x: usize,
    /// Y coordinate (row)
    pub y: usize,
}

impl Position {
    /// Creates a new position.
    pub fn new(x: usize, y: usize) -> (r: Self)
        ensures
            r == (Position { x, y }),
    {
        Position { x, y }
    }

    /// Checks whether this position lies inside a grid of the given dimensions.
    pub fn is_within_bounds(&self, width: usize, height: usize) -> (r: bool)
        ensures
            r == (self.x < width && self.y < height),
    {
        self.x < width && self.y < height
    }
}

} // verus!
