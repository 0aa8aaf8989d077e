use vstd::prelude::*;

use crate::cell::CellState;

verus! {

/// The policy that maps a cell's current state and its count of alive
/// neighbors to the cell's next state. `spec_apply` is the mathematical
/// transition function, total over every neighbor count; `apply` computes
/// it.
pub trait Rule {
    /// The transition function of the rule. Unspecified until an
    /// implementation overrides it.
    open spec fn spec_apply(&self, current: CellState, alive_neighbors: nat) -> CellState {
        arbitrary()
    }

    /// Applies the rule to determine the next state of a cell.
    fn apply(&self, current_state: CellState, alive_neighbors: usize) -> (r: CellState)
        ensures
            r == self.spec_apply(current_state, alive_neighbors as nat),
    ;

    /// Returns the name of the rule.
    fn name(&self) -> (r: &str);

    /// Returns a description of the rule; rules that give none get a fixed
    /// placeholder.
    fn description(&self) -> (r: &str)
        default_ensures
            r@ == "No description available"@,
    {
        "No description available"
    }
}

/// The transition function of Conway's Game of Life (B3/S23): a dead cell
/// with exactly three alive neighbors is born; an alive cell with two or
/// three alive neighbors survives; every other cell is dead in the next
/// generation, whatever its neighbor count.
pub open spec fn conway_transition(current: CellState, alive_neighbors: nat) -> CellState {
    if current is Dead && alive_neighbors == 3 {
        CellState::Alive
    } else if current is Alive && (alive_neighbors == 2 || alive_neighbors == 3) {
        CellState::Alive
    } else {
        CellState::Dead
    }
}

/// Conway rule totality: for every current state and every alive-neighbor
/// count, the next state is alive exactly when a dead cell has three alive
/// neighbors or an alive cell has two or three; every other combination is
/// dead.
pub proof fn lemma_conway_totality(current: CellState, alive_neighbors: nat)
    ensures
        conway_transition(current, alive_neighbors) is Alive <==> ((current is Dead
            && alive_neighbors == 3) || (current is Alive && (alive_neighbors == 2
            || alive_neighbors == 3))),
        conway_transition(current, alive_neighbors) is Alive || conway_transition(
            current,
            alive_neighbors,
        ) is Dead,
{
}

/// Conway's Game of Life rule (B3/S23).
#[derive(Debug, Clone, Copy)]
pub struct ConwayRule;

impl ConwayRule {
    /// Creates a new Conway's Game of Life rule.
    pub fn new() -> (r: Self) {
        ConwayRule
    }
}

impl Default for ConwayRule {
    fn default() -> (r: Self) {
        ConwayRule::new()
    }
}

impl Rule for ConwayRule {
    /// Conway's rule follows `conway_transition` on every state and count.
    open spec fn spec_apply(&self, current: CellState, alive_neighbors: nat) -> CellState {
        conway_transition(current, alive_neighbors)
    }

    fn apply(&self, current_state: CellState, alive_neighbors: usize) -> (r: CellState) {
        match (current_state, alive_neighbors) {
            (CellState::Dead, 3) => CellState::Alive,
            (CellState::Alive, 2) | (CellState::Alive, 3) => CellState::Alive,
            _ => CellState::Dead,
        }
    }

    fn name(&self) -> (r: &str)
        ensures
            r@ == "Conway's Game of Life"@,
    {
        "Conway's Game of Life"
    }

    fn description(&self) -> (r: &str)
        ensures
            r@ == "B3/S23 - Birth on 3 neighbors, Survival on 2 or 3 neighbors"@,
    {
        "B3/S23 - Birth on 3 neighbors, Survival on 2 or 3 neighbors"
    }
}

} // verus!
