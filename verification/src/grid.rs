use vstd::prelude::*;

use crate::cell::CellState;
use crate::cell::Position;
use crate::error::Error;

verus! {

/// The mathematical model of a grid: its dimensions and its cells in
/// row-major order (the cell at column `x`, row `y` sits at index
/// `y * width + x`).
#[verifier::ext_equal]
pub struct GridModel {
    pub width: nat,
    pub height: nat,
    pub cells: Seq<CellState>,
}

impl GridModel {
    /// A well-formed grid has at least one column and one row, and exactly
    /// `width * height` cells.
    pub open spec fn wf(self) -> bool {
        &&& self.width >= 1
        &&& self.height >= 1
        &&& self.cells.len() == self.width * self.height
    }

    /// Whether the coordinate pair lies inside the rectangle.
    pub open spec fn in_bounds(self, x: int, y: int) -> bool {
        0 <= x < self.width && 0 <= y < self.height
    }

    /// The row-major index of a coordinate pair.
    pub open spec fn idx(self, x: int, y: int) -> int {
        y * self.width + x
    }

    /// The cell stored at a coordinate pair.
    pub open spec fn cell(self, x: int, y: int) -> CellState {
        self.cells[self.idx(x, y)]
    }

    /// Whether every cell of the grid is dead.
    pub open spec fn all_dead(self) -> bool {
        forall|i: int| 0 <= i < self.cells.len() ==> self.cells[i] is Dead
    }
}

/// For a position inside a `width` by `height` rectangle, the row-major index
/// lies inside the cell array.
pub broadcast proof fn lemma_row_major_index_bounds(x: int, y: int, width: int, height: int)
    requires
        0 <= x < width,
        0 <= y < height,
    ensures
        #![trigger y * width + x, width * height]
        0 <= y * width + x < width * height,
{
    assert(0 <= y * width + x < width * height) by (nonlinear_arith)
        requires
            0 <= x < width,
            0 <= y < height,
    ;
}

/// The number of alive cells in a row-major cell sequence.
pub open spec fn alive_count(cells: Seq<CellState>) -> nat
    decreases cells.len(),
{
    if cells.len() == 0 {
        0
    } else {
        alive_count(cells.drop_last()) + if cells.last() is Alive {
            1nat
        } else {
            0nat
        }
    }
}

/// A sequence with no alive cell counts zero alive cells.
pub proof fn lemma_alive_count_all_dead(cells: Seq<CellState>)
    requires
        forall|i: int| 0 <= i < cells.len() ==> cells[i] is Dead,
    ensures
        alive_count(cells) == 0,
    decreases cells.len(),
{
    if cells.len() > 0 {
        lemma_alive_count_all_dead(cells.drop_last());
    }
}

/// Extending a sequence by one cell adds one to the count exactly when that
/// cell is alive.
pub proof fn lemma_alive_count_take_step(cells: Seq<CellState>, i: int)
    requires
        0 <= i < cells.len(),
    ensures
        alive_count(cells.take(i + 1)) == alive_count(cells.take(i)) + if cells[i] is Alive {
            1nat
        } else {
            0nat
        },
{
    assert(cells.take(i + 1).drop_last() =~= cells.take(i));
    assert(cells.take(i + 1).last() == cells[i]);
}

/// A freshly created grid is all dead: every in-bounds position shows a dead
/// cell, and the alive count is zero.
pub proof fn lemma_all_dead_grid(g: GridModel)
    requires
        g.wf(),
        g.all_dead(),
    ensures
        alive_count(g.cells) == 0,
        forall|x: int, y: int| g.in_bounds(x, y) ==> #[trigger] g.cell(x, y) is Dead,
{
    lemma_alive_count_all_dead(g.cells);
    assert forall|x: int, y: int| g.in_bounds(x, y) implies #[trigger] g.cell(x, y) is Dead by {
        lemma_row_major_index_bounds(x, y, g.width as int, g.height as int);
    }
}

/// The interface for grid implementations. A grid is a dense rectangular
/// container of cell states with bounds-checked access; `model` is its
/// abstract value, against which every operation is specified.
pub trait Grid {
    /// The abstract value of the grid. Unspecified until an implementation
    /// overrides it.
    open spec fn model(&self) -> GridModel {
        arbitrary()
    }

    /// Gets the cell state at the given position.
    fn get(&self, pos: Position) -> (r: Result<CellState, Error>)
        requires
            self.model().wf(),
        ensures
            self.model().in_bounds(pos.x as int, pos.y as int) ==> r == Ok::<CellState, Error>(
                self.model().cell(pos.x as int, pos.y as int),
            ),
            !self.model().in_bounds(pos.x as int, pos.y as int) ==> r == Err::<CellState, Error>(
                Error::OutOfBounds {
                    x: pos.x,
                    y: pos.y,
                    width: self.model().width as usize,
                    height: self.model().height as usize,
                },
            ),
    ;

    /// Sets the cell state at the given position.
    fn set(&mut self, pos: Position, state: CellState) -> (r: Result<(), Error>)
        requires
            old(self).model().wf(),
        ensures
            final(self).model().wf(),
            final(self).model().width == old(self).model().width,
            final(self).model().height == old(self).model().height,
            old(self).model().in_bounds(pos.x as int, pos.y as int) ==> {
                &&& r == Ok::<(), Error>(())
                &&& final(self).model().cells == old(self).model().cells.update(
                    old(self).model().idx(pos.x as int, pos.y as int),
                    state,
                )
            },
            !old(self).model().in_bounds(pos.x as int, pos.y as int) ==> {
                &&& r == Err::<(), Error>(
                    Error::OutOfBounds {
                        x: pos.x,
                        y: pos.y,
                        width: old(self).model().width as usize,
                        height: old(self).model().height as usize,
                    },
                )
                &&& final(self).model() == old(self).model()
            },
    ;

    /// Returns the width of the grid.
    fn width(&self) -> (r: usize)
        ensures
            r as nat == self.model().width,
    ;

    /// Returns the height of the grid.
    fn height(&self) -> (r: usize)
        ensures
            r as nat == self.model().height,
    ;

    /// Returns the total number of cells in the grid.
    fn size(&self) -> (r: usize)
        requires
            self.model().width * self.model().height <= usize::MAX,
        ensures
            r as int == self.model().width * self.model().height,
    {
        self.width() * self.height()
    }

    /// Sets every cell to dead, keeping the dimensions.
    fn clear(&mut self)
        ensures
            final(self).model().width == old(self).model().width,
            final(self).model().height == old(self).model().height,
            final(self).model().cells.len() == old(self).model().cells.len(),
            final(self).model().all_dead(),
    ;

    /// Counts the number of alive cells in the grid.
    fn count_alive(&self) -> (r: usize)
        ensures
            r as nat == alive_count(self.model().cells),
    ;
}

} // verus!
