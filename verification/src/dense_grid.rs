use vstd::prelude::*;

use crate::cell::CellState;
use crate::cell::Position;
use crate::error::Error;
use crate::grid::Grid;
use crate::grid::GridModel;
use crate::grid::alive_count;
use crate::grid::lemma_alive_count_take_step;
use crate::grid::lemma_row_major_index_bounds;

verus! {

broadcast use lemma_row_major_index_bounds;

/// A dense grid implementation backed by a flat row-major vector.
#[derive(Debug, Clone)]
pub struct DenseGrid {
    cells: Vec<CellState>,
    width: usize,
    height: usize,
}

/// Builds a vector of `n` dead cells.
fn make_dead_cells(n: usize) -> (v: Vec<CellState>)
    ensures
        v@.len() == n,
        forall|i: int| 0 <= i < n ==> v@[i] is Dead,
{
    let mut v: Vec<CellState> = Vec::new();
    let mut i: usize = 0;
    while i < n
        invariant
            i <= n,
            v@.len() == i,
            forall|j: int| 0 <= j < i ==> v@[j] is Dead,
        decreases n - i,
    {
        v.push(CellState::Dead);
        i = i + 1;
    }
    v
}

impl DenseGrid {
    /// Creates a new grid of the given dimensions with every cell dead.
    /// Fails with `InvalidDimensions` exactly when a dimension is zero.
    pub fn new(width: usize, height: usize) -> (r: Result<Self, Error>)
        requires
            width * height <= usize::MAX,
        ensures
            (width == 0 || height == 0) <==> r is Err,
            r is Err ==> r == Err::<Self, Error>(Error::InvalidDimensions { width, height }),
            r matches Ok(g) ==> {
                &&& g.model().wf()
                &&& g.model().width == width
                &&& g.model().height == height
                &&& g.model().all_dead()
            },
    {
        if width == 0 || height == 0 {
            return Err(Error::InvalidDimensions { width, height });
        }
        let n = width * height;
        Ok(DenseGrid { cells: make_dead_cells(n), width, height })
    }

    /// Resizes the grid to the given dimensions, keeping the cells of the
    /// overlapping rectangle, filling newly introduced cells with dead, and
    /// discarding cells outside the new bounds. Fails with
    /// `InvalidDimensions` exactly when a dimension is zero, leaving the grid
    /// unchanged.
    pub fn resize(&mut self, new_width: usize, new_height: usize) -> (r: Result<(), Error>)
        requires
            old(self).model().wf(),
            new_width * new_height <= usize::MAX,
        ensures
            (new_width == 0 || new_height == 0) <==> r is Err,
            r is Err ==> r == Err::<(), Error>(
                Error::InvalidDimensions { width: new_width, height: new_height },
            ) && final(self).model() == old(self).model(),
            r is Ok ==> {
                &&& final(self).model().wf()
                &&& final(self).model().width == new_width
                &&& final(self).model().height == new_height
                &&& forall|x: int, y: int|
                    0 <= x < new_width && 0 <= y < new_height
                        ==> #[trigger] final(self).model().cell(x, y) == (
                    if old(self).model().in_bounds(x, y) {
                        old(self).model().cell(x, y)
                    } else {
                        CellState::Dead
                    })
            },
    {
        if new_width == 0 || new_height == 0 {
            return Err(Error::InvalidDimensions { width: new_width, height: new_height });
        }
        let n = new_width * new_height;
        let mut new_cells = make_dead_cells(n);

        let copy_width = if self.width < new_width {
            self.width
        } else {
            new_width
        };
        let copy_height = if self.height < new_height {
            self.height
        } else {
            new_height
        };

        let ghost old_model = self.model();
        let mut y: usize = 0;
        while y < copy_height
            invariant
                self == old(self),
                old_model == old(self).model(),
                old_model.wf(),
                copy_width <= self.width as int && copy_width <= new_width as int,
                copy_height <= self.height as int && copy_height <= new_height as int,
                1 <= new_width && 1 <= new_height,
                new_width * new_height <= usize::MAX,
                y <= copy_height,
                new_cells@.len() == new_width * new_height,
                forall|xx: int, yy: int|
                    0 <= xx < new_width && 0 <= yy < new_height ==> #[trigger] new_cells@[yy
                        * new_width + xx] == (if xx < copy_width && yy < y {
                        old_model.cell(xx, yy)
                    } else {
                        CellState::Dead
                    }),
            decreases copy_height - y,
        {
            let mut x: usize = 0;
            while x < copy_width
                invariant
                    self == old(self),
                    old_model == old(self).model(),
                    old_model.wf(),
                    copy_width <= self.width as int && copy_width <= new_width as int,
                    copy_height <= self.height as int && copy_height <= new_height as int,
                    1 <= new_width && 1 <= new_height,
                    new_width * new_height <= usize::MAX,
                    y < copy_height,
                    x <= copy_width,
                    new_cells@.len() == new_width * new_height,
                    forall|xx: int, yy: int|
                        0 <= xx < new_width && 0 <= yy < new_height ==> #[trigger] new_cells@[yy
                            * new_width + xx] == (if (xx < copy_width && yy < y) || (yy == y && xx
                            < x) {
                            old_model.cell(xx, yy)
                        } else {
                            CellState::Dead
                        }),
                decreases copy_width - x,
            {
                proof {
                    lemma_cells_len_bound(&self.cells);
                    lemma_row_major_index_bounds(
                        x as int,
                        y as int,
                        self.width as int,
                        self.height as int,
                    );
                    lemma_row_major_index_bounds(
                        x as int,
                        y as int,
                        new_width as int,
                        new_height as int,
                    );
                }
                let old_index = y * self.width + x;
                let new_index = y * new_width + x;
                let c = self.cells[old_index];
                new_cells[new_index] = c;
                proof {
                    assert forall|xx: int, yy: int|
                        0 <= xx < new_width && 0 <= yy
                            < new_height implies #[trigger] new_cells@[yy * new_width + xx] == (
                    if (xx < copy_width && yy < y) || (yy == y && xx < x + 1) {
                        old_model.cell(xx, yy)
                    } else {
                        CellState::Dead
                    }) by {
                        if xx != x as int || yy != y as int {
                            lemma_row_major_index_injective(
                                x as int,
                                y as int,
                                xx,
                                yy,
                                new_width as int,
                            );
                        }
                    }
                }
                x = x + 1;
            }
            y = y + 1;
        }

        self.cells = new_cells;
        self.width = new_width;
        self.height = new_height;
        Ok(())
    }

    /// Translates a position to its row-major index, rejecting positions
    /// outside the grid.
    fn pos_to_index(&self, pos: Position) -> (r: Result<usize, Error>)
        requires
            self.model().wf(),
        ensures
            self.model().in_bounds(pos.x as int, pos.y as int) ==> (r matches Ok(i) && i as int
                == self.model().idx(pos.x as int, pos.y as int) && i < self.model().cells.len()),
            !self.model().in_bounds(pos.x as int, pos.y as int) ==> r == Err::<usize, Error>(
                Error::OutOfBounds {
                    x: pos.x,
                    y: pos.y,
                    width: self.width,
                    height: self.height,
                },
            ),
    {
        if !pos.is_within_bounds(self.width, self.height) {
            return Err(
                Error::OutOfBounds { x: pos.x, y: pos.y, width: self.width, height: self.height },
            );
        }
        proof {
            lemma_cells_len_bound(&self.cells);
            lemma_row_major_index_bounds(
                pos.x as int,
                pos.y as int,
                self.width as int,
                self.height as int,
            );
        }
        Ok(pos.y * self.width + pos.x)
    }

    /// Returns every cell of the grid with its position, in row-major order:
    /// entry `i` holds the position `(i % width, i / width)` and the state
    /// stored there.
    pub fn iter(&self) -> (r: Vec<(Position, CellState)>)
        requires
            self.model().wf(),
        ensures
            r@.len() == self.model().cells.len(),
            forall|i: int|
                0 <= i < r@.len() ==> #[trigger] r@[i] == (
                    Position {
                        x: (i % self.model().width as int) as usize,
                        y: (i / self.model().width as int) as usize,
                    },
                    self.model().cells[i],
                ),
    {
        let mut r: Vec<(Position, CellState)> = Vec::new();
        let n = self.cells.len();
        let mut i: usize = 0;
        while i < n
            invariant
                self.model().wf(),
                n == self.model().cells.len(),
                i <= n,
                r@.len() == i,
                forall|j: int|
                    0 <= j < i ==> #[trigger] r@[j] == (
                        Position {
                            x: (j % self.model().width as int) as usize,
                            y: (j / self.model().width as int) as usize,
                        },
                        self.model().cells[j],
                    ),
            decreases n - i,
        {
            let x = i % self.width;
            let y = i / self.width;
            let state = self.cells[i];
            r.push((Position::new(x, y), state));
            i = i + 1;
        }
        r
    }
}

/// The length of a cell vector fits in `usize`.
proof fn lemma_cells_len_bound(v: &Vec<CellState>)
    ensures
        v@.len() <= usize::MAX,
{
    vstd::std_specs::vec::axiom_spec_len(v);
}

/// Distinct in-bounds positions have distinct row-major indices; in
/// particular, writing at `(x, y)` leaves every other cell of the rectangle
/// unchanged.
proof fn lemma_row_major_index_injective(x: int, y: int, x2: int, y2: int, width: int)
    requires
        0 <= x < width,
        0 <= y,
        0 <= x2 < width,
        0 <= y2,
        x2 != x || y2 != y,
    ensures
        y2 * width + x2 != y * width + x,
{
    assert(y2 * width + x2 != y * width + x) by (nonlinear_arith)
        requires
            0 <= x < width,
            0 <= y,
            0 <= x2 < width,
            0 <= y2,
            x2 != x || y2 != y,
    ;
}

impl Grid for DenseGrid {
    closed spec fn model(&self) -> GridModel {
        GridModel { width: self.width as nat, height: self.height as nat, cells: self.cells@ }
    }

    fn get(&self, pos: Position) -> (r: Result<CellState, Error>) {
        let index = match self.pos_to_index(pos) {
            Ok(i) => i,
            Err(e) => {
                return Err(e);
            },
        };
        Ok(self.cells[index])
    }

    fn set(&mut self, pos: Position, state: CellState) -> (r: Result<(), Error>) {
        let index = match self.pos_to_index(pos) {
            Ok(i) => i,
            Err(e) => {
                return Err(e);
            },
        };
        self.cells[index] = state;
        proof {
            assert(final(self).model().cells =~= old(self).model().cells.update(
                old(self).model().idx(pos.x as int, pos.y as int),
                state,
            ));
        }
        Ok(())
    }

    fn width(&self) -> (r: usize) {
        self.width
    }

    fn height(&self) -> (r: usize) {
        self.height
    }

    fn clear(&mut self) {
        let n = self.cells.len();
        let mut i: usize = 0;
        while i < n
            invariant
                self.width == old(self).width,
                self.height == old(self).height,
                n == self.cells.len(),
                i <= n,
                forall|j: int| 0 <= j < i ==> self.cells@[j] is Dead,
            decreases n - i,
        {
            self.cells[i] = CellState::Dead;
            i = i + 1;
        }
    }

    fn count_alive(&self) -> (r: usize) {
        let n = self.cells.len();
        let mut count: usize = 0;
        let mut i: usize = 0;
        while i < n
            invariant
                n == self.cells.len(),
                i <= n,
                count <= i,
                count as nat == alive_count(self.model().cells.take(i as int)),
            decreases n - i,
        {
            proof {
                lemma_alive_count_take_step(self.model().cells, i as int);
            }
            if self.cells[i].is_alive() {
                count = count + 1;
            }
            i = i + 1;
        }
        proof {
            assert(self.model().cells.take(n as int) =~= self.model().cells);
        }
        count
    }
}

} // verus!
