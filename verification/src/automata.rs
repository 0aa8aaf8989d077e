use vstd::prelude::*;

use crate::boundary::Boundary;
use crate::cell::CellState;
use crate::cell::Position;
use crate::dense_grid::DenseGrid;
use crate::error::Error;
use crate::grid::Grid;
use crate::grid::GridModel;
use crate::grid::lemma_row_major_index_bounds;
use crate::neighborhood::Neighborhood;
use crate::rules::Rule;

verus! {

/// What one neighborhood offset contributes to a cell's alive-neighbor
/// count: one if the boundary resolves the offset coordinate to an alive
/// cell inside the grid, zero otherwise (a boundary miss is silently
/// skipped).
pub open spec fn offset_contribution<B: Boundary>(
    g: GridModel,
    b: B,
    x: int,
    y: int,
    off: (isize, isize),
) -> nat {
    match b.spec_wrap(x + off.0, y + off.1, g.width, g.height) {
        Some(p) => if g.in_bounds(p.x as int, p.y as int) && g.cell(p.x as int, p.y as int)
            is Alive {
            1nat
        } else {
            0nat
        },
        None => 0nat,
    }
}

/// The alive-neighbor count of the cell at `(x, y)` over the first `k`
/// offsets of the neighborhood.
pub open spec fn neighbor_count_up_to<B: Boundary, N: Neighborhood>(
    g: GridModel,
    b: B,
    n: N,
    x: int,
    y: int,
    k: int,
) -> nat
    decreases k,
{
    if k <= 0 {
        0
    } else {
        neighbor_count_up_to(g, b, n, x, y, k - 1) + offset_contribution(
            g,
            b,
            x,
            y,
            n.spec_offsets()[k - 1],
        )
    }
}

/// The alive-neighbor count of the cell at `(x, y)`: for every offset of the
/// neighborhood, the coordinate `(x + dx, y + dy)` is resolved by the
/// boundary, and the resolved cell is counted when it is alive.
pub open spec fn neighbor_count<B: Boundary, N: Neighborhood>(
    g: GridModel,
    b: B,
    n: N,
    x: int,
    y: int,
) -> nat {
    neighbor_count_up_to(g, b, n, x, y, n.spec_offsets().len() as int)
}

/// One generation of the automaton: a grid of the same dimensions in which
/// every cell holds the rule applied to that cell's previous state and its
/// alive-neighbor count in the previous grid.
pub open spec fn next_generation<R: Rule, B: Boundary, N: Neighborhood>(
    g: GridModel,
    r: R,
    b: B,
    n: N,
) -> GridModel {
    GridModel {
        width: g.width,
        height: g.height,
        cells: Seq::new(
            g.width * g.height,
            |i: int|
                r.spec_apply(
                    g.cells[i],
                    neighbor_count(g, b, n, i % g.width as int, i / g.width as int),
                ),
        ),
    }
}

/// The grid after `k` generations.
pub open spec fn advance<R: Rule, B: Boundary, N: Neighborhood>(
    g: GridModel,
    r: R,
    b: B,
    n: N,
    k: nat,
) -> GridModel
    decreases k,
{
    if k == 0 {
        g
    } else {
        next_generation(advance(g, r, b, n, (k - 1) as nat), r, b, n)
    }
}

/// The simulation engine: a current grid, a scratch grid of the same
/// dimensions for double-buffered stepping, the three policies, and the
/// generation counter.
pub struct Automata<R: Rule, B: Boundary, N: Neighborhood> {
    grid: DenseGrid,
    next_grid: DenseGrid,
    rule: R,
    boundary: B,
    neighborhood: N,
    generation: u64,
}

impl<R: Rule, B: Boundary, N: Neighborhood> Automata<R, B, N> {
    /// The model of the current grid.
    pub closed spec fn spec_grid(&self) -> GridModel {
        self.grid.model()
    }

    /// The number of completed steps since creation or the last reset.
    pub closed spec fn spec_generation(&self) -> u64 {
        self.generation
    }

    /// The engine's rule instance.
    pub closed spec fn spec_rule(&self) -> R {
        self.rule
    }

    /// The engine's boundary instance.
    pub closed spec fn spec_boundary(&self) -> B {
        self.boundary
    }

    /// The engine's neighborhood instance.
    pub closed spec fn spec_neighborhood(&self) -> N {
        self.neighborhood
    }

    /// The engine's invariant: both grids are well formed with equal
    /// dimensions, the dimensions admit signed coordinate arithmetic, and
    /// every neighborhood offset keeps that arithmetic within `isize`.
    pub closed spec fn wf(&self) -> bool {
        &&& self.grid.model().wf()
        &&& self.next_grid.model().wf()
        &&& self.next_grid.model().width == self.grid.model().width
        &&& self.next_grid.model().height == self.grid.model().height
        &&& self.grid.model().width <= isize::MAX
        &&& self.grid.model().height <= isize::MAX
        &&& forall|i: int|
            0 <= i < self.neighborhood.spec_offsets().len() ==> (
            #[trigger] self.neighborhood.spec_offsets()[i]).0 <= isize::MAX
                - self.grid.model().width + 1 && self.neighborhood.spec_offsets()[i].1
                <= isize::MAX - self.grid.model().height + 1
    }

    /// Creates a new engine with two all-dead grids of the given dimensions,
    /// at generation zero. Fails with `InvalidDimensions` exactly when a
    /// dimension is zero.
    pub fn new(width: usize, height: usize, rule: Box<R>, boundary: Box<B>, neighborhood: Box<N>)
        -> (r: Result<Self, Error>)
        requires
            width * height <= isize::MAX,
            forall|i: int|
                0 <= i < neighborhood.spec_offsets().len() ==> (
                #[trigger] neighborhood.spec_offsets()[i]).0 <= isize::MAX - width + 1
                    && neighborhood.spec_offsets()[i].1 <= isize::MAX - height + 1,
        ensures
            (width == 0 || height == 0) <==> r is Err,
            r is Err ==> r == Err::<Self, Error>(Error::InvalidDimensions { width, height }),
            r matches Ok(a) ==> {
                &&& a.wf()
                &&& a.spec_grid().wf()
                &&& a.spec_grid().width == width
                &&& a.spec_grid().height == height
                &&& a.spec_grid().all_dead()
                &&& a.spec_generation() == 0
                &&& a.spec_rule() == *rule
                &&& a.spec_boundary() == *boundary
                &&& a.spec_neighborhood() == *neighborhood
            },
    {
        proof {
            if width >= 1 && height >= 1 {
                lemma_dims_le_product(width as int, height as int);
            }
        }
        let grid = match DenseGrid::new(width, height) {
            Ok(g) => g,
            Err(e) => {
                return Err(e);
            },
        };
        let next_grid = match DenseGrid::new(width, height) {
            Ok(g) => g,
            Err(e) => {
                return Err(e);
            },
        };

        Ok(
            Automata {
                grid,
                next_grid,
                rule: *rule,
                boundary: *boundary,
                neighborhood: *neighborhood,
                generation: 0,
            },
        )
    }

    /// Returns a reference to the current grid.
    pub fn grid(&self) -> (g: &DenseGrid)
        ensures
            g.model() == self.spec_grid(),
    {
        &self.grid
    }

    /// Returns a mutable reference to the current grid, for seeding and
    /// probing. Mutations that keep the grid well formed at its dimensions
    /// keep the engine's invariant.
    pub fn grid_mut(&mut self) -> (g: &mut DenseGrid)
        ensures
            (*g).model() == old(self).spec_grid(),
            final(self).spec_grid() == (*final(g)).model(),
            final(self).spec_generation() == old(self).spec_generation(),
            final(self).spec_rule() == old(self).spec_rule(),
            final(self).spec_boundary() == old(self).spec_boundary(),
            final(self).spec_neighborhood() == old(self).spec_neighborhood(),
            old(self).wf() && (*final(g)).model().wf() && (*final(g)).model().width == old(
                self,
            ).spec_grid().width && (*final(g)).model().height == old(self).spec_grid().height
                ==> final(self).wf(),
    {
        &mut self.grid
    }

    /// Returns the current generation number.
    pub fn generation(&self) -> (r: u64)
        ensures
            r == self.spec_generation(),
    {
        self.generation
    }

    /// Clears both grids to all-dead and sets the generation counter to
    /// zero.
    pub fn reset(&mut self)
        ensures
            old(self).wf() ==> final(self).wf(),
            old(self).wf() ==> final(self).spec_grid().wf(),
            final(self).spec_grid().width == old(self).spec_grid().width,
            final(self).spec_grid().height == old(self).spec_grid().height,
            final(self).spec_grid().cells.len() == old(self).spec_grid().cells.len(),
            final(self).spec_grid().all_dead(),
            final(self).spec_generation() == 0,
            final(self).spec_rule() == old(self).spec_rule(),
            final(self).spec_boundary() == old(self).spec_boundary(),
            final(self).spec_neighborhood() == old(self).spec_neighborhood(),
    {
        self.grid.clear();
        self.next_grid.clear();
        self.generation = 0;
    }

    /// Counts the alive neighbors of the cell at `pos` in the current grid,
    /// one boundary resolution per neighborhood offset.
    fn count_alive_neighbors(&self, pos: Position) -> (count: usize)
        requires
            self.wf(),
            self.spec_grid().in_bounds(pos.x as int, pos.y as int),
        ensures
            count as nat == neighbor_count(
                self.spec_grid(),
                self.spec_boundary(),
                self.spec_neighborhood(),
                pos.x as int,
                pos.y as int,
            ),
    {
        let mut count: usize = 0;
        let x = pos.x;
        let y = pos.y;
        let w = self.grid.width();
        let h = self.grid.height();

        let offs = self.neighborhood.offsets();
        let n = offs.len();
        let mut i: usize = 0;
        while i < n
            invariant
                self.wf(),
                self.spec_grid().in_bounds(x as int, y as int),
                offs@ == self.spec_neighborhood().spec_offsets(),
                n == offs@.len(),
                x == pos.x,
                y == pos.y,
                w as nat == self.spec_grid().width,
                h as nat == self.spec_grid().height,
                i <= n,
                count <= i,
                count as nat == neighbor_count_up_to(
                    self.spec_grid(),
                    self.spec_boundary(),
                    self.spec_neighborhood(),
                    x as int,
                    y as int,
                    i as int,
                ),
            decreases n - i,
        {
            let (dx, dy) = offs[i];
            let neighbor_x = x as isize + dx;
            let neighbor_y = y as isize + dy;

            match self.boundary.wrap(neighbor_x, neighbor_y, w, h) {
                Some(neighbor_pos) => {
                    match self.grid.get(neighbor_pos) {
                        Ok(state) => {
                            if state.is_alive() {
                                count = count + 1;
                            }
                        },
                        Err(_) => {},
                    }
                },
                None => {},
            }
            i = i + 1;
        }
        count
    }

    /// Advances the simulation by one generation: computes every cell's next
    /// state from the current, unmutated grid into the scratch grid, swaps
    /// the two grids, and increments the generation counter.
    pub fn step(&mut self)
        requires
            old(self).wf(),
            old(self).spec_generation() < u64::MAX,
        ensures
            final(self).wf(),
            final(self).spec_generation() == old(self).spec_generation() + 1,
            final(self).spec_grid() == next_generation(
                old(self).spec_grid(),
                old(self).spec_rule(),
                old(self).spec_boundary(),
                old(self).spec_neighborhood(),
            ),
            final(self).spec_rule() == old(self).spec_rule(),
            final(self).spec_boundary() == old(self).spec_boundary(),
            final(self).spec_neighborhood() == old(self).spec_neighborhood(),
    {
        let w = self.grid.width();
        let h = self.grid.height();
        let ghost g0 = self.spec_grid();
        let ghost target = next_generation(
            g0,
            self.spec_rule(),
            self.spec_boundary(),
            self.spec_neighborhood(),
        );

        let mut y: usize = 0;
        while y < h
            invariant
                self.wf(),
                self.spec_grid() == g0,
                self.spec_rule() == old(self).spec_rule(),
                self.spec_boundary() == old(self).spec_boundary(),
                self.spec_neighborhood() == old(self).spec_neighborhood(),
                self.spec_generation() == old(self).spec_generation(),
                target == next_generation(
                    g0,
                    self.spec_rule(),
                    self.spec_boundary(),
                    self.spec_neighborhood(),
                ),
                w as nat == g0.width,
                h as nat == g0.height,
                y <= h,
                forall|i: int|
                    0 <= i < y * w ==> #[trigger] self.next_grid.model().cells[i]
                        == target.cells[i],
            decreases h - y,
        {
            let mut x: usize = 0;
            while x < w
                invariant
                    self.wf(),
                    self.spec_grid() == g0,
                    self.spec_rule() == old(self).spec_rule(),
                    self.spec_boundary() == old(self).spec_boundary(),
                    self.spec_neighborhood() == old(self).spec_neighborhood(),
                    self.spec_generation() == old(self).spec_generation(),
                    target == next_generation(
                        g0,
                        self.spec_rule(),
                        self.spec_boundary(),
                        self.spec_neighborhood(),
                    ),
                    w as nat == g0.width,
                    h as nat == g0.height,
                    y < h,
                    x <= w,
                    forall|i: int|
                        0 <= i < y * w + x ==> #[trigger] self.next_grid.model().cells[i]
                            == target.cells[i],
                decreases w - x,
            {
                let pos = Position::new(x, y);
                let current_state = self.grid.get(pos).unwrap();
                let alive_neighbors = self.count_alive_neighbors(pos);
                let next_state = self.rule.apply(current_state, alive_neighbors);
                self.next_grid.set(pos, next_state).unwrap();
                proof {
                    lemma_row_major_index_bounds(x as int, y as int, w as int, h as int);
                    vstd::arithmetic::div_mod::lemma_fundamental_div_mod_converse(
                        y * w + x,
                        w as int,
                        y as int,
                        x as int,
                    );
                }
                x = x + 1;
            }
            proof {
                assert((y + 1) * w == y * w + w) by (nonlinear_arith);
            }
            y = y + 1;
        }

        proof {
            assert(y * w == g0.width * g0.height) by (nonlinear_arith)
                requires
                    y == h,
                    w as nat == g0.width,
                    h as nat == g0.height,
            ;
            assert(self.next_grid.model().cells =~= target.cells);
            assert(self.next_grid.model() =~= target);
        }
        core::mem::swap(&mut self.grid, &mut self.next_grid);
        self.generation = self.generation + 1;
    }

    /// Advances the simulation by `steps` generations, one full step at a
    /// time.
    pub fn step_n(&mut self, steps: usize)
        requires
            old(self).wf(),
            old(self).spec_generation() + steps <= u64::MAX,
        ensures
            final(self).wf(),
            final(self).spec_generation() == old(self).spec_generation() + steps,
            final(self).spec_grid() == advance(
                old(self).spec_grid(),
                old(self).spec_rule(),
                old(self).spec_boundary(),
                old(self).spec_neighborhood(),
                steps as nat,
            ),
            final(self).spec_rule() == old(self).spec_rule(),
            final(self).spec_boundary() == old(self).spec_boundary(),
            final(self).spec_neighborhood() == old(self).spec_neighborhood(),
    {
        let mut k: usize = 0;
        while k < steps
            invariant
                self.wf(),
                k <= steps,
                old(self).spec_generation() + steps <= u64::MAX,
                self.spec_generation() == old(self).spec_generation() + k,
                self.spec_grid() == advance(
                    old(self).spec_grid(),
                    old(self).spec_rule(),
                    old(self).spec_boundary(),
                    old(self).spec_neighborhood(),
                    k as nat,
                ),
                self.spec_rule() == old(self).spec_rule(),
                self.spec_boundary() == old(self).spec_boundary(),
                self.spec_neighborhood() == old(self).spec_neighborhood(),
            decreases steps - k,
        {
            self.step();
            k = k + 1;
        }
    }
}

/// In an all-dead grid every offset contributes nothing, so each prefix of
/// the neighborhood counts zero alive neighbors.
proof fn lemma_neighbor_count_of_dead_up_to<B: Boundary, N: Neighborhood>(
    g: GridModel,
    b: B,
    n: N,
    x: int,
    y: int,
    k: int,
)
    requires
        g.wf(),
        g.all_dead(),
    ensures
        neighbor_count_up_to(g, b, n, x, y, k) == 0,
    decreases k,
{
    if k > 0 {
        lemma_neighbor_count_of_dead_up_to(g, b, n, x, y, k - 1);
        let off = n.spec_offsets()[k - 1];
        match b.spec_wrap(x + off.0, y + off.1, g.width, g.height) {
            Some(p) => {
                if g.in_bounds(p.x as int, p.y as int) {
                    lemma_row_major_index_bounds(
                        p.x as int,
                        p.y as int,
                        g.width as int,
                        g.height as int,
                    );
                }
            },
            None => {},
        }
    }
}

/// One generation computed from an all-dead grid is again all dead, for any
/// boundary and neighborhood and for any rule that keeps a dead cell with
/// zero alive neighbors dead.
proof fn lemma_next_generation_of_dead<R: Rule, B: Boundary, N: Neighborhood>(
    g: GridModel,
    r: R,
    b: B,
    n: N,
)
    requires
        g.wf(),
        g.all_dead(),
        r.spec_apply(CellState::Dead, 0) is Dead,
    ensures
        next_generation(g, r, b, n).wf(),
        next_generation(g, r, b, n).all_dead(),
{
    let g2 = next_generation(g, r, b, n);
    assert forall|i: int| 0 <= i < g2.cells.len() implies g2.cells[i] is Dead by {
        lemma_neighbor_count_of_dead_up_to(
            g,
            b,
            n,
            i % g.width as int,
            i / g.width as int,
            n.spec_offsets().len() as int,
        );
    }
}

/// Empty-grid invariance: an all-dead grid stays all-dead for any number of
/// generations, under any boundary and neighborhood, for any rule that
/// keeps a dead cell with zero alive neighbors dead (as Conway's rule
/// does).
pub proof fn lemma_empty_grid_invariant<R: Rule, B: Boundary, N: Neighborhood>(
    g: GridModel,
    r: R,
    b: B,
    n: N,
    k: nat,
)
    requires
        g.wf(),
        g.all_dead(),
        r.spec_apply(CellState::Dead, 0) is Dead,
    ensures
        advance(g, r, b, n, k).wf(),
        advance(g, r, b, n, k).all_dead(),
        advance(g, r, b, n, k).width == g.width,
        advance(g, r, b, n, k).height == g.height,
    decreases k,
{
    if k > 0 {
        lemma_empty_grid_invariant(g, r, b, n, (k - 1) as nat);
        lemma_next_generation_of_dead(advance(g, r, b, n, (k - 1) as nat), r, b, n);
    }
}

/// Determinism: the generation function has no hidden inputs, so two engines
/// holding equal grids and equal policies hold equal grids again after the
/// same number of steps.
pub proof fn lemma_advance_deterministic<R: Rule, B: Boundary, N: Neighborhood>(
    g1: GridModel,
    g2: GridModel,
    r: R,
    b: B,
    n: N,
    k: nat,
)
    requires
        g1 == g2,
    ensures
        advance(g1, r, b, n, k) == advance(g2, r, b, n, k),
{
}

/// Each dimension of a nonempty rectangle is at most the cell count.
proof fn lemma_dims_le_product(w: int, h: int)
    requires
        w >= 1,
        h >= 1,
    ensures
        w <= w * h,
        h <= w * h,
{
    assert(w <= w * h && h <= w * h) by (nonlinear_arith)
        requires
            w >= 1,
            h >= 1,
    ;
}

} // verus!
