//! The simulation state: a rectangular grid of cells plus run and seed
//! metadata, mutated in place once per tick of the host loop.
use vstd::prelude::*;
use crate::life::{alive_at, dead_grid, is_rect, neighbor_count, next_gen, next_state, resized};
use crate::schedule::{clock_millis, is_step_due, step_due};
use crate::seed_text::{parse_seed, parsed_seed};
use crate::seeding::{fair_coins, seeded_grid};

verus! {

/// What a [`GameOfLife`] holds, as mathematical values.
pub struct LifeState {
    /// The grid, row by row.
    pub cells: Seq<Seq<bool>>,
    /// Number of columns; kept apart so that it survives a grid of no rows.
    pub width: nat,
    pub running: bool,
    pub seed: u64,
    /// Time of the last generation, in milliseconds.
    pub last_update_ms: int,
}

/// What one tick at time `now_ms` makes of `before`: the grid is fitted to
/// `display_width / cell_size` columns and `display_height / cell_size` rows
/// (floored), then advanced by one generation if one is due, in which case
/// the time of the last generation becomes `now_ms`. Run flag and seed stay.
pub open spec fn ticked(
    before: LifeState,
    after: LifeState,
    display_width: nat,
    display_height: nat,
    cell_size: nat,
    now_ms: int,
) -> bool {
    let fitted = resized(before.cells, display_width / cell_size, display_height / cell_size);
    &&& after.width == display_width / cell_size
    &&& after.running == before.running
    &&& after.seed == before.seed
    &&& if is_step_due(before.running, before.last_update_ms, now_ms) {
        &&& after.cells == next_gen(fitted)
        &&& after.last_update_ms == now_ms
    } else {
        &&& after.cells == fitted
        &&& after.last_update_ms == before.last_update_ms
    }
}

/// The simulation state object.
pub struct GameOfLife {
    grid: Vec<Vec<bool>>,
    width: usize,
    last_update_ms: i64,
    running: bool,
    seed: u64,
}

impl View for GameOfLife {
    type V = LifeState;

    closed spec fn view(&self) -> LifeState {
        LifeState {
            cells: rows_of(self.grid@),
            width: self.width as nat,
            running: self.running,
            seed: self.seed,
            last_update_ms: self.last_update_ms as int,
        }
    }
}

/// The contents of a vector of rows.
pub closed spec fn rows_of(grid: Seq<Vec<bool>>) -> Seq<Seq<bool>> {
    Seq::new(grid.len(), |i: int| grid[i]@)
}

/// A row of `w` dead cells.
fn dead_row(w: usize) -> (r: Vec<bool>)
    ensures
        r@ == Seq::new(w as nat, |j: int| false),
{
    let mut row: Vec<bool> = Vec::with_capacity(w);
    for j in 0..w
        invariant
            row@ == Seq::new(j as nat, |l: int| false),
    {
        row.push(false);
        assert(row@ =~= Seq::new((j + 1) as nat, |l: int| false));
    }
    row
}

impl GameOfLife {
    /// The grid is rectangular, and its cell count fits in a `usize`.
    pub open spec fn wf(&self) -> bool {
        &&& is_rect(self@.cells, self@.width)
        &&& self@.cells.len() * self@.width <= usize::MAX
    }

    /// A square grid of `size` by `size` dead cells, not running.
    pub fn new(size: usize, seed: u64) -> (r: Self)
        requires
            size * size <= usize::MAX,
        ensures
            r.wf(),
            r@.cells == dead_grid(size as nat, size as nat),
            r@.width == size,
            !r@.running,
            r@.seed == seed,
    {
        let mut grid: Vec<Vec<bool>> = Vec::with_capacity(size);
        for i in 0..size
            invariant
                grid@.len() == i,
                forall|k: int| 0 <= k < i ==> #[trigger] grid@[k]@ == Seq::new(size as nat, |j: int| false),
        {
            let row = dead_row(size);
            grid.push(row);
        }
        let r = GameOfLife {
            grid,
            width: size,
            last_update_ms: clock_millis(),
            running: false,
            seed,
        };
        assert(r@.cells =~= dead_grid(size as nat, size as nat));
        r
    }

    /// Whether `(row, col)` is a live cell; coordinates outside the grid are dead.
    pub fn is_alive(&self, row: usize, col: usize) -> (r: bool)
        requires
            self.wf(),
        ensures
            r == alive_at(self@.cells, row as int, col as int),
    {
        row < self.grid.len() && col < self.grid[row].len() && self.grid[row][col]
    }

    /// Number of live cells among the eight around `(row, col)`, clipped at
    /// the grid's edges.
    pub fn live_neighbor_count(&self, row: usize, col: usize) -> (r: usize)
        requires
            self.wf(),
        ensures
            r == neighbor_count(self@.cells, row as int, col as int),
            r <= 8,
    {
        let h = self.grid.len();
        let up = row > 0;
        let down = row < usize::MAX;
        let left = col > 0;
        let right = col < usize::MAX;
        proof {
            let g = self@.cells;
            assert(g.len() == h);
            assert forall|d: int| !down implies !#[trigger] alive_at(g, row + 1, d) by {}
            assert forall|d: int| !right implies !#[trigger] alive_at(g, d, col + 1) by {
                if !right && 0 <= d < g.len() {
                    assert(g[d].len() == self@.width);
                    assert(self@.width <= usize::MAX) by {
                        if g.len() > 0 {
                            assert(g.len() * self@.width >= self@.width) by (nonlinear_arith)
                                requires g.len() > 0;
                        }
                    }
                }
            }
        }
        let mut count: usize = 0;
        if up && left && self.is_alive(row - 1, col - 1) {
            count += 1;
        }
        if up && self.is_alive(row - 1, col) {
            count += 1;
        }
        if up && right && self.is_alive(row - 1, col + 1) {
            count += 1;
        }
        if left && self.is_alive(row, col - 1) {
            count += 1;
        }
        if right && self.is_alive(row, col + 1) {
            count += 1;
        }
        if down && left && self.is_alive(row + 1, col - 1) {
            count += 1;
        }
        if down && self.is_alive(row + 1, col) {
            count += 1;
        }
        if down && right && self.is_alive(row + 1, col + 1) {
            count += 1;
        }
        count
    }

    /// Replaces the grid by its next generation, computed from a frozen
    /// copy of the current one. The dimensions do not change.
    pub fn update_game_logic(&mut self)
        requires
            old(self).wf(),
        ensures
            final(self).wf(),
            final(self)@.cells == next_gen(old(self)@.cells),
            final(self)@.cells.len() == old(self)@.cells.len(),
            final(self)@.width == old(self)@.width,
            final(self)@.running == old(self)@.running,
            final(self)@.seed == old(self)@.seed,
            final(self)@.last_update_ms == old(self)@.last_update_ms,
    {
        let h = self.grid.len();
        let w = self.width;
        let ghost g = self@.cells;
        let mut new_grid: Vec<Vec<bool>> = Vec::with_capacity(h);
        for i in 0..h
            invariant
                self.wf(),
                self@.cells == g,
                h == g.len(),
                w == self@.width,
                new_grid@.len() == i,
                forall|k: int| 0 <= k < i ==> #[trigger] new_grid@[k]@ == next_gen(g)[k],
        {
            assert(g[i as int].len() == w);
            let mut row: Vec<bool> = Vec::with_capacity(w);
            for j in 0..w
                invariant
                    self.wf(),
                    self@.cells == g,
                    h == g.len(),
                    i < h,
                    w == self@.width,
                    g[i as int].len() == w,
                    row@.len() == j,
                    forall|l: int| 0 <= l < j ==> #[trigger] row@[l] == next_state(
                        g[i as int][l],
                        neighbor_count(g, i as int, l),
                    ),
            {
                let n = self.live_neighbor_count(i, j);
                let alive = self.grid[i][j];
                assert(alive == g[i as int][j as int]);
                row.push(n == 3 || (alive && n == 2));
            }
            assert(row@ =~= next_gen(g)[i as int]);
            new_grid.push(row);
        }
        self.grid = new_grid;
        assert(self@.cells =~= next_gen(g));
    }

    /// Gives the grid `new_height` rows of `new_width` cells, keeping the
    /// overlapping top-left rectangle; every other cell is dead.
    pub fn resize_grid(&mut self, new_width: usize, new_height: usize)
        requires
            old(self).wf(),
            new_width * new_height <= usize::MAX,
        ensures
            final(self).wf(),
            final(self)@.cells == resized(old(self)@.cells, new_width as nat, new_height as nat),
            final(self)@.width == new_width,
            final(self)@.running == old(self)@.running,
            final(self)@.seed == old(self)@.seed,
            final(self)@.last_update_ms == old(self)@.last_update_ms,
    {
        let ghost g = self@.cells;
        let mut new_grid: Vec<Vec<bool>> = Vec::with_capacity(new_height);
        for i in 0..new_height
            invariant
                self.wf(),
                self@.cells == g,
                new_grid@.len() == i,
                forall|k: int| 0 <= k < i ==> #[trigger] new_grid@[k]@ == resized(
                    g,
                    new_width as nat,
                    new_height as nat,
                )[k],
        {
            let mut row: Vec<bool> = Vec::with_capacity(new_width);
            for j in 0..new_width
                invariant
                    self.wf(),
                    self@.cells == g,
                    row@.len() == j,
                    forall|l: int| 0 <= l < j ==> #[trigger] row@[l] == alive_at(g, i as int, l),
            {
                row.push(self.is_alive(i, j));
            }
            assert(row@ =~= resized(g, new_width as nat, new_height as nat)[i as int]);
            new_grid.push(row);
        }
        self.grid = new_grid;
        self.width = new_width;
        assert(self@.cells =~= resized(g, new_width as nat, new_height as nat));
        proof {
            assert(is_rect(self@.cells, new_width as nat));
            assert(self@.cells.len() * self@.width <= usize::MAX) by (nonlinear_arith)
                requires
                    self@.cells.len() == new_height,
                    self@.width == new_width,
                    new_width * new_height <= usize::MAX,
            ;
        }
    }

    /// Fills every cell from `seed`, one fair coin per cell in row-major
    /// order. The same seed and dimensions always give the same grid.
    pub fn reset_grid(&mut self, seed: u64)
        requires
            old(self).wf(),
        ensures
            final(self).wf(),
            final(self)@.cells == seeded_grid(seed, old(self)@.width, old(self)@.cells.len()),
            final(self)@.width == old(self)@.width,
            final(self)@.running == old(self)@.running,
            final(self)@.seed == old(self)@.seed,
            final(self)@.last_update_ms == old(self)@.last_update_ms,
    {
        let h = self.grid.len();
        let w = self.width;
        let coins = fair_coins(seed, h * w);
        let mut new_grid: Vec<Vec<bool>> = Vec::with_capacity(h);
        let mut k: usize = 0;
        proof {
            assert(0 * w == 0) by (nonlinear_arith);
        }
        for i in 0..h
            invariant
                h * w <= usize::MAX,
                coins@.len() == h * w,
                forall|m: int| 0 <= m < h * w ==> coins@[m] == #[trigger] crate::seeding::seeded_draw(seed, m as nat),
                k == i * w,
                new_grid@.len() == i,
                forall|r: int| 0 <= r < i ==> #[trigger] new_grid@[r]@ == seeded_grid(
                    seed,
                    w as nat,
                    h as nat,
                )[r],
        {
            proof {
                assert((i + 1) * w <= h * w) by (nonlinear_arith)
                    requires i < h;
                assert((i + 1) * w == i * w + w) by (nonlinear_arith);
            }
            let mut row: Vec<bool> = Vec::with_capacity(w);
            for j in 0..w
                invariant
                    h * w <= usize::MAX,
                    (i + 1) * w <= h * w,
                    (i + 1) * w == i * w + w,
                    coins@.len() == h * w,
                    forall|m: int| 0 <= m < h * w ==> coins@[m] == #[trigger] crate::seeding::seeded_draw(seed, m as nat),
                    k == i * w + j,
                    row@.len() == j,
                    forall|l: int| 0 <= l < j ==> #[trigger] row@[l] == crate::seeding::seeded_draw(
                        seed,
                        (i * w + l) as nat,
                    ),
            {
                row.push(coins[k]);
                k = k + 1;
            }
            assert(row@ =~= seeded_grid(seed, w as nat, h as nat)[i as int]);
            new_grid.push(row);
        }
        self.grid = new_grid;
        assert(self@.cells =~= seeded_grid(seed, w as nat, h as nat));
    }

    /// Starts a run from `seed` at time `now_ms`: the grid is refilled from
    /// the seed, the seed is kept, and the simulation runs.
    pub fn start_seeded(&mut self, seed: u64, now_ms: i64)
        requires
            old(self).wf(),
        ensures
            final(self).wf(),
            final(self)@.cells == seeded_grid(seed, old(self)@.width, old(self)@.cells.len()),
            final(self)@.width == old(self)@.width,
            final(self)@.running,
            final(self)@.seed == seed,
            final(self)@.last_update_ms == now_ms,
    {
        self.seed = seed;
        self.reset_grid(seed);
        self.running = true;
        self.last_update_ms = now_ms;
    }

    /// Starts a run from the seed written in `seed_text`. Text that is not
    /// an unsigned 64-bit decimal integer leaves the whole state unchanged.
    pub fn start(&mut self, seed_text: &str)
        requires
            old(self).wf(),
        ensures
            final(self).wf(),
            match parsed_seed(seed_text@) {
                None => final(self)@ == old(self)@,
                Some(seed) => {
                    &&& final(self)@.cells == seeded_grid(
                        seed,
                        old(self)@.width,
                        old(self)@.cells.len(),
                    )
                    &&& final(self)@.width == old(self)@.width
                    &&& final(self)@.running
                    &&& final(self)@.seed == seed
                },
            },
    {
        match parse_seed(seed_text) {
            Some(seed) => {
                let now = clock_millis();
                self.start_seeded(seed, now);
            },
            None => {},
        }
    }

    /// Stops a running simulation or resumes a stopped one; nothing else
    /// changes.
    pub fn toggle_running(&mut self)
        requires
            old(self).wf(),
        ensures
            final(self).wf(),
            final(self)@.running == !old(self)@.running,
            final(self)@.cells == old(self)@.cells,
            final(self)@.width == old(self)@.width,
            final(self)@.seed == old(self)@.seed,
            final(self)@.last_update_ms == old(self)@.last_update_ms,
    {
        self.running = !self.running;
    }

    /// One tick of the host loop at time `now_ms`: the grid is first fitted
    /// to the display area (`display_width` by `display_height`, in the unit
    /// of `cell_size`), then advanced by one generation if one is due.
    pub fn update_at(&mut self, display_width: usize, display_height: usize, cell_size: usize, now_ms: i64)
        requires
            old(self).wf(),
            cell_size > 0,
            (display_width / cell_size) * (display_height / cell_size) <= usize::MAX,
        ensures
            final(self).wf(),
            ticked(
                old(self)@,
                final(self)@,
                display_width as nat,
                display_height as nat,
                cell_size as nat,
                now_ms as int,
            ),
    {
        let new_width = display_width / cell_size;
        let new_height = display_height / cell_size;
        if new_width != self.width || new_height != self.grid.len() {
            self.resize_grid(new_width, new_height);
        } else {
            proof {
                let g = self@.cells;
                assert(g =~= resized(g, new_width as nat, new_height as nat)) by {
                    assert forall|i: int| 0 <= i < g.len() implies g[i] =~= resized(
                        g,
                        new_width as nat,
                        new_height as nat,
                    )[i] by {
                        assert(g[i].len() == new_width);
                    }
                }
            }
        }
        if step_due(self.running, self.last_update_ms, now_ms) {
            self.update_game_logic();
            self.last_update_ms = now_ms;
        }
    }

    /// One tick of the host loop at the current time: the result is that of
    /// [`GameOfLife::update_at`] at some instant read from the clock.
    pub fn update(&mut self, display_width: usize, display_height: usize, cell_size: usize)
        requires
            old(self).wf(),
            cell_size > 0,
            (display_width / cell_size) * (display_height / cell_size) <= usize::MAX,
        ensures
            final(self).wf(),
            exists|now_ms: i64|
                #[trigger] ticked(
                    old(self)@,
                    final(self)@,
                    display_width as nat,
                    display_height as nat,
                    cell_size as nat,
                    now_ms as int,
                ),
    {
        let now = clock_millis();
        self.update_at(display_width, display_height, cell_size, now);
        assert(ticked(
            old(self)@,
            self@,
            display_width as nat,
            display_height as nat,
            cell_size as nat,
            now as int,
        ));
    }

    /// Number of rows.
    pub fn rows(&self) -> (r: usize)
        ensures
            r == self@.cells.len(),
    {
        self.grid.len()
    }

    /// Number of columns.
    pub fn cols(&self) -> (r: usize)
        ensures
            r == self@.width,
    {
        self.width
    }

    pub fn is_running(&self) -> (r: bool)
        ensures
            r == self@.running,
    {
        self.running
    }

    /// The seed of the last start.
    pub fn seed(&self) -> (r: u64)
        ensures
            r == self@.seed,
    {
        self.seed
    }

    /// Sets the cell at `(row, col)` alive or dead.
    pub fn set_cell(&mut self, row: usize, col: usize, alive: bool)
        requires
            old(self).wf(),
            row < old(self)@.cells.len(),
            col < old(self)@.width,
        ensures
            final(self).wf(),
            final(self)@.cells == old(self)@.cells.update(
                row as int,
                old(self)@.cells[row as int].update(col as int, alive),
            ),
            final(self)@.width == old(self)@.width,
            final(self)@.running == old(self)@.running,
            final(self)@.seed == old(self)@.seed,
            final(self)@.last_update_ms == old(self)@.last_update_ms,
    {
        let ghost g = self@.cells;
        let mut r = Vec::new();
        std::mem::swap(&mut r, &mut self.grid[row]);
        assert(r@ == g[row as int]);
        assert(r@.len() == old(self)@.width);
        r.set(col, alive);
        self.grid.set(row, r);
        assert(self@.cells =~= g.update(row as int, g[row as int].update(col as int, alive)));
    }
}

} // verus!
