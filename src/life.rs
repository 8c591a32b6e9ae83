//! The mathematical model of a grid and of the Game of Life rule.
//!
//! A grid is a `Seq<Seq<bool>>` of rows, each of the same width; cells
//! outside it do not exist (no wrap-around) and count as dead.
use vstd::prelude::*;

verus! {

/// Every row of `g` has length `w`.
pub open spec fn is_rect(g: Seq<Seq<bool>>, w: nat) -> bool {
    forall|i: int| 0 <= i < g.len() ==> #[trigger] g[i].len() == w
}

/// Whether `(i, j)` is a live cell of `g`; coordinates outside `g` are dead.
pub open spec fn alive_at(g: Seq<Seq<bool>>, i: int, j: int) -> bool {
    0 <= i < g.len() && 0 <= j < g[i].len() && g[i][j]
}

/// One for a live cell, zero for a dead one.
pub open spec fn bit(b: bool) -> nat {
    if b { 1 } else { 0 }
}

/// Number of live cells among the eight cells around `(i, j)`.
pub open spec fn neighbor_count(g: Seq<Seq<bool>>, i: int, j: int) -> nat {
    bit(alive_at(g, i - 1, j - 1)) + bit(alive_at(g, i - 1, j)) + bit(alive_at(g, i - 1, j + 1))
        + bit(alive_at(g, i, j - 1)) + bit(alive_at(g, i, j + 1))
        + bit(alive_at(g, i + 1, j - 1)) + bit(alive_at(g, i + 1, j)) + bit(alive_at(g, i + 1, j + 1))
}

/// The rule: a live cell with two or three live neighbours survives, a dead
/// cell with exactly three comes alive, every other cell is dead.
pub open spec fn next_state(alive: bool, neighbors: nat) -> bool {
    neighbors == 3 || (alive && neighbors == 2)
}

/// The next generation of `g`, computed from `g` as a whole.
pub open spec fn next_gen(g: Seq<Seq<bool>>) -> Seq<Seq<bool>> {
    Seq::new(
        g.len(),
        |i: int| Seq::new(g[i].len(), |j: int| next_state(g[i][j], neighbor_count(g, i, j))),
    )
}

/// `g` after `k` generations.
pub open spec fn generations(g: Seq<Seq<bool>>, k: nat) -> Seq<Seq<bool>>
    decreases k,
{
    if k == 0 {
        g
    } else {
        next_gen(generations(g, (k - 1) as nat))
    }
}

/// A grid of `h` rows and `w` columns that keeps the cells of `g` in the
/// overlapping top-left rectangle and is dead everywhere else.
pub open spec fn resized(g: Seq<Seq<bool>>, w: nat, h: nat) -> Seq<Seq<bool>> {
    Seq::new(h, |i: int| Seq::new(w, |j: int| alive_at(g, i, j)))
}

/// A grid of `h` rows and `w` columns, all dead.
pub open spec fn dead_grid(w: nat, h: nat) -> Seq<Seq<bool>> {
    Seq::new(h, |i: int| Seq::new(w, |j: int| false))
}

} // verus!
