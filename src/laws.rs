//! Properties of the model that hold for every grid.
use vstd::prelude::*;
use crate::life::{alive_at, generations, is_rect, neighbor_count, next_gen, resized};
use crate::seeding::seeded_grid;

verus! {

/// Refilling from a seed depends on the seed and the dimensions alone: two
/// grids of the same dimensions, whatever they held, are refilled to the
/// same cells, and the result has those dimensions.
pub proof fn reseeding_is_reproducible(seed: u64, g1: Seq<Seq<bool>>, g2: Seq<Seq<bool>>, w: nat)
    requires
        is_rect(g1, w),
        is_rect(g2, w),
        g1.len() == g2.len(),
    ensures
        seeded_grid(seed, w, g1.len()) == seeded_grid(seed, w, g2.len()),
        seeded_grid(seed, w, g1.len()).len() == g1.len(),
        is_rect(seeded_grid(seed, w, g1.len()), w),
{
}

/// A generation never changes the grid's dimensions, however many are run.
pub proof fn generations_keep_shape(g: Seq<Seq<bool>>, w: nat, k: nat)
    requires
        is_rect(g, w),
    ensures
        generations(g, k).len() == g.len(),
        is_rect(generations(g, k), w),
    decreases k,
{
    if k > 0 {
        generations_keep_shape(g, w, (k - 1) as nat);
    }
}

/// A cell never has more than eight live neighbours.
pub proof fn neighbor_count_at_most_eight(g: Seq<Seq<bool>>, i: int, j: int)
    ensures
        neighbor_count(g, i, j) <= 8,
{
}

/// A corner cell of a grid of at least two rows and two columns has at most
/// three live neighbours: the other five lie outside the grid.
pub proof fn corner_has_at_most_three_neighbors(g: Seq<Seq<bool>>, w: nat, i: int, j: int)
    requires
        is_rect(g, w),
        g.len() >= 2,
        w >= 2,
        i == 0 || i == g.len() - 1,
        j == 0 || j == w - 1,
    ensures
        neighbor_count(g, i, j) <= 3,
{
    assert(g[i].len() == w);
    if i > 0 {
        assert(g[i - 1].len() == w);
    }
    if i + 1 < g.len() {
        assert(g[i + 1].len() == w);
    }
}

/// A live cell with every other cell dead dies of underpopulation, and the
/// whole next generation is dead.
pub proof fn isolated_cell_dies(g: Seq<Seq<bool>>, w: nat, r: int, c: int)
    requires
        is_rect(g, w),
        0 <= r < g.len(),
        0 <= c < w,
        forall|i: int, j: int|
            0 <= i < g.len() && 0 <= j < w && !(i == r && j == c) ==> !#[trigger] g[i][j],
    ensures
        !next_gen(g)[r][c],
        forall|i: int, j: int| 0 <= i < g.len() && 0 <= j < w ==> !#[trigger] next_gen(g)[i][j],
{
    assert forall|i: int, j: int| 0 <= i < g.len() && 0 <= j < w implies !#[trigger] next_gen(
        g,
    )[i][j] by {
        assert forall|a: int, b: int| !(a == r && b == c) implies !#[trigger] alive_at(g, a, b) by {
            if 0 <= a < g.len() {
                assert(g[a].len() == w);
            }
        }
        assert(g[i].len() == w);
        assert(neighbor_count(g, i, j) <= 1);
    }
}

/// `(i, j)` lies in the 2x2 square whose top-left cell is `(r, c)`.
pub open spec fn in_square(r: int, c: int, i: int, j: int) -> bool {
    r <= i <= r + 1 && c <= j <= c + 1
}

/// The grid is dead everywhere but on the 2x2 square whose top-left cell is
/// `(r, c)`.
pub open spec fn is_lone_block(g: Seq<Seq<bool>>, w: nat, r: int, c: int) -> bool {
    &&& is_rect(g, w)
    &&& 0 <= r && r + 1 < g.len()
    &&& 0 <= c && c + 1 < w
    &&& forall|i: int, j: int|
        0 <= i < g.len() && 0 <= j < w ==> #[trigger] g[i][j] == in_square(r, c, i, j)
}

/// A lone 2x2 block is a still life: no number of generations changes it,
/// wherever it stands in the grid.
pub proof fn block_is_still_life(g: Seq<Seq<bool>>, w: nat, r: int, c: int, k: nat)
    requires
        is_lone_block(g, w, r, c),
    ensures
        generations(g, k) == g,
    decreases k,
{
    if k > 0 {
        block_is_still_life(g, w, r, c, (k - 1) as nat);
        assert forall|a: int, b: int| #[trigger] alive_at(g, a, b) == in_square(r, c, a, b) by {
            if 0 <= a < g.len() {
                assert(g[a].len() == w);
            }
        }
        assert forall|i: int| 0 <= i < g.len() implies #[trigger] next_gen(g)[i] =~= g[i] by {
            assert(g[i].len() == w);
        }
        assert(next_gen(g) =~= g);
    }
}

/// Growing keeps every old cell and adds only dead ones.
pub proof fn grow_keeps_overlap(g: Seq<Seq<bool>>, w: nat, new_w: nat, new_h: nat)
    requires
        is_rect(g, w),
        new_w >= w,
        new_h >= g.len(),
    ensures
        resized(g, new_w, new_h).len() == new_h,
        is_rect(resized(g, new_w, new_h), new_w),
        forall|i: int, j: int|
            0 <= i < g.len() && 0 <= j < w ==> #[trigger] resized(g, new_w, new_h)[i][j] == g[i][j],
        forall|i: int, j: int|
            0 <= i < new_h && 0 <= j < new_w && !(i < g.len() && j < w) ==> !#[trigger] resized(
                g,
                new_w,
                new_h,
            )[i][j],
{
    assert forall|i: int, j: int|
        0 <= i < new_h && 0 <= j < new_w implies #[trigger] resized(g, new_w, new_h)[i][j] == (i
        < g.len() && j < w && g[i][j]) by {
        if i < g.len() {
            assert(g[i].len() == w);
        }
    }
}

/// Shrinking loses the cells outside the smaller grid for good: growing
/// back to the old size keeps the overlap and brings only dead cells back.
pub proof fn shrink_then_grow_loses_cut_cells(
    g: Seq<Seq<bool>>,
    w: nat,
    small_w: nat,
    small_h: nat,
)
    requires
        is_rect(g, w),
        small_w <= w,
        small_h <= g.len(),
    ensures
        ({
            let back = resized(resized(g, small_w, small_h), w, g.len());
            &&& back.len() == g.len()
            &&& is_rect(back, w)
            &&& forall|i: int, j: int|
                0 <= i < small_h && 0 <= j < small_w ==> #[trigger] back[i][j] == g[i][j]
            &&& forall|i: int, j: int|
                0 <= i < g.len() && 0 <= j < w && !(i < small_h && j < small_w) ==> !#[trigger] back[i][j]
        }),
{
    let small = resized(g, small_w, small_h);
    let back = resized(small, w, g.len());
    assert forall|i: int, j: int| 0 <= i < g.len() && 0 <= j < w implies #[trigger] back[i][j] == (i
        < small_h && j < small_w && g[i][j]) by {
        if i < small_h {
            assert(small[i].len() == small_w);
            assert(g[i].len() == w);
        }
    }
}

} // verus!
