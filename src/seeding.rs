//! Reproducible random fill of a grid from a 64-bit seed.
use vstd::prelude::*;

verus! {

/// The `k`-th fair coin (`true` with probability one half) drawn from the
/// standard generator seeded with `seed`.
pub uninterp spec fn seeded_draw(seed: u64, k: nat) -> bool;

/// The grid of `h` rows and `w` columns filled from `seed`: draws are
/// consumed in row-major order, one per cell.
pub open spec fn seeded_grid(seed: u64, w: nat, h: nat) -> Seq<Seq<bool>> {
    Seq::new(h, |i: int| Seq::new(w, |j: int| seeded_draw(seed, (i * w + j) as nat)))
}

/// Relies on rand's `StdRng::seed_from_u64`, `Bernoulli::from_ratio(1, 2)`
/// and `Rng::sample_iter`: the generator's stream is a function of the seed,
/// so the first `n` coins drawn from it depend on `seed` and `n` alone, and
/// the `k`-th of them does not depend on `n`.
#[verifier::external_body]
pub(crate) fn fair_coins(seed: u64, n: usize) -> (r: Vec<bool>)
    ensures
        r@.len() == n,
        forall|k: int| 0 <= k < n ==> r@[k] == seeded_draw(seed, k as nat),
{
    let coin = rand::distributions::Bernoulli::from_ratio(1, 2).unwrap();
    let rng: rand::rngs::StdRng = rand::SeedableRng::seed_from_u64(seed);
    rand::Rng::sample_iter(rng, coin).take(n).collect()
}

} // verus!
