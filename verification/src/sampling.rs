//! Randomness for generation: a seeded generator, uniform draws through
//! `rand`, and a verified centered (triangular) sampler built on them.

use vstd::prelude::*;

verus! {

/// Declares rand's `StdRng` so that it can stand in fields and
/// signatures; its values are opaque here.
#[verifier::external_type_specification]
#[verifier::external_body]
pub struct ExStdRng(rand::rngs::StdRng);

/// Everything a generation step may consume: the random generator and the
/// name table the stars draw from.
pub struct GenCtx {
    pub rng: rand::rngs::StdRng,
    pub names: Vec<String>,
}

impl GenCtx {
    /// A generation context over the given name table, deterministic in
    /// the seed.
    pub fn new(seed: u64, names: Vec<String>) -> (ctx: GenCtx)
        ensures
            ctx.names == names,
    {
        GenCtx { rng: seeded_rng(seed), names }
    }
}

/// Relies on rand's `SeedableRng::seed_from_u64` to build a `StdRng`; the
/// generator is opaque, so nothing is claimed of it.
#[verifier::external_body]
fn seeded_rng(seed: u64) -> rand::rngs::StdRng {
    <rand::rngs::StdRng as rand::SeedableRng>::seed_from_u64(seed)
}

/// Relies on rand's `Rng::gen_range` over the inclusive range `lo..=hi`,
/// which is non-empty here, to return a value inside that range.
#[verifier::external_body]
pub(crate) fn sample_uniform(rng: &mut rand::rngs::StdRng, lo: u64, hi: u64) -> (sample: u64)
    requires
        lo <= hi,
    ensures
        lo <= sample <= hi,
{
    rand::Rng::gen_range(rng, lo..=hi)
}

/// Relies on rand's `Rng::gen_range` over `0..n`, which is non-empty here,
/// to return an index below `n`.
#[verifier::external_body]
pub(crate) fn sample_index(rng: &mut rand::rngs::StdRng, n: usize) -> (index: usize)
    requires
        1 <= n,
    ensures
        index < n,
{
    rand::Rng::gen_range(rng, 0..n)
}

/// A sample centered on `mean` with the given `spread`: the mean of two
/// uniform draws, a triangular stand-in for a normal distribution, always
/// inside `[mean - spread, mean + spread]`.
pub fn sample_centered(rng: &mut rand::rngs::StdRng, mean: u64, spread: u64) -> (sample: u64)
    requires
        spread <= mean,
        mean <= 1_000_000_000_000,
    ensures
        mean - spread <= sample <= mean + spread,
{
    let a = sample_uniform(rng, 0, 2 * spread);
    let b = sample_uniform(rng, 0, 2 * spread);
    mean - spread + (a + b) / 2
}

} // verus!
