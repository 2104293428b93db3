//! The two sources of chance: the process-wide generator of `quad_rand`,
//! which scatters spawns and particles, and a seeded PCG of `randomize`,
//! which picks upgrades.

use vstd::prelude::*;

verus! {

/// The stream that `randomize::PCG32::seed` sets for the selector `inc`:
/// the selector shifted up by one bit, with the lowest bit set.
pub open spec fn pcg32_stream(inc: u64) -> u64 {
    ((2 * inc + 1) % 0x1_0000_0000_0000_0000) as u64
}

/// One step of the state of a PCG32 generator: the state times the
/// multiplier of the generator, plus the stream, cut to 64 bits.
pub open spec fn pcg32_step(state: u64, stream: u64) -> u64 {
    ((state * 6364136223846793005 + stream) % 0x1_0000_0000_0000_0000) as u64
}

/// State and stream of the generator that `randomize::PCG32::seed` makes
/// from a seed and a stream selector: one step from nothing, the seed added,
/// and one more step.
pub open spec fn pcg32_seed(seed: u64, inc: u64) -> (u64, u64) {
    let stream = pcg32_stream(inc);
    let seeded = ((pcg32_step(0, stream) + seed) % 0x1_0000_0000_0000_0000) as u64;
    (pcg32_step(seeded, stream), stream)
}

/// The stream of a seeded generator is odd.
pub proof fn lemma_stream_is_odd(inc: u64)
    ensures
        pcg32_stream(inc) % 2 == 1,
{
}

/// What `randomize::RandRangeU32::new(low, high)` samples from the PCG32
/// generator with the given state and stream, and the state that the
/// generator is left in.
pub uninterp spec fn pcg32_sample(state: u64, inc: u64, low: u32, high: u32) -> (u32, u64);

/// Calls `randomize::PCG32::seed` and hands out the generator's two public
/// fields. The source sets the stream to `(inc << 1) | 1`, steps the state
/// once from zero, adds the seed, and steps it once more, all in wrapping
/// 64-bit arithmetic; `pcg32_seed` says the same.
#[verifier::external_body]
pub(crate) fn seeded_generator(seed: u64, inc: u64) -> (g: (u64, u64))
    ensures
        g == pcg32_seed(seed, inc),
{
    let gen = randomize::PCG32::seed(seed, inc);
    (gen.state, gen.inc)
}

/// Calls `randomize::RandRangeU32::new(low, high).sample(..)` on the PCG32
/// generator with the given public fields. The sample lies in the inclusive
/// range. The range must not span all of `u32`, where `new` divides by zero,
/// and the stream must be odd: only then does the generator run through
/// every state, so that the rejection loop of `sample` ends.
#[verifier::external_body]
pub(crate) fn sample_inclusive(state: u64, inc: u64, low: u32, high: u32) -> (r: (u32, u64))
    requires
        low <= high,
        high - low < u32::MAX,
        inc % 2 == 1,
    ensures
        r == pcg32_sample(state, inc, low, high),
        low <= r.0 <= high,
{
    let mut gen = randomize::PCG32 { state, inc };
    let value = randomize::RandRangeU32::new(low, high).sample(&mut gen);
    (value, gen.state)
}

/// Calls `quad_rand::gen_range` on two `i32` bounds. The function scales a
/// 32-bit draw from the process-wide generator into `[low, high)` as a
/// double and cuts the fraction off; with bounds of at most a million in
/// size the double is exact, and with a positive `high` the cut cannot
/// reach `high`.
#[verifier::external_body]
pub(crate) fn random_in_range(low: i32, high: i32) -> (r: i32)
    requires
        -1_000_000 <= low < high <= 1_000_000,
        0 < high,
    ensures
        low <= r < high,
{
    quad_rand::gen_range(low, high)
}

} // verus!
