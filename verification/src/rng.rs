use vstd::prelude::*;

use crate::fp::{lerp, spec_lerp, Double};

verus! {

/// What one unit-interval draw from a freshly seeded generator yields: the
/// state the generator holds afterwards (`.0`) and the bit pattern of the
/// drawn double in `[0, 1]` (`.1`). Deterministic in the seed, as fastrand
/// documents.
pub uninterp spec fn unit_step(state: u64) -> (u64, u64);

/// The index a freshly seeded generator draws from `0..upper`.
/// Deterministic in the seed and the bound.
pub uninterp spec fn usize_draw(state: u64, upper: usize) -> usize;

/// Relies on `fastrand::Rng::{with_seed, f64_inclusive, get_seed}`:
/// `with_seed` stores the seed as the generator state, `f64_inclusive` draws
/// a double in `[0, 1]` and advances the state, and both the value and the
/// new state depend on the seed alone.
#[verifier::external_body]
pub(crate) fn rand_unit_step(state: u64) -> (r: (u64, Double))
    ensures
        r.0 == unit_step(state).0,
        r.1.bits == unit_step(state).1,
{
    let mut rng = fastrand::Rng::with_seed(state);
    let v = rng.f64_inclusive();
    (rng.get_seed(), Double { bits: v.to_bits() })
}

/// Relies on `fastrand::Rng::{with_seed, usize}`: the draw from `0..upper` is
/// below `upper` and depends on the seed and the bound alone. `usize` panics
/// on an empty range, so the bound must be positive.
#[verifier::external_body]
pub(crate) fn rand_index(state: u64, upper: usize) -> (r: usize)
    requires
        upper >= 1,
    ensures
        r == usize_draw(state, upper),
        r < upper,
{
    let mut rng = fastrand::Rng::with_seed(state);
    rng.usize(0..upper)
}

/// Relies on `fastrand::get_seed`: the seed the process-wide generator
/// currently holds. Nothing is promised of the value; a run that adopts it
/// is reproducible only by supplying the same seed explicitly.
#[verifier::external_body]
pub(crate) fn process_seed() -> u64 {
    fastrand::get_seed()
}

/// Bit pattern of a draw scaled into `[lo, hi]` by linear interpolation.
pub open spec fn spec_rand_range(state: u64, lo: u64, hi: u64) -> u64 {
    spec_lerp(lo, hi, unit_step(state).1)
}

/// One uniform draw from `[lo, hi]`: returns the generator state after the
/// draw and the drawn value.
pub fn rand_range(state: u64, lo: Double, hi: Double) -> (r: (u64, Double))
    ensures
        r.0 == unit_step(state).0,
        r.1.bits == spec_rand_range(state, lo.bits, hi.bits),
{
    let (next, u) = rand_unit_step(state);
    (next, lerp(lo, hi, u))
}

} // verus!
