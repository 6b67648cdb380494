use vstd::prelude::*;

use crate::complex::Complex;
use crate::fp::{Double, F_NEG_THREE_HALVES, F_ONE, F_ZERO};
use crate::kernel::{mandelbrot, spec_escape_steps, MandelbrotConfig};
use crate::rng::{unit_step, rand_range, spec_rand_range};

verus! {

/// The generator state after `k` rejection-sampling candidates have been
/// drawn (each candidate consumes two draws: x, then y).
pub open spec fn cand_state(s0: u64, k: nat) -> u64
    decreases k,
{
    if k == 0 {
        s0
    } else {
        unit_step(unit_step(cand_state(s0, (k - 1) as nat)).0).0
    }
}

/// The x coordinate of the `k`-th candidate (`k >= 1`), drawn uniformly from
/// `[-1.5, 1.0]`.
pub open spec fn cand_x_bits(s0: u64, k: nat) -> u64 {
    spec_rand_range(cand_state(s0, (k - 1) as nat), F_NEG_THREE_HALVES, F_ONE)
}

/// The y coordinate of the `k`-th candidate (`k >= 1`), drawn uniformly from
/// `[0.0, 1.0]` with the second draw.
pub open spec fn cand_y_bits(s0: u64, k: nat) -> u64 {
    spec_rand_range(unit_step(cand_state(s0, (k - 1) as nat)).0, F_ZERO, F_ONE)
}

/// The `k`-th candidate center point.
pub open spec fn cand_point(s0: u64, k: nat) -> Complex {
    Complex::spec_new(cand_x_bits(s0, k), cand_y_bits(s0, k))
}

/// The escape-step count of the `k`-th candidate.
pub open spec fn cand_steps(s0: u64, k: nat, cfg: MandelbrotConfig) -> u32 {
    spec_escape_steps(cand_point(s0, k), cfg)
}

/// Whether the `k`-th candidate is accepted: its step count lies strictly
/// within `[min_steps, max_steps)`.
pub open spec fn cand_accepted(s0: u64, k: nat, cfg: MandelbrotConfig) -> bool {
    cfg.min_steps <= cand_steps(s0, k, cfg) < cfg.max_steps
}

/// The hard ceiling on rejection-sampling attempts. Sampling terminates
/// almost surely long before this; the bound only makes termination a
/// theorem rather than a probability-1 event.
pub const MAX_CENTER_ATTEMPTS: u64 = 0xffff_ffff_ffff_ffff;

/// Whether any of the first `cap` candidates is accepted.
pub open spec fn accepted_within(s0: u64, cfg: MandelbrotConfig, cap: nat) -> bool {
    exists|k: nat| 1 <= k <= cap && cand_accepted(s0, k, cfg)
}

/// `k` certifies a rejection-sampling result: it is the first accepted
/// candidate, and the returned state, point and step count are its own.
pub open spec fn center_witness(
    s0: u64,
    cfg: MandelbrotConfig,
    k: nat,
    state2: u64,
    point: Complex,
    steps: u32,
) -> bool {
    &&& 1 <= k
    &&& cand_accepted(s0, k, cfg)
    &&& forall|j: nat| 1 <= j < k ==> !cand_accepted(s0, j, cfg)
    &&& state2 == cand_state(s0, k)
    &&& point == cand_point(s0, k)
    &&& steps == cand_steps(s0, k, cfg)
}

/// What rejection sampling from state `s0` returns: the first accepted
/// candidate, or — if none of the first `MAX_CENTER_ATTEMPTS` candidates is
/// accepted — the last candidate drawn. Either way the result is a function
/// of the starting state and the configuration (see
/// `lemma_center_outcome_unique`).
pub open spec fn center_outcome(
    s0: u64,
    cfg: MandelbrotConfig,
    state2: u64,
    point: Complex,
    steps: u32,
) -> bool {
    if accepted_within(s0, cfg, MAX_CENTER_ATTEMPTS as nat) {
        exists|k: nat| center_witness(s0, cfg, k, state2, point, steps)
    } else {
        &&& state2 == cand_state(s0, MAX_CENTER_ATTEMPTS as nat)
        &&& point == cand_point(s0, MAX_CENTER_ATTEMPTS as nat)
        &&& steps == cand_steps(s0, MAX_CENTER_ATTEMPTS as nat, cfg)
    }
}

/// Rejection sampling is deterministic: two results certified for the same
/// starting state and configuration are the same.
pub proof fn lemma_center_outcome_unique(
    s0: u64,
    cfg: MandelbrotConfig,
    a: (u64, Complex, u32),
    b: (u64, Complex, u32),
)
    requires
        center_outcome(s0, cfg, a.0, a.1, a.2),
        center_outcome(s0, cfg, b.0, b.1, b.2),
    ensures
        a == b,
{
    if accepted_within(s0, cfg, MAX_CENTER_ATTEMPTS as nat) {
        let ka = choose|k: nat| center_witness(s0, cfg, k, a.0, a.1, a.2);
        let kb = choose|k: nat| center_witness(s0, cfg, k, b.0, b.1, b.2);
        if ka < kb {
            assert(!cand_accepted(s0, ka, cfg));
        }
        if kb < ka {
            assert(!cand_accepted(s0, kb, cfg));
        }
    }
}

/// Chooses a viewport center by rejection sampling: draws x from
/// `[-1.5, 1.0]` and y from `[0.0, 1.0]` until the point's escape-step count
/// lies strictly within the iteration bounds. Returns the generator state
/// after the accepted draw, the accepted point, and its step count.
#[verifier::loop_isolation(false)]
pub fn choose_center(state: u64, cfg: &MandelbrotConfig) -> (r: (u64, Complex, u32))
    requires
        cfg.wf(),
    ensures
        center_outcome(state, *cfg, r.0, r.1, r.2),
        accepted_within(state, *cfg, MAX_CENTER_ATTEMPTS as nat) ==> cfg.min_steps <= r.2
            < cfg.max_steps,
        r.2 == spec_escape_steps(r.1, *cfg),
{
    let lo_x = Double { bits: F_NEG_THREE_HALVES };
    let hi_x = Double { bits: F_ONE };
    let lo_y = Double { bits: F_ZERO };
    let hi_y = Double { bits: F_ONE };

    let mut st = state;
    let mut pt = Complex::zero();
    let mut steps: u32 = 0;
    let mut attempts: u64 = 0;

    while !(steps >= cfg.min_steps && steps < cfg.max_steps) && attempts < MAX_CENTER_ATTEMPTS
        invariant
            st == cand_state(state, attempts as nat),
            attempts == 0 ==> steps == 0,
            attempts >= 1 ==> pt == cand_point(state, attempts as nat) && steps == cand_steps(
                state,
                attempts as nat,
                *cfg,
            ),
            forall|j: nat| 1 <= j < attempts ==> !cand_accepted(state, j, *cfg),
        decreases MAX_CENTER_ATTEMPTS - attempts,
    {
        proof {
            if attempts >= 1 {
                assert(!cand_accepted(state, attempts as nat, *cfg));
            }
        }
        attempts = attempts + 1;
        let (s1, x) = rand_range(st, lo_x, hi_x);
        let (s2, y) = rand_range(s1, lo_y, hi_y);
        pt = Complex::new(x, y);
        steps = mandelbrot(pt, cfg);
        st = s2;
        proof {
            assert(cand_state(state, attempts as nat) == unit_step(
                unit_step(cand_state(state, (attempts - 1) as nat)).0,
            ).0);
            assert(x.bits == cand_x_bits(state, attempts as nat));
            assert(y.bits == cand_y_bits(state, attempts as nat));
        }
    }

    proof {
        if steps >= cfg.min_steps && steps < cfg.max_steps {
            assert(attempts >= 1);
            assert(center_witness(state, *cfg, attempts as nat, st, pt, steps));
            assert(1 <= attempts as nat <= MAX_CENTER_ATTEMPTS as nat && cand_accepted(
                state,
                attempts as nat,
                *cfg,
            ));
        } else {
            assert(attempts == MAX_CENTER_ATTEMPTS);
            assert(!cand_accepted(state, attempts as nat, *cfg));
            assert(forall|j: nat|
                1 <= j <= MAX_CENTER_ATTEMPTS ==> !cand_accepted(state, j, *cfg));
            assert(!accepted_within(state, *cfg, MAX_CENTER_ATTEMPTS as nat));
        }
    }
    (st, pt, steps)
}

} // verus!
