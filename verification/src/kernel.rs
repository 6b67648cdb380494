use vstd::prelude::*;

use crate::complex::{
    abs_square, cadd, cadd_real, cmul, cpow, cscale, spec_abs_square, spec_cadd, spec_cadd_real,
    spec_cmul, spec_cpow, spec_cscale, Complex,
};
use crate::fp::{fge, fpow, ge_bits, pow_bits, Double, F_ONE, F_TEN, F_TWO, F_ZERO};

verus! {

/// Default lower iteration bound.
pub const MIN_STEPS: u32 = 150;

/// Default upper iteration bound.
pub const MAX_STEPS: u32 = 1024;

/// Default escape-magnitude exponent: the escape threshold is `10^15`.
pub const BAILOUT_NUM: u64 = crate::fp::F_FIFTEEN;

/// The resolved numeric configuration of one run: iteration bounds and the
/// escape threshold (already raised to its power).
#[derive(Clone, Copy, PartialEq, Eq, Structural, Debug)]
pub struct MandelbrotConfig {
    pub min_steps: u32,
    pub max_steps: u32,
    pub bailout_num: Double,
}

impl MandelbrotConfig {
    /// The invariant of a resolved configuration: `max > min >= 1`.
    pub open spec fn wf(self) -> bool {
        1 <= self.min_steps < self.max_steps
    }
}

impl Default for MandelbrotConfig {
    fn default() -> (c: Self)
        ensures
            c.min_steps == MIN_STEPS,
            c.max_steps == MAX_STEPS,
            c.bailout_num.bits == pow_bits(F_TEN, BAILOUT_NUM),
            c.wf(),
    {
        MandelbrotConfig {
            min_steps: MIN_STEPS,
            max_steps: MAX_STEPS,
            bailout_num: fpow(Double { bits: F_TEN }, Double { bits: BAILOUT_NUM }),
        }
    }
}

/// One state of the distance-estimator recurrence: the orbit point `c`, the
/// accumulated derivative `dc`, and the running sum of derivatives `dc_sum`.
pub struct KernelState {
    pub c: Complex,
    pub dc: Complex,
    pub dc_sum: Complex,
}

/// The state before the first step: `c = c0`, `dc = 1`, `dc_sum = 0`.
pub open spec fn kernel_init(c0: Complex) -> KernelState {
    KernelState {
        c: c0,
        dc: Complex::spec_new(F_ONE, F_ZERO),
        dc_sum: Complex::spec_new(F_ZERO, F_ZERO),
    }
}

/// One step of the recurrence:
/// `c <- c^2 + c0`, `dc <- 2*dc*c + 1` (with the new `c`), `dc_sum <- dc_sum + dc`.
pub open spec fn kernel_next(c0: Complex, s: KernelState) -> KernelState {
    let c = spec_cadd(spec_cpow(s.c, Double { bits: F_TWO }), c0);
    let dc = spec_cadd_real(spec_cmul(spec_cscale(Double { bits: F_TWO }, s.dc), c), Double { bits: F_ONE });
    let dc_sum = spec_cadd(s.dc_sum, dc);
    KernelState { c, dc, dc_sum }
}

/// The recurrence state after `n` steps from `c0`.
pub open spec fn kernel_state(c0: Complex, n: nat) -> KernelState
    decreases n,
{
    if n == 0 {
        kernel_init(c0)
    } else {
        kernel_next(c0, kernel_state(c0, (n - 1) as nat))
    }
}

/// Whether the escape test fires at step `n`: the squared magnitude of the
/// derivative sum after `n` steps reaches the threshold.
pub open spec fn escaped_at(c0: Complex, bailout: u64, n: nat) -> bool {
    ge_bits(spec_abs_square(kernel_state(c0, n).dc_sum), bailout)
}

/// The first step in `[n, max)` at which the escape test fires, or 0 when it
/// never fires in that range (0 is the sentinel for "did not escape").
pub open spec fn first_escape_from(c0: Complex, bailout: u64, n: nat, max: nat) -> u32
    decreases max - n,
{
    if n >= max {
        0
    } else if escaped_at(c0, bailout, n) {
        n as u32
    } else {
        first_escape_from(c0, bailout, n + 1, max)
    }
}

/// The number of steps `mandelbrot` reports for a point under a
/// configuration: the first escaping step in `[1, max_steps)`, or 0.
pub open spec fn spec_escape_steps(c0: Complex, cfg: MandelbrotConfig) -> u32 {
    first_escape_from(c0, cfg.bailout_num.bits, 1, cfg.max_steps as nat)
}

/// What `first_escape_from` returns, spelled out: a zero result means no step
/// in the range escapes, and a nonzero result is the least escaping step.
proof fn lemma_first_escape_props(c0: Complex, bailout: u64, n: nat, max: nat)
    requires
        1 <= n,
        max <= u32::MAX,
    ensures
        ({
            let r = first_escape_from(c0, bailout, n, max);
            &&& (r == 0 ==> forall|m: nat| n <= m < max ==> !escaped_at(c0, bailout, m))
            &&& (r != 0 ==> n <= r < max && escaped_at(c0, bailout, r as nat) && (forall|m: nat|
                n <= m < r ==> !escaped_at(c0, bailout, m)))
        }),
    decreases max - n,
{
    if n >= max {
    } else if escaped_at(c0, bailout, n) {
    } else {
        lemma_first_escape_props(c0, bailout, n + 1, max);
    }
}

/// The escape-step count of every point lies in `[0, max_steps)`; it is 0
/// exactly when no step within the budget satisfies the escape test, and
/// otherwise it is the least step that does.
pub proof fn lemma_escape_steps_bounds(c0: Complex, cfg: MandelbrotConfig)
    requires
        cfg.max_steps >= 1,
    ensures
        ({
            let s = spec_escape_steps(c0, cfg);
            &&& s < cfg.max_steps
            &&& (s == 0 <==> forall|m: nat|
                1 <= m < cfg.max_steps ==> !escaped_at(c0, cfg.bailout_num.bits, m))
            &&& (s != 0 ==> 1 <= s && escaped_at(c0, cfg.bailout_num.bits, s as nat) && (forall|m: nat|
                1 <= m < s ==> !escaped_at(c0, cfg.bailout_num.bits, m)))
        }),
{
    lemma_first_escape_props(c0, cfg.bailout_num.bits, 1, cfg.max_steps as nat);
}

/// The kernel is a pure function: two results computed for the same point and
/// configuration are the same.
pub proof fn lemma_escape_steps_deterministic(
    c0: Complex,
    cfg: MandelbrotConfig,
    s1: u32,
    s2: u32,
)
    requires
        s1 == spec_escape_steps(c0, cfg),
        s2 == spec_escape_steps(c0, cfg),
    ensures
        s1 == s2,
{
}

/// The distance-estimator escape-time kernel. Iterates `c <- c^2 + c0`,
/// `dc <- 2*dc*c + 1`, `dc_sum <- dc_sum + dc` for steps `1..max_steps` and
/// returns the first step at which `|dc_sum|^2` reaches the escape threshold,
/// or the sentinel 0 when the budget runs out without escaping.
#[verifier::loop_isolation(false)]
pub fn mandelbrot(input: Complex, cfg: &MandelbrotConfig) -> (steps: u32)
    requires
        cfg.max_steps >= 1,
    ensures
        steps == spec_escape_steps(input, *cfg),
{
    let two = Double { bits: F_TWO };
    let one = Double { bits: F_ONE };
    let c0 = input;
    let mut c = c0;
    let mut dc = Complex { re: Double { bits: F_ONE }, im: Double { bits: F_ZERO } };
    let mut dc_sum = Complex::zero();
    let mut n: u32 = 1;

    while n < cfg.max_steps
        invariant
            1 <= n <= cfg.max_steps,
            c == kernel_state(c0, (n - 1) as nat).c,
            dc == kernel_state(c0, (n - 1) as nat).dc,
            dc_sum == kernel_state(c0, (n - 1) as nat).dc_sum,
            forall|m: nat| 1 <= m < n ==> !escaped_at(c0, cfg.bailout_num.bits, m),
        decreases cfg.max_steps - n,
    {
        c = cadd(cpow(c, two), c0);
        dc = cadd_real(cmul(cscale(two, dc), c), one);
        dc_sum = cadd(dc_sum, dc);

        proof {
            assert(kernel_state(c0, n as nat) == kernel_next(c0, kernel_state(c0, (n - 1) as nat)));
        }

        if fge(abs_square(dc_sum), cfg.bailout_num) {
            proof {
                assert(escaped_at(c0, cfg.bailout_num.bits, n as nat));
                lemma_first_escape_props(c0, cfg.bailout_num.bits, 1, cfg.max_steps as nat);
                let r = first_escape_from(c0, cfg.bailout_num.bits, 1, cfg.max_steps as nat);
                if r == 0 {
                    assert(!escaped_at(c0, cfg.bailout_num.bits, n as nat));
                }
                if r != 0 && r < n {
                    assert(!escaped_at(c0, cfg.bailout_num.bits, r as nat));
                }
            }
            return n;
        }

        proof {
            assert(!escaped_at(c0, cfg.bailout_num.bits, n as nat));
        }
        n = n + 1;
    }

    proof {
        lemma_first_escape_props(c0, cfg.bailout_num.bits, 1, cfg.max_steps as nat);
        let r = first_escape_from(c0, cfg.bailout_num.bits, 1, cfg.max_steps as nat);
        if r != 0 {
            assert(!escaped_at(c0, cfg.bailout_num.bits, r as nat));
        }
    }
    0
}

} // verus!
