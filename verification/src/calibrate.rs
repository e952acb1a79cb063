//! The calibration search for an iteration count whose invocation lasts a
//! measurable time.

use vstd::prelude::*;

use crate::kernel::is_triad_result;
use crate::kernel::operands_ok;
use crate::strategy::ExecutionMode;
use crate::timing::timed_invocation;

verus! {

/// The iteration count the search starts from.
pub const INITIAL_ITERS: usize = 5;

/// The duration one invocation should roughly reach, in nanoseconds.
pub const TARGET_NANOS: u64 = 300_000_000;

/// The safety valve: once an invocation lasts longer than this, calibration
/// stops at once, even short of the target.
pub const VALVE_NANOS: u64 = 100_000_000;

/// How many feedback rounds the search is allowed before it gives up and
/// keeps the count it has, so that it terminates on any clock.
pub const MAX_CALIBRATION_ROUNDS: u64 = 64;

/// The next iteration count after a feedback round: scaled multiplicatively
/// by how far the last timing `t0` fell short of the target, measured
/// against the previous timing `t1`. When the two timings are equal — as on
/// the very first pass, where no previous timing exists — the feedback
/// difference would be zero, so instead of dividing by it the count is
/// doubled. The result is clamped to `1 ..= usize::MAX`.
pub open spec fn spec_next_iters(iters: usize, t0: u64, t1: u64) -> int {
    if t0 > t1 {
        let scaled = (iters * TARGET_NANOS) / (t0 - t1);
        if scaled < 1 {
            1int
        } else if scaled > usize::MAX {
            usize::MAX as int
        } else {
            scaled
        }
    } else {
        if iters > usize::MAX / 2 {
            usize::MAX as int
        } else if iters == 0 {
            1int
        } else {
            2 * iters
        }
    }
}

/// One feedback step of the calibration search.
pub fn next_iters(iters: usize, t0: u64, t1: u64) -> (next: usize)
    ensures
        next == spec_next_iters(iters, t0, t1),
        next >= 1,
{
    if t0 > t1 {
        let diff: u64 = t0 - t1;
        proof {
            assert((iters as int) * (TARGET_NANOS as int) <= (usize::MAX as int) * (
            TARGET_NANOS as int)) by (nonlinear_arith)
                requires
                    iters <= usize::MAX,
            ;
        }
        let scaled: u128 = (iters as u128) * (TARGET_NANOS as u128) / (diff as u128);
        if scaled < 1 {
            1
        } else if scaled > usize::MAX as u128 {
            usize::MAX
        } else {
            scaled as usize
        }
    } else {
        if iters > usize::MAX / 2 {
            usize::MAX
        } else if iters == 0 {
            1
        } else {
            2 * iters
        }
    }
}

/// The calibration loop: starting from [`INITIAL_ITERS`], times one
/// invocation of the strategy and feeds the result back through
/// [`next_iters`] until an invocation lasts longer than [`VALVE_NANOS`],
/// or [`MAX_CALIBRATION_ROUNDS`] rounds have passed. The returned count is
/// at least 1 and is frozen for measurement by the caller.
pub fn calibrate(
    mode: ExecutionMode,
    a: &mut Vec<u64>,
    b: &Vec<u64>,
    c: &Vec<u64>,
    d: &Vec<u64>,
    vsize: usize,
    nthreads: usize,
) -> (iters: usize)
    requires
        old(a).len() == vsize,
        b.len() == vsize,
        c.len() == vsize,
        d.len() == vsize,
        operands_ok(b@),
        operands_ok(c@),
        operands_ok(d@),
        nthreads >= 1,
    ensures
        iters >= 1,
        final(a).len() == vsize,
        mode == ExecutionMode::Throughput ==> final(a)@ == old(a)@,
        mode != ExecutionMode::Throughput ==> is_triad_result(final(a)@, b@, c@, d@),
{
    let mut iters: usize = INITIAL_ITERS;
    let mut prev_nanos: u64 = 0;
    let mut rounds: u64 = 0;
    loop
        invariant
            iters >= 1,
            a.len() == vsize,
            b.len() == vsize,
            c.len() == vsize,
            d.len() == vsize,
            operands_ok(b@),
            operands_ok(c@),
            operands_ok(d@),
            nthreads >= 1,
            rounds <= MAX_CALIBRATION_ROUNDS,
            mode == ExecutionMode::Throughput ==> a@ == old(a)@,
        decreases MAX_CALIBRATION_ROUNDS - rounds,
    {
        let t0 = timed_invocation(mode, a, b, c, d, vsize, iters, nthreads);
        if t0 > VALVE_NANOS || rounds == MAX_CALIBRATION_ROUNDS {
            return iters;
        }
        iters = next_iters(iters, t0, prev_nanos);
        prev_nanos = t0;
        rounds = rounds + 1;
    }
}

} // verus!
