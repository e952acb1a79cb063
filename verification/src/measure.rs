//! The measurement harness: a fixed number of timed invocations, reduced to
//! their minimum.

use vstd::prelude::*;

use crate::kernel::is_triad_result;
use crate::kernel::operands_ok;
use crate::strategy::ExecutionMode;
use crate::timing::timed_invocation;

verus! {

/// How many timed invocations the harness records.
pub const NUM_MEASUREMENTS: usize = 10;

/// Runs the calibrated strategy exactly [`NUM_MEASUREMENTS`] times and
/// returns the elapsed nanoseconds of each invocation, in order.
pub fn measure_samples(
    mode: ExecutionMode,
    a: &mut Vec<u64>,
    b: &Vec<u64>,
    c: &Vec<u64>,
    d: &Vec<u64>,
    vsize: usize,
    iters: usize,
    nthreads: usize,
) -> (samples: Vec<u64>)
    requires
        old(a).len() == vsize,
        b.len() == vsize,
        c.len() == vsize,
        d.len() == vsize,
        operands_ok(b@),
        operands_ok(c@),
        operands_ok(d@),
        iters >= 1,
        nthreads >= 1,
    ensures
        samples.len() == NUM_MEASUREMENTS,
        final(a).len() == vsize,
        mode == ExecutionMode::Throughput ==> final(a)@ == old(a)@,
        mode != ExecutionMode::Throughput ==> is_triad_result(final(a)@, b@, c@, d@),
{
    let mut samples: Vec<u64> = Vec::new();
    for i in 0..NUM_MEASUREMENTS
        invariant
            samples.len() == i,
            a.len() == vsize,
            b.len() == vsize,
            c.len() == vsize,
            d.len() == vsize,
            operands_ok(b@),
            operands_ok(c@),
            operands_ok(d@),
            iters >= 1,
            nthreads >= 1,
            mode == ExecutionMode::Throughput ==> a@ == old(a)@,
            i >= 1 && mode != ExecutionMode::Throughput ==> is_triad_result(a@, b@, c@, d@),
    {
        let t = timed_invocation(mode, a, b, c, d, vsize, iters, nthreads);
        samples.push(t);
    }
    samples
}

/// The minimum of a non-empty sample vector: no greater than any sample, and
/// itself one of the samples.
pub fn vecmin(a: Vec<u64>) -> (mini: u64)
    requires
        a.len() >= 1,
    ensures
        forall|i: int| 0 <= i < a.len() ==> mini <= #[trigger] a@[i],
        exists|i: int| 0 <= i < a.len() && mini == #[trigger] a@[i],
{
    let mut mini: u64 = a[0];
    let n = a.len();
    for i in 1..n
        invariant
            n == a.len(),
            1 <= i <= n,
            forall|k: int| 0 <= k < i ==> mini <= #[trigger] a@[k],
            exists|k: int| 0 <= k < i && mini == #[trigger] a@[k],
    {
        if a[i] < mini {
            mini = a[i];
        }
    }
    mini
}

} // verus!
