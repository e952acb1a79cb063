//! Wall-clock timing of one strategy invocation, in whole nanoseconds.

use vstd::prelude::*;

use crate::kernel::is_triad_result;
use crate::kernel::operands_ok;
use crate::strategy::run_strategy;
use crate::strategy::ExecutionMode;

verus! {

#[verifier::external_type_specification]
#[verifier::external_body]
pub struct ExInstant(std::time::Instant);

/// Relies on `std::time::Instant::now`: an opaque reading of the monotonic
/// clock. Nothing is promised of its value.
#[verifier::external_body]
fn clock_now() -> std::time::Instant {
    std::time::Instant::now()
}

/// Relies on `std::time::Instant::elapsed`: the time between `start` and the
/// call, as a `Duration`. Nothing is promised of its value.
#[verifier::external_body]
fn clock_elapsed(start: &std::time::Instant) -> std::time::Duration {
    start.elapsed()
}

/// Relies on `std::time::Duration::as_nanos`: the whole duration counted in
/// nanoseconds. Nothing is promised of its value beyond its type.
#[verifier::external_body]
fn duration_nanos(d: &std::time::Duration) -> u128 {
    d.as_nanos()
}

/// Runs the strategy once and returns the elapsed wall-clock time in
/// nanoseconds, capped at `u64::MAX`. The elapsed value depends on the
/// clock, so nothing is stated about it; the effect on the buffers is that
/// of [`run_strategy`].
pub fn timed_invocation(
    mode: ExecutionMode,
    a: &mut Vec<u64>,
    b: &Vec<u64>,
    c: &Vec<u64>,
    d: &Vec<u64>,
    vsize: usize,
    iters: usize,
    nthreads: usize,
) -> (elapsed_nanos: u64)
    requires
        old(a).len() == vsize,
        b.len() == vsize,
        c.len() == vsize,
        d.len() == vsize,
        operands_ok(b@),
        operands_ok(c@),
        operands_ok(d@),
        nthreads >= 1,
    ensures
        final(a).len() == vsize,
        mode == ExecutionMode::Throughput ==> final(a)@ == old(a)@,
        mode != ExecutionMode::Throughput && iters == 0 ==> final(a)@ == old(a)@,
        mode != ExecutionMode::Throughput && iters >= 1 ==> is_triad_result(
            final(a)@,
            b@,
            c@,
            d@,
        ),
{
    let start = clock_now();
    run_strategy(mode, a, b, c, d, vsize, iters, nthreads);
    let elapsed = clock_elapsed(&start);
    let nanos = duration_nanos(&elapsed);
    if nanos > u64::MAX as u128 {
        u64::MAX
    } else {
        nanos as u64
    }
}

} // verus!
