//! The three execution strategies: serial, replicated-throughput, and
//! worksharing. The parallel strategies run on rayon behind trusted wrappers;
//! the work each worker performs is the verified kernel.

use vstd::prelude::*;

use crate::kernel::filled_vec;
use crate::kernel::is_triad_result;
use crate::kernel::operands_ok;
use crate::kernel::triad_at;
use crate::kernel::triad_serial_iter;
use rayon::iter::IndexedParallelIterator;
use rayon::iter::IntoParallelRefMutIterator;
use rayon::iter::ParallelIterator;

verus! {

/// Which of the three ways of applying the kernel a run uses.
#[derive(Clone, Copy, PartialEq, Eq, Structural, Debug)]
pub enum ExecutionMode {
    /// One thread runs the kernel over the full buffer.
    Serial,
    /// Every worker runs the full kernel into a private buffer that is
    /// discarded afterwards.
    Throughput,
    /// The workers split the index range of one shared output buffer.
    Worksharing,
}

/// One data-parallel pass of the kernel over `a`, partitioned across the
/// ambient rayon thread pool.
///
/// Relies on rayon's `par_iter_mut`, `enumerate` and `for_each`
/// (`IntoParallelRefMutIterator`, `IndexedParallelIterator`,
/// `ParallelIterator`): together they hand the closure each slot of `a`
/// exactly once, paired with that slot's index, and block until every slot
/// has been visited. The closure stores the verified triad of the read-only
/// operands at that index.
#[verifier::external_body]
fn par_triad_once(a: &mut Vec<u64>, b: &Vec<u64>, c: &Vec<u64>, d: &Vec<u64>)
    requires
        old(a).len() == b.len(),
        b.len() == c.len(),
        c.len() == d.len(),
        operands_ok(b@),
        operands_ok(c@),
        operands_ok(d@),
    ensures
        is_triad_result(final(a)@, b@, c@, d@),
{
    a.par_iter_mut().enumerate().for_each(|(j, slot)| *slot = triad_at(b, c, d, j));
}

/// The worksharing strategy: for each of `iters` repetitions, one shared
/// output buffer is filled by the pool's workers, each writing a disjoint
/// part of the index range.
pub fn triad_workshare(
    a: &mut Vec<u64>,
    b: &Vec<u64>,
    c: &Vec<u64>,
    d: &Vec<u64>,
    vsize: usize,
    iters: usize,
)
    requires
        old(a).len() == vsize,
        b.len() == vsize,
        c.len() == vsize,
        d.len() == vsize,
        operands_ok(b@),
        operands_ok(c@),
        operands_ok(d@),
    ensures
        final(a).len() == vsize,
        iters == 0 ==> final(a)@ == old(a)@,
        iters >= 1 ==> is_triad_result(final(a)@, b@, c@, d@),
{
    for i in 0..iters
        invariant
            a.len() == vsize,
            b.len() == vsize,
            c.len() == vsize,
            d.len() == vsize,
            operands_ok(b@),
            operands_ok(c@),
            operands_ok(d@),
            i == 0 ==> a@ == old(a)@,
            i >= 1 ==> is_triad_result(a@, b@, c@, d@),
    {
        par_triad_once(a, b, c, d);
    }
}

/// One throughput worker's workload: a fresh zero-filled private output
/// buffer, with the full serial kernel run into it.
pub fn replicated_task(b: &Vec<u64>, c: &Vec<u64>, d: &Vec<u64>, iters: usize) -> (my_a: Vec<
    u64,
>)
    requires
        b.len() == c.len(),
        c.len() == d.len(),
        operands_ok(b@),
        operands_ok(c@),
        operands_ok(d@),
    ensures
        my_a.len() == b.len(),
        iters == 0 ==> forall|i: int| 0 <= i < my_a.len() ==> #[trigger] my_a@[i] == 0,
        iters >= 1 ==> is_triad_result(my_a@, b@, c@, d@),
{
    let mut my_a = filled_vec(b.len(), 0);
    triad_serial_iter(&mut my_a, b, c, d, b.len(), iters);
    my_a
}

/// Fans the replicated workload out to `nthreads` concurrent workers and
/// blocks until all of them have finished; returns how many workers ran.
///
/// Relies on rayon's `ThreadPoolBuilder::build` and `ThreadPool::broadcast`:
/// a pool built with `num_threads(n)`, `n >= 1`, has exactly `n` worker
/// threads, and `broadcast` runs the closure once on every worker, blocking
/// until all have returned, with one result per worker. If the pool cannot
/// be built no worker runs.
#[verifier::external_body]
fn pool_replicate(b: &Vec<u64>, c: &Vec<u64>, d: &Vec<u64>, nthreads: usize, iters: usize) -> (workers:
    usize)
    requires
        nthreads >= 1,
        b.len() == c.len(),
        c.len() == d.len(),
        operands_ok(b@),
        operands_ok(c@),
        operands_ok(d@),
    ensures
        workers == nthreads || workers == 0,
{
    match rayon::ThreadPoolBuilder::new().num_threads(nthreads).build() {
        Ok(pool) => pool.broadcast(|_| {
            replicated_task(b, c, d, iters);
        }).len(),
        Err(_) => 0,
    }
}

/// The replicated-throughput strategy: `nthreads` concurrent workers each
/// run the full serial workload into a private buffer whose contents are
/// discarded; the shared output buffer `a` is left untouched. Returns how
/// many workers ran (`nthreads`, or 0 if the pool could not be built).
pub fn triad_throughput(
    a: &mut Vec<u64>,
    b: &Vec<u64>,
    c: &Vec<u64>,
    d: &Vec<u64>,
    vsize: usize,
    iters: usize,
    nthreads: usize,
) -> (workers: usize)
    requires
        old(a).len() == vsize,
        b.len() == vsize,
        c.len() == vsize,
        d.len() == vsize,
        operands_ok(b@),
        operands_ok(c@),
        operands_ok(d@),
        nthreads >= 1,
    ensures
        final(a)@ == old(a)@,
        workers == nthreads || workers == 0,
{
    pool_replicate(b, c, d, nthreads, iters)
}

/// Runs the strategy that `mode` selects. Serial and worksharing leave the
/// triad in `a`; throughput leaves `a` untouched.
pub fn run_strategy(
    mode: ExecutionMode,
    a: &mut Vec<u64>,
    b: &Vec<u64>,
    c: &Vec<u64>,
    d: &Vec<u64>,
    vsize: usize,
    iters: usize,
    nthreads: usize,
)
    requires
        old(a).len() == vsize,
        b.len() == vsize,
        c.len() == vsize,
        d.len() == vsize,
        operands_ok(b@),
        operands_ok(c@),
        operands_ok(d@),
        nthreads >= 1,
    ensures
        final(a).len() == vsize,
        mode == ExecutionMode::Throughput ==> final(a)@ == old(a)@,
        mode != ExecutionMode::Throughput && iters == 0 ==> final(a)@ == old(a)@,
        mode != ExecutionMode::Throughput && iters >= 1 ==> is_triad_result(
            final(a)@,
            b@,
            c@,
            d@,
        ),
{
    match mode {
        ExecutionMode::Serial => triad_serial_iter(a, b, c, d, vsize, iters),
        ExecutionMode::Throughput => {
            let _workers = triad_throughput(a, b, c, d, vsize, iters, nthreads);
        },
        ExecutionMode::Worksharing => triad_workshare(a, b, c, d, vsize, iters),
    }
}

} // verus!
