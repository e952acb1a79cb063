//! Derived metrics: data volume moved by one pass and floating-point
//! operation rate over the minimum timing sample.

use vstd::prelude::*;

use crate::measure::NUM_MEASUREMENTS;
use crate::strategy::ExecutionMode;

verus! {

/// How many buffers one kernel pass touches: the output and three operands.
pub const BUFFERS_TOUCHED: u64 = 4;

/// The width of one buffer element in bytes.
pub const BYTES_PER_ELEMENT: u64 = 8;

/// Arithmetic operations per element: one add and one multiply.
pub const OPS_PER_ELEMENT: u64 = 2;

/// The work multiplier a mode reports: the thread count for throughput mode,
/// whose workers each replicate the full workload, and 1 otherwise.
pub open spec fn spec_scale_factor(mode: ExecutionMode, thread_count: int) -> int {
    if mode == ExecutionMode::Throughput {
        thread_count
    } else {
        1
    }
}

/// The work multiplier a mode reports.
pub fn scale_factor(mode: ExecutionMode, thread_count: usize) -> (s: usize)
    ensures
        s == spec_scale_factor(mode, thread_count as int),
{
    match mode {
        ExecutionMode::Throughput => thread_count,
        ExecutionMode::Serial => 1,
        ExecutionMode::Worksharing => 1,
    }
}

/// Bytes moved by one kernel pass: four buffers of `vsize` elements, eight
/// bytes each.
pub open spec fn spec_volume_bytes(vsize: int) -> int {
    BUFFERS_TOUCHED * vsize * BYTES_PER_ELEMENT
}

/// Bytes moved by one kernel pass.
pub fn volume_bytes(vsize: usize) -> (v: u128)
    ensures
        v == spec_volume_bytes(vsize as int),
{
    (BUFFERS_TOUCHED as u128) * (vsize as u128) * (BYTES_PER_ELEMENT as u128)
}

/// The reported operation count: two operations per element, once per
/// measurement repetition, multiplied by the mode's work scale.
pub open spec fn spec_flop_count(vsize: int, scale: int) -> int {
    vsize * OPS_PER_ELEMENT * NUM_MEASUREMENTS * scale
}

/// The reported operation count.
pub fn flop_count(vsize: usize, scale: usize) -> (f: u128)
    requires
        spec_flop_count(vsize as int, scale as int) <= u128::MAX,
    ensures
        f == spec_flop_count(vsize as int, scale as int),
{
    let partial: u128 = (vsize as u128) * (OPS_PER_ELEMENT as u128) * (NUM_MEASUREMENTS as u128);
    proof {
        assert(partial * scale == spec_flop_count(vsize as int, scale as int))
            by (nonlinear_arith)
            requires
                partial == (vsize as int) * (OPS_PER_ELEMENT as int) * (NUM_MEASUREMENTS as int),
        ;
    }
    partial * (scale as u128)
}

/// A zero minimum sample — possible on a coarse clock — is reported as one
/// nanosecond, so that the rate stays finite.
pub open spec fn spec_effective_nanos(nanos: int) -> int {
    if nanos == 0 {
        1
    } else {
        nanos
    }
}

/// The operation rate in thousandths of a million operations per second:
/// `flops * 1_000_000 / nanos` equals `1e-6 * flops / seconds * 1000`.
pub open spec fn spec_rate_milli_mflops(flops: int, nanos: int) -> int {
    flops * 1_000_000 / nanos
}

/// The operation rate in thousandths of a million operations per second.
pub fn rate_milli_mflops(flops: u128, min_nanos: u64) -> (r: u128)
    requires
        min_nanos >= 1,
        flops * 1_000_000 <= u128::MAX,
    ensures
        r == spec_rate_milli_mflops(flops as int, min_nanos as int),
{
    flops * 1_000_000u128 / (min_nanos as u128)
}

/// Everything the benchmark reports of one run.
pub struct MetricsReport {
    /// Bytes moved by one kernel pass; thousandths of the reported kilobyte
    /// figure.
    pub volume_bytes: u128,
    /// The reported operation count.
    pub flop_total: u128,
    /// The minimum of the measured samples, in nanoseconds.
    pub min_time_nanos: u64,
    /// Thousandths of the reported million-operations-per-second figure.
    pub rate_milli_mflops: u128,
}

/// Derives the report from the run's parameters and its minimum timing
/// sample.
pub fn report_metrics(
    vsize: usize,
    mode: ExecutionMode,
    thread_count: usize,
    min_nanos: u64,
) -> (m: MetricsReport)
    requires
        spec_flop_count(vsize as int, spec_scale_factor(mode, thread_count as int)) * 1_000_000
            <= u128::MAX,
        spec_scale_factor(mode, thread_count as int) >= 0,
    ensures
        m.volume_bytes == spec_volume_bytes(vsize as int),
        m.flop_total == spec_flop_count(vsize as int, spec_scale_factor(mode, thread_count as int)),
        m.min_time_nanos == min_nanos,
        m.rate_milli_mflops == spec_rate_milli_mflops(
            m.flop_total as int,
            spec_effective_nanos(min_nanos as int),
        ),
{
    let scale = scale_factor(mode, thread_count);
    let volume = volume_bytes(vsize);
    proof {
        assert(spec_flop_count(vsize as int, scale as int) >= 0) by (nonlinear_arith)
            requires
                vsize >= 0,
                scale >= 0,
        ;
    }
    let flops = flop_count(vsize, scale);
    let effective: u64 = if min_nanos == 0 {
        1
    } else {
        min_nanos
    };
    let rate = rate_milli_mflops(flops, effective);
    MetricsReport {
        volume_bytes: volume,
        flop_total: flops,
        min_time_nanos: min_nanos,
        rate_milli_mflops: rate,
    }
}

/// Volume is linear in the vector size: doubling the size doubles the
/// reported data volume.
pub proof fn lemma_volume_scales_linearly(vsize: int)
    ensures
        spec_volume_bytes(2 * vsize) == 2 * spec_volume_bytes(vsize),
{
}

/// In throughput mode the reported operation count is linear in the thread
/// count: doubling the thread count doubles it.
pub proof fn lemma_flops_scale_in_throughput(vsize: int, thread_count: int)
    ensures
        spec_flop_count(vsize, spec_scale_factor(ExecutionMode::Throughput, 2 * thread_count))
            == 2 * spec_flop_count(
            vsize,
            spec_scale_factor(ExecutionMode::Throughput, thread_count),
        ),
{
    assert(vsize * OPS_PER_ELEMENT * NUM_MEASUREMENTS * (2 * thread_count) == 2 * (vsize
        * OPS_PER_ELEMENT * NUM_MEASUREMENTS * thread_count)) by (nonlinear_arith);
}

/// Outside throughput mode the thread count does not enter the reported
/// operation count at all.
pub proof fn lemma_flops_fixed_outside_throughput(
    mode: ExecutionMode,
    vsize: int,
    t1: int,
    t2: int,
)
    requires
        mode != ExecutionMode::Throughput,
    ensures
        spec_flop_count(vsize, spec_scale_factor(mode, t1)) == spec_flop_count(
            vsize,
            spec_scale_factor(mode, t2),
        ),
{
}

} // verus!
