//! The whole benchmark run: buffer setup, calibration, measurement, and the
//! derived metrics.

use vstd::prelude::*;

use crate::calibrate::calibrate;
use crate::kernel::elem_ok;
use crate::kernel::filled_vec;
use crate::kernel::operands_ok;
use crate::measure::measure_samples;
use crate::measure::vecmin;
use crate::metrics::report_metrics;
use crate::metrics::spec_effective_nanos;
use crate::metrics::spec_flop_count;
use crate::metrics::spec_rate_milli_mflops;
use crate::metrics::spec_scale_factor;
use crate::metrics::spec_volume_bytes;
use crate::metrics::MetricsReport;
use crate::strategy::ExecutionMode;

verus! {

/// Initial value of every output-buffer element: 2.0 in stored units.
pub const OUTPUT_INIT: u64 = 2000;

/// Initial value of every element of operand `B`: 1.0 in stored units.
pub const OPERAND_B_INIT: u64 = 1000;

/// Initial value of every element of operand `C`: 0.5 in stored units.
pub const OPERAND_C_INIT: u64 = 500;

/// Initial value of every element of operand `D`: 1.01 in stored units.
pub const OPERAND_D_INIT: u64 = 1010;

/// An operand buffer of `vsize` copies of `value`, small enough for the
/// kernel's arithmetic.
pub fn standard_operand(vsize: usize, value: u64) -> (v: Vec<u64>)
    requires
        elem_ok(value),
    ensures
        v.len() == vsize,
        operands_ok(v@),
        forall|i: int| 0 <= i < vsize ==> #[trigger] v@[i] == value,
{
    filled_vec(vsize, value)
}

/// One full benchmark run: allocates the four buffers at their standard
/// initial values, calibrates the iteration count, measures ten timed
/// invocations, and reports the metrics derived from the minimum sample.
pub fn run_benchmark(mode: ExecutionMode, vector_size: usize, thread_count: usize) -> (m:
    MetricsReport)
    requires
        vector_size >= 1,
        thread_count >= 1,
        spec_flop_count(vector_size as int, spec_scale_factor(mode, thread_count as int))
            * 1_000_000 <= u128::MAX,
    ensures
        m.volume_bytes == spec_volume_bytes(vector_size as int),
        m.flop_total == spec_flop_count(
            vector_size as int,
            spec_scale_factor(mode, thread_count as int),
        ),
        m.rate_milli_mflops == spec_rate_milli_mflops(
            m.flop_total as int,
            spec_effective_nanos(m.min_time_nanos as int),
        ),
{
    let mut a = filled_vec(vector_size, OUTPUT_INIT);
    let b = standard_operand(vector_size, OPERAND_B_INIT);
    let c = standard_operand(vector_size, OPERAND_C_INIT);
    let d = standard_operand(vector_size, OPERAND_D_INIT);
    let iters = calibrate(mode, &mut a, &b, &c, &d, vector_size, thread_count);
    let samples = measure_samples(mode, &mut a, &b, &c, &d, vector_size, iters, thread_count);
    let min_nanos = vecmin(samples);
    report_metrics(vector_size, mode, thread_count, min_nanos)
}

} // verus!

