//! Resolution of the run's configuration from plain values the caller hands
//! in: a numeric mode code and two optional thread-count hints.

use vstd::prelude::*;

use crate::strategy::ExecutionMode;

verus! {

/// The mode selected by a numeric code: 0 serial, 1 throughput,
/// 2 worksharing; anything else selects nothing.
pub fn mode_from_code(code: i64) -> (m: Option<ExecutionMode>)
    ensures
        m == (if code == 0 {
            Some(ExecutionMode::Serial)
        } else if code == 1 {
            Some(ExecutionMode::Throughput)
        } else if code == 2 {
            Some(ExecutionMode::Worksharing)
        } else {
            None::<ExecutionMode>
        }),
{
    if code == 0 {
        Some(ExecutionMode::Serial)
    } else if code == 1 {
        Some(ExecutionMode::Throughput)
    } else if code == 2 {
        Some(ExecutionMode::Worksharing)
    } else {
        None
    }
}

/// What one thread-count hint contributes: its value, or 1 where it is
/// absent. A zero hint counts as absent, so the resolved count stays
/// positive.
pub open spec fn spec_hint_value(hint: Option<usize>) -> int {
    match hint {
        Some(n) => if n >= 1 {
            n as int
        } else {
            1
        },
        None => 1,
    }
}

/// The resolved thread count: the larger of the two hints, 1 where neither
/// is set.
pub open spec fn spec_resolve_thread_count(
    pool_hint: Option<usize>,
    omp_hint: Option<usize>,
) -> int {
    if spec_hint_value(pool_hint) >= spec_hint_value(omp_hint) {
        spec_hint_value(pool_hint)
    } else {
        spec_hint_value(omp_hint)
    }
}

/// Resolves the thread count from the two independently-configured hints.
pub fn resolve_thread_count(pool_hint: Option<usize>, omp_hint: Option<usize>) -> (n: usize)
    ensures
        n == spec_resolve_thread_count(pool_hint, omp_hint),
        n >= 1,
{
    let a: usize = match pool_hint {
        Some(v) => if v >= 1 {
            v
        } else {
            1
        },
        None => 1,
    };
    let b: usize = match omp_hint {
        Some(v) => if v >= 1 {
            v
        } else {
            1
        },
        None => 1,
    };
    if a >= b {
        a
    } else {
        b
    }
}

} // verus!
