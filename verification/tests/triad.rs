use stream_triad::bench::run_benchmark;
use stream_triad::bench::standard_operand;
use stream_triad::bench::OPERAND_B_INIT;
use stream_triad::bench::OPERAND_C_INIT;
use stream_triad::bench::OPERAND_D_INIT;
use stream_triad::bench::OUTPUT_INIT;
use stream_triad::calibrate::calibrate;
use stream_triad::calibrate::next_iters;
use stream_triad::config::mode_from_code;
use stream_triad::config::resolve_thread_count;
use stream_triad::kernel::filled_vec;
use stream_triad::kernel::triad_elem;
use stream_triad::kernel::triad_serial;
use stream_triad::kernel::triad_serial_iter;
use stream_triad::measure::measure_samples;
use stream_triad::measure::vecmin;
use stream_triad::metrics::flop_count;
use stream_triad::metrics::rate_milli_mflops;
use stream_triad::metrics::report_metrics;
use stream_triad::metrics::scale_factor;
use stream_triad::metrics::volume_bytes;
use stream_triad::strategy::replicated_task;
use stream_triad::strategy::triad_throughput;
use stream_triad::strategy::triad_workshare;
use stream_triad::strategy::ExecutionMode;

fn standard_buffers(vsize: usize) -> (Vec<u64>, Vec<u64>, Vec<u64>, Vec<u64>) {
    (
        filled_vec(vsize, OUTPUT_INIT),
        standard_operand(vsize, OPERAND_B_INIT),
        standard_operand(vsize, OPERAND_C_INIT),
        standard_operand(vsize, OPERAND_D_INIT),
    )
}

#[test]
fn triad_elem_standard_value() {
    // 1.0 + 0.5 * 1.01 = 1.505, in thousandths.
    assert_eq!(triad_elem(1000, 500, 1010), 1505);
    assert_eq!(triad_elem(0, 0, 0), 0);
    assert_eq!(triad_elem(7, 1000, 1000), 1007);
}

#[test]
fn serial_scenario_vsize_1000() {
    let (mut a, b, c, d) = standard_buffers(1000);
    triad_serial_iter(&mut a, &b, &c, &d, 1000, 1);
    assert_eq!(a.len(), 1000);
    for j in 0..1000 {
        assert_eq!(a[j], 1505);
    }
}

#[test]
fn serial_zero_iters_leaves_output_untouched() {
    let (mut a, b, c, d) = standard_buffers(16);
    triad_serial_iter(&mut a, &b, &c, &d, 16, 0);
    for j in 0..16 {
        assert_eq!(a[j], OUTPUT_INIT);
    }
}

#[test]
fn serial_variants_agree() {
    let (mut a1, b, c, d) = standard_buffers(33);
    let mut a2 = filled_vec(33, OUTPUT_INIT);
    triad_serial_iter(&mut a1, &b, &c, &d, 33, 3);
    triad_serial(&mut a2, &b, &c, &d, 33, 3);
    assert_eq!(a1, a2);
}

#[test]
fn workshare_matches_serial() {
    let (mut a1, b, c, d) = standard_buffers(129);
    let mut a2 = filled_vec(129, OUTPUT_INIT);
    triad_serial_iter(&mut a1, &b, &c, &d, 129, 4);
    triad_workshare(&mut a2, &b, &c, &d, 129, 4);
    assert_eq!(a1, a2);
}

#[test]
fn workshare_two_threads_odd_size_matches_serial() {
    // An odd size over two workers: the partition is uneven, yet every index
    // is written exactly once per repetition, so the buffers agree slot for
    // slot.
    let pool = rayon::ThreadPoolBuilder::new().num_threads(2).build().unwrap();
    let (mut a1, b, c, d) = standard_buffers(7);
    let mut a2 = filled_vec(7, OUTPUT_INIT);
    triad_serial_iter(&mut a1, &b, &c, &d, 7, 3);
    pool.install(|| triad_workshare(&mut a2, &b, &c, &d, 7, 3));
    assert_eq!(a1, a2);
    for j in 0..7 {
        assert_eq!(a2[j], 1505);
    }
}

#[test]
fn throughput_runs_four_workers_and_leaves_output_untouched() {
    let (mut a, b, c, d) = standard_buffers(64);
    let workers = triad_throughput(&mut a, &b, &c, &d, 64, 2, 4);
    assert_eq!(workers, 4);
    for j in 0..64 {
        assert_eq!(a[j], OUTPUT_INIT);
    }
}

#[test]
fn replicated_task_reproduces_serial_result() {
    let (mut a, b, c, d) = standard_buffers(40);
    triad_serial_iter(&mut a, &b, &c, &d, 40, 2);
    for _ in 0..4 {
        let private = replicated_task(&b, &c, &d, 2);
        assert_eq!(private, a);
    }
}

#[test]
fn replicated_task_zero_iters_is_zero_filled() {
    let (_, b, c, d) = standard_buffers(9);
    let private = replicated_task(&b, &c, &d, 0);
    assert_eq!(private, vec![0u64; 9]);
}

#[test]
fn vecmin_picks_smallest_sample() {
    assert_eq!(vecmin(vec![5, 3, 9, 3, 8]), 3);
    assert_eq!(vecmin(vec![42]), 42);
    assert_eq!(vecmin(vec![7, 0, 7]), 0);
}

#[test]
fn next_iters_scales_toward_target() {
    // 5 iterations took 10 ns more than the previous pass: the target of
    // 300_000_000 ns asks for a 30_000_000-fold scale.
    assert_eq!(next_iters(5, 10, 0), 150_000_000);
    // Equal timings: the feedback difference is zero, so the count doubles.
    assert_eq!(next_iters(5, 7, 7), 10);
    assert_eq!(next_iters(1, 0, 0), 2);
    // The result never drops below one.
    assert_eq!(next_iters(1, 300_000_001, 0), 1);
}

#[test]
fn calibrate_returns_positive_count() {
    let (mut a, b, c, d) = standard_buffers(64);
    let iters = calibrate(ExecutionMode::Serial, &mut a, &b, &c, &d, 64, 1);
    assert!(iters >= 1);
}

#[test]
fn measure_records_ten_samples() {
    let (mut a, b, c, d) = standard_buffers(8);
    let samples = measure_samples(ExecutionMode::Serial, &mut a, &b, &c, &d, 8, 1, 1);
    assert_eq!(samples.len(), 10);
}

#[test]
fn volume_doubles_with_vector_size() {
    assert_eq!(volume_bytes(1000), 32_000);
    assert_eq!(volume_bytes(2000), 64_000);
    assert_eq!(volume_bytes(1), 32);
}

#[test]
fn flops_scale_with_thread_count_in_throughput_only() {
    let s4 = scale_factor(ExecutionMode::Throughput, 4);
    let s8 = scale_factor(ExecutionMode::Throughput, 8);
    assert_eq!(flop_count(1000, s4), 80_000);
    assert_eq!(flop_count(1000, s8), 160_000);
    assert_eq!(scale_factor(ExecutionMode::Serial, 4), 1);
    assert_eq!(scale_factor(ExecutionMode::Worksharing, 8), 1);
    assert_eq!(flop_count(1000, scale_factor(ExecutionMode::Serial, 4)), 20_000);
}

#[test]
fn rate_from_flops_and_nanos() {
    // 80_000 operations in 1000 ns: 80_000 Mflop/s, in thousandths.
    assert_eq!(rate_milli_mflops(80_000, 1000), 80_000_000);
    assert_eq!(rate_milli_mflops(1, 1_000_000), 1);
}

#[test]
fn report_metrics_throughput_uses_thread_scale() {
    let m = report_metrics(1000, ExecutionMode::Throughput, 4, 1000);
    assert_eq!(m.volume_bytes, 32_000);
    assert_eq!(m.flop_total, 80_000);
    assert_eq!(m.min_time_nanos, 1000);
    assert_eq!(m.rate_milli_mflops, 80_000_000);
}

#[test]
fn report_metrics_zero_min_time_is_finite() {
    let m = report_metrics(10, ExecutionMode::Serial, 1, 0);
    assert_eq!(m.flop_total, 200);
    assert_eq!(m.rate_milli_mflops, 200 * 1_000_000);
}

#[test]
fn mode_from_code_maps_the_three_codes() {
    assert_eq!(mode_from_code(0), Some(ExecutionMode::Serial));
    assert_eq!(mode_from_code(1), Some(ExecutionMode::Throughput));
    assert_eq!(mode_from_code(2), Some(ExecutionMode::Worksharing));
    assert_eq!(mode_from_code(3), None);
    assert_eq!(mode_from_code(-1), None);
}

#[test]
fn resolve_thread_count_takes_the_larger_hint() {
    assert_eq!(resolve_thread_count(None, None), 1);
    assert_eq!(resolve_thread_count(Some(4), Some(2)), 4);
    assert_eq!(resolve_thread_count(Some(2), Some(6)), 6);
    assert_eq!(resolve_thread_count(Some(0), None), 1);
    assert_eq!(resolve_thread_count(None, Some(3)), 3);
}

#[test]
fn run_benchmark_serial_reports_consistent_metrics() {
    let m = run_benchmark(ExecutionMode::Serial, 100, 1);
    assert_eq!(m.volume_bytes, 3200);
    assert_eq!(m.flop_total, 2000);
    let effective = if m.min_time_nanos == 0 { 1 } else { m.min_time_nanos };
    assert_eq!(m.rate_milli_mflops, 2000u128 * 1_000_000 / effective as u128);
}
