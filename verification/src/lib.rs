//! A memory-bandwidth microbenchmark built around the "triad" kernel
//! `A[j] = B[j] + C[j] * D[j]`.
//!
//! Buffer elements are fixed-point numbers carried in `u64` values: one unit
//! of real value is [`kernel::FIXED_POINT_SCALE`] stored units, so the
//! standard operand constants (1.0, 0.5, 1.01) and the triad result for them
//! (1.505) are all exact. An element is eight bytes wide, so the kernel moves
//! the same volume of memory per element as a double-precision one would.
//!
//! The crate provides the kernel, three execution strategies (serial,
//! replicated-throughput, worksharing), a calibration search for an iteration
//! count that yields a measurable duration, a minimum-of-ten measurement
//! harness, and the derived volume and rate metrics.

pub mod bench;
pub mod calibrate;
pub mod config;
pub mod kernel;
pub mod measure;
pub mod metrics;
pub mod strategy;
pub mod timing;
