//! Hardware performance-counter measurement for benchmarks: the counter
//! lifecycle of one configured event, and the rules that choose the unit in
//! which an event count, plain or normalized by a throughput, is displayed.

pub mod counter;
pub mod perf;
pub mod scale;
