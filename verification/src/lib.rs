//! A minimal host-embedded execution simulator: orders are turned into
//! synthetic fills while per-call latencies flow into a running statistics
//! aggregator.  Prices and quantities travel through the engine untouched, as
//! opaque IEEE-754 bit patterns, so the fill policy and every counter update
//! carry full functional contracts.

pub mod batch;
pub mod bench;
pub mod engine;
pub mod stats;

pub use batch::Order;
pub use batch::execute_batch;
pub use bench::BenchmarkReport;
pub use bench::ExecError;
pub use bench::benchmark_latency;
pub use engine::RustExecution;
pub use engine::RustExecutionEngine;
pub use engine::SLIPPAGE_BUY_BITS;
pub use engine::SLIPPAGE_SELL_BITS;
pub use stats::LatencyStats;
pub use stats::StatsSnapshot;
