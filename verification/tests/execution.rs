use rust_execution::engine::RustExecutionEngine;
use rust_execution::engine::SLIPPAGE_BUY_BITS;
use rust_execution::engine::SLIPPAGE_SELL_BITS;
use rust_execution::stats::LatencyStats;

#[test]
fn slippage_constants_decode() {
    assert_eq!(f64::from_bits(SLIPPAGE_BUY_BITS), 0.0001);
    assert_eq!(f64::from_bits(SLIPPAGE_SELL_BITS), -0.0001);
}

#[test]
fn fill_echoes_price_and_quantity() {
    let mut engine = RustExecutionEngine::new();
    let price = 123.456f64;
    let quantity = 7.89f64;
    let record = engine.execute_order(42, 0, 1, price.to_bits(), quantity.to_bits());
    assert_eq!(f64::from_bits(record.executed_price_bits), price);
    assert_eq!(f64::from_bits(record.executed_quantity_bits), quantity);
    assert_eq!(f64::from_bits(record.slippage_bits), 0.0001);
}

#[test]
fn slippage_signed_by_side() {
    let mut engine = RustExecutionEngine::new();
    let buy = engine.execute_order(1, 0, 0, 50000f64.to_bits(), 1f64.to_bits());
    let sell = engine.execute_order(1, 1, 0, 50000f64.to_bits(), 1f64.to_bits());
    let odd_side = engine.execute_order(1, 7, 0, 50000f64.to_bits(), 1f64.to_bits());
    assert_eq!(f64::from_bits(buy.slippage_bits), 0.0001);
    assert_eq!(f64::from_bits(sell.slippage_bits), -0.0001);
    assert_eq!(f64::from_bits(odd_side.slippage_bits), -0.0001);
}

#[test]
fn order_type_has_no_effect_on_fill() {
    let mut engine = RustExecutionEngine::new();
    let price = 99.5f64.to_bits();
    let quantity = 2.0f64.to_bits();
    let market = engine.execute_order(1, 0, 0, price, quantity);
    let limit = engine.execute_order(1, 0, 1, price, quantity);
    assert_eq!(market.executed_price_bits, limit.executed_price_bits);
    assert_eq!(market.executed_quantity_bits, limit.executed_quantity_bits);
    assert_eq!(market.slippage_bits, limit.slippage_bits);
}

#[test]
fn sequential_order_ids_are_consecutive_from_one() {
    let mut engine = RustExecutionEngine::new();
    let mut ids = Vec::new();
    for _ in 0..5 {
        let record = engine.execute_order(1, 0, 0, 50000f64.to_bits(), 1f64.to_bits());
        ids.push(record.order_id);
    }
    assert_eq!(ids, vec![1, 2, 3, 4, 5]);
}

#[test]
fn stats_track_extremes_and_truncating_average() {
    let mut stats = LatencyStats::new();
    stats.record(5);
    stats.record(3);
    stats.record(9);
    let snap = stats.snapshot();
    assert_eq!(snap.total_executions, 3);
    assert_eq!(snap.min_latency_ns, 3);
    assert_eq!(snap.max_latency_ns, 9);
    assert_eq!(snap.avg_latency_ns, 17 / 3);
}

#[test]
fn average_is_integer_division() {
    let mut stats = LatencyStats::new();
    stats.record(1);
    stats.record(2);
    let snap = stats.snapshot();
    assert_eq!(snap.avg_latency_ns, 1);
}

#[test]
fn empty_stats_snapshot_is_all_zero() {
    let stats = LatencyStats::new();
    let snap = stats.snapshot();
    assert_eq!(snap.total_executions, 0);
    assert_eq!(snap.avg_latency_ns, 0);
    assert_eq!(snap.min_latency_ns, 0);
    assert_eq!(snap.max_latency_ns, 0);
}

#[test]
fn reset_then_snapshot_is_all_zero() {
    let mut engine = RustExecutionEngine::new();
    for _ in 0..4 {
        engine.execute_order(1, 0, 0, 50000f64.to_bits(), 1f64.to_bits());
    }
    engine.reset_stats();
    let snap = engine.get_stats();
    assert_eq!(snap.total_executions, 0);
    assert_eq!(snap.avg_latency_ns, 0);
    assert_eq!(snap.min_latency_ns, 0);
    assert_eq!(snap.max_latency_ns, 0);
}

#[test]
fn observed_latencies_lie_between_snapshot_extremes() {
    let mut engine = RustExecutionEngine::new();
    let mut latencies = Vec::new();
    for _ in 0..50 {
        let record = engine.execute_order(1, 0, 0, 50000f64.to_bits(), 1f64.to_bits());
        latencies.push(record.latency_ns);
    }
    let snap = engine.get_stats();
    assert_eq!(snap.total_executions, 50);
    for latency in latencies {
        assert!(snap.min_latency_ns <= latency);
        assert!(latency <= snap.max_latency_ns);
    }
    assert!(snap.min_latency_ns <= snap.avg_latency_ns);
    assert!(snap.avg_latency_ns <= snap.max_latency_ns);
}

#[test]
fn untouched_minimum_sentinel_reports_as_zero() {
    let mut stats = LatencyStats::new();
    stats.record(u64::MAX);
    let snap = stats.snapshot();
    assert_eq!(snap.total_executions, 1);
    assert_eq!(snap.min_latency_ns, 0);
    assert_eq!(snap.max_latency_ns, u64::MAX);
}

#[test]
fn order_ids_survive_stats_reset() {
    let mut engine = RustExecutionEngine::new();
    engine.execute_order(1, 0, 0, 50000f64.to_bits(), 1f64.to_bits());
    engine.reset_stats();
    let record = engine.execute_order(1, 0, 0, 50000f64.to_bits(), 1f64.to_bits());
    assert_eq!(record.order_id, 2);
}
