use rust_execution::batch::Order;
use rust_execution::batch::execute_batch;
use rust_execution::bench::ExecError;
use rust_execution::bench::benchmark_latency;
use rust_execution::bench::percentile_report;
use rust_execution::bench::sort_latencies;
use rust_execution::engine::RustExecutionEngine;

fn order(side: u8, price: f64, quantity: f64) -> Order {
    Order {
        symbol_id: 1,
        side,
        order_type: 0,
        price_bits: price.to_bits(),
        quantity_bits: quantity.to_bits(),
    }
}

#[test]
fn empty_batch_returns_empty() {
    let mut engine = RustExecutionEngine::new();
    let records = execute_batch(&mut engine, &Vec::new());
    assert!(records.is_empty());
    assert_eq!(engine.get_stats().total_executions, 0);
}

#[test]
fn batch_of_three_preserves_order_with_increasing_ids() {
    let mut engine = RustExecutionEngine::new();
    let orders = vec![order(0, 100.0, 1.0), order(1, 200.0, 2.0), order(0, 300.0, 3.0)];
    let records = execute_batch(&mut engine, &orders);
    assert_eq!(records.len(), 3);
    assert_eq!(f64::from_bits(records[0].executed_price_bits), 100.0);
    assert_eq!(f64::from_bits(records[1].executed_price_bits), 200.0);
    assert_eq!(f64::from_bits(records[2].executed_price_bits), 300.0);
    assert_eq!(f64::from_bits(records[1].executed_quantity_bits), 2.0);
    assert_eq!(f64::from_bits(records[1].slippage_bits), -0.0001);
    assert!(records[0].order_id < records[1].order_id);
    assert!(records[1].order_id < records[2].order_id);
    assert_eq!(records[0].order_id, 1);
    assert_eq!(records[2].order_id, 3);
    assert_eq!(engine.get_stats().total_executions, 3);
}

#[test]
fn batch_ids_continue_after_single_executions() {
    let mut engine = RustExecutionEngine::new();
    engine.execute_order(1, 0, 0, 50000f64.to_bits(), 1f64.to_bits());
    let records = execute_batch(&mut engine, &vec![order(0, 1.0, 1.0), order(1, 2.0, 1.0)]);
    assert_eq!(records[0].order_id, 2);
    assert_eq!(records[1].order_id, 3);
}

#[test]
fn sorting_orders_latencies_ascending() {
    let mut latencies = vec![3u64, 1, 2, 2, 10];
    sort_latencies(&mut latencies);
    assert_eq!(latencies, vec![1, 2, 2, 3, 10]);
}

#[test]
fn percentile_report_reads_exact_indices() {
    let report = percentile_report(vec![5u64, 1, 9, 3]);
    // ascending: [1, 3, 5, 9]
    assert_eq!(report.iterations, 4);
    assert_eq!(report.min_ns, 1);
    assert_eq!(report.max_ns, 9);
    assert_eq!(report.p50_ns, 5);
    assert_eq!(report.p95_ns, 9);
    assert_eq!(report.p99_ns, 9);
    assert_eq!(report.avg_ns, 18 / 4);
}

#[test]
fn percentile_report_single_sample() {
    let report = percentile_report(vec![7u64]);
    assert_eq!(report.iterations, 1);
    assert_eq!(report.min_ns, 7);
    assert_eq!(report.max_ns, 7);
    assert_eq!(report.p50_ns, 7);
    assert_eq!(report.p95_ns, 7);
    assert_eq!(report.p99_ns, 7);
    assert_eq!(report.avg_ns, 7);
}

#[test]
fn benchmark_of_zero_iterations_is_rejected() {
    assert_eq!(benchmark_latency(0), Err(ExecError::ZeroIterations));
}

#[test]
fn benchmark_of_hundred_iterations_orders_percentiles() {
    let report = benchmark_latency(100).unwrap();
    assert_eq!(report.iterations, 100);
    assert!(report.min_ns <= report.p50_ns);
    assert!(report.p50_ns <= report.p95_ns);
    assert!(report.p95_ns <= report.p99_ns);
    assert!(report.p99_ns <= report.max_ns);
    assert!(report.min_ns <= report.avg_ns);
    assert!(report.avg_ns <= report.max_ns);
}

#[test]
fn benchmark_of_one_iteration_reports_one_latency() {
    let report = benchmark_latency(1).unwrap();
    assert_eq!(report.iterations, 1);
    assert_eq!(report.min_ns, report.max_ns);
    assert_eq!(report.p50_ns, report.min_ns);
    assert_eq!(report.p95_ns, report.min_ns);
    assert_eq!(report.p99_ns, report.min_ns);
    assert_eq!(report.avg_ns, report.min_ns);
}
