//! The benchmark harness: a fresh engine is warmed up, its statistics are
//! reset, a fixed synthetic order is executed a caller-chosen number of times,
//! and the observed latencies are sorted so that percentiles can be read off
//! by direct index.

use vstd::prelude::*;
use vstd::arithmetic::div_mod::lemma_div_is_ordered;
use vstd::arithmetic::div_mod::lemma_div_multiples_vanish;
use vstd::arithmetic::div_mod::lemma_fundamental_div_mod;
use vstd::pervasive::VecAdditionalExecFns;
use vstd::relations::sorted_by;
use vstd::relations::total_ordering;
use vstd::seq_lib::lemma_sorted_unique;

use crate::engine::RustExecutionEngine;
use crate::stats::lemma_sat_add;
use crate::stats::lemma_seq_sum_bounds;
use crate::stats::lemma_seq_sum_nonneg;
use crate::stats::sat_u64;
use crate::stats::seq_sum;

verus! {

/// Bit pattern of the double-precision price 50000.0 of the fixed synthetic
/// benchmark order.
pub const BENCH_PRICE_BITS: u64 = 0x40E86A0000000000;

/// Bit pattern of the double-precision quantity 1.0 of the fixed synthetic
/// benchmark order.
pub const BENCH_QUANTITY_BITS: u64 = 0x3FF0000000000000;

/// How many discarded executions warm the engine up before measurement.
pub const WARMUP_EXECUTIONS: u64 = 100;

/// The ascending order on latencies.
pub open spec fn u64_leq() -> spec_fn(u64, u64) -> bool {
    |x: u64, y: u64| x <= y
}

/// The ascending rearrangement of a sequence of latencies.
pub open spec fn sorted_of(s: Seq<u64>) -> Seq<u64> {
    s.sort_by(u64_leq())
}

pub proof fn lemma_u64_leq_total_ordering()
    ensures
        total_ordering(u64_leq()),
{
    assert(forall|x: u64| #[trigger] u64_leq()(x, x));
}

/// The benchmark's distributional summary.  All fields are nanosecond values
/// except `iterations`.
#[derive(Clone, Copy, Debug, PartialEq, Eq, Structural)]
pub struct BenchmarkReport {
    pub iterations: usize,
    pub avg_ns: u64,
    pub min_ns: u64,
    pub max_ns: u64,
    pub p50_ns: u64,
    pub p95_ns: u64,
    pub p99_ns: u64,
}

/// Why a benchmark request was rejected.
#[derive(Clone, Copy, Debug, PartialEq, Eq, Structural)]
pub enum ExecError {
    /// The harness indexes percentiles into the measured latencies, so it
    /// needs at least one iteration.
    ZeroIterations,
}

/// Sort latencies ascending, in place: the result is exactly the ascending
/// rearrangement of the input.
pub fn sort_latencies(v: &mut Vec<u64>)
    ensures
        final(v)@ == sorted_of(old(v)@),
        final(v)@.len() == old(v)@.len(),
        final(v)@.to_multiset() == old(v)@.to_multiset(),
        sorted_by(final(v)@, u64_leq()),
{
    let ghost orig = v@;
    let mut i: usize = 1;
    while i < v.len()
        invariant
            v@.len() == orig.len(),
            v@.to_multiset() == orig.to_multiset(),
            1 <= i,
            forall|a: int, b: int| 0 <= a < b < i && b < v@.len() ==> v@[a] <= v@[b],
        decreases v@.len() - i,
    {
        let mut j: usize = i;
        while j > 0 && v[j - 1] > v[j]
            invariant
                v@.len() == orig.len(),
                v@.to_multiset() == orig.to_multiset(),
                j <= i < v@.len(),
                forall|a: int, b: int| 0 <= a < b <= i && b != j ==> v@[a] <= v@[b],
            decreases j,
        {
            let ghost pre = v@;
            let x = v[j - 1];
            let y = v[j];
            v.set(j - 1, y);
            v.set(j, x);
            proof {
                broadcast use vstd::seq_lib::to_multiset_update;
                broadcast use vstd::multiset::group_multiset_axioms;

                let mid = pre.update(j - 1, y);
                assert(mid[j as int] == y);
                assert(pre.contains(x)) by {
                    assert(pre[j - 1] == x);
                }
                assert(pre.to_multiset().contains(x)) by {
                    broadcast use vstd::seq_lib::to_multiset_contains;
                }
                assert(mid.update(j as int, x).to_multiset() =~= pre.to_multiset());
            }
            j = j - 1;
        }
        i = i + 1;
    }
    proof {
        let leq = u64_leq();
        lemma_u64_leq_total_ordering();
        assert(sorted_by(v@, leq));
        orig.lemma_sort_by_ensures(leq);
        lemma_sorted_unique(v@, orig.sort_by(leq), leq);
        assert(v@ =~= sorted_of(orig));
    }
}

/// Distill the report from the measured latencies: the percentiles are read
/// off the ascending sort by direct index (p50 at `n / 2`, p95 at
/// `n * 95 / 100`, p99 at `n * 99 / 100`), the extremes are the first and
/// last sorted entries, and the average is the truncating quotient of the
/// (clamped) sum by the number of samples.  The percentiles therefore come
/// out in ascending order, and the average never exceeds the maximum; it is
/// also at least the minimum whenever the sum has not been clamped.
pub fn percentile_report(latencies: Vec<u64>) -> (r: BenchmarkReport)
    requires
        latencies@.len() >= 1,
        latencies@.len() <= usize::MAX / 100,
    ensures
        r.iterations == latencies@.len(),
        r.min_ns == sorted_of(latencies@)[0],
        r.max_ns == sorted_of(latencies@)[latencies@.len() - 1],
        r.p50_ns == sorted_of(latencies@)[(latencies@.len() / 2) as int],
        r.p95_ns == sorted_of(latencies@)[((latencies@.len() * 95) / 100) as int],
        r.p99_ns == sorted_of(latencies@)[((latencies@.len() * 99) / 100) as int],
        r.avg_ns == sat_u64(seq_sum(latencies@)) / (latencies@.len() as u64),
        r.min_ns <= r.p50_ns && r.p50_ns <= r.p95_ns && r.p95_ns <= r.p99_ns && r.p99_ns
            <= r.max_ns,
        r.avg_ns <= r.max_ns,
        seq_sum(latencies@) <= u64::MAX ==> r.min_ns <= r.avg_ns,
{
    let n = latencies.len();

    let mut total: u64 = 0;
    let mut k: usize = 0;
    while k < n
        invariant
            n == latencies@.len(),
            k <= n,
            total == sat_u64(seq_sum(latencies@.subrange(0, k as int))),
        decreases n - k,
    {
        total = total.saturating_add(latencies[k]);
        proof {
            let pre = latencies@.subrange(0, k as int);
            let post = latencies@.subrange(0, k as int + 1);
            assert(post.drop_last() =~= pre);
            lemma_seq_sum_nonneg(pre);
            lemma_sat_add(seq_sum(pre), latencies@[k as int]);
        }
        k = k + 1;
    }
    proof {
        assert(latencies@.subrange(0, n as int) =~= latencies@);
    }
    let avg_ns = total / (n as u64);

    let mut sorted = latencies;
    sort_latencies(&mut sorted);

    proof {
        lemma_fundamental_div_mod(usize::MAX as int, 100);
        lemma_fundamental_div_mod(n as int, 2);
        lemma_fundamental_div_mod(n as int * 95, 100);
        lemma_fundamental_div_mod(n as int * 99, 100);
    }
    let i50 = n / 2;
    let i95 = n * 95 / 100;
    let i99 = n * 99 / 100;

    let min_ns = sorted[0];
    let max_ns = sorted[n - 1];
    let p50_ns = sorted[i50];
    let p95_ns = sorted[i95];
    let p99_ns = sorted[i99];

    proof {
        let s = sorted@;
        let orig = latencies@;
        let ni = n as int;
        // Neighbouring sorted entries are ordered, so entries at ordered
        // indices are too.
        assert forall|a: int, b: int| 0 <= a <= b < s.len() implies s[a] <= s[b] by {
            if a < b {
                assert(u64_leq()(s[a], s[b]));
            }
        }
        // The percentile indices are themselves ordered: n/2 <= 95n/100 <=
        // 99n/100 <= n - 1.
        assert(100 * (i50 as int) <= 50 * ni);
        assert(100 * (i95 as int) <= 95 * ni < 100 * (i95 as int) + 100);
        assert(100 * (i99 as int) <= 99 * ni < 100 * (i99 as int) + 100);
        assert(i50 as int <= i95 as int);
        assert(i95 as int <= i99 as int);
        assert(min_ns <= p50_ns && p50_ns <= p95_ns && p95_ns <= p99_ns && p99_ns <= max_ns);
        // Every sample lies between the first and last sorted entries.
        assert forall|i: int|
            0 <= i < orig.len() implies min_ns <= #[trigger] orig[i] && orig[i] <= max_ns by {
            broadcast use vstd::seq_lib::group_to_multiset_ensures;

            assert(orig.contains(orig[i]));
            assert(s.to_multiset().count(orig[i]) > 0);
            assert(s.contains(orig[i]));
            let j = choose|j: int| 0 <= j < s.len() && s[j] == orig[i];
            assert(u64_leq()(s[0], s[j]) || j == 0);
            assert(u64_leq()(s[j], s[s.len() - 1]) || j == s.len() - 1);
        }
        lemma_seq_sum_bounds(orig, min_ns, max_ns);
        lemma_seq_sum_nonneg(orig);
        let sum = seq_sum(orig);
        // avg <= max: the clamped sum is at most n * max.
        lemma_div_is_ordered(sat_u64(sum) as int, ni * max_ns, ni);
        lemma_div_multiples_vanish(max_ns as int, ni);
        assert(ni * max_ns == max_ns * ni) by (nonlinear_arith);
        // min <= avg when nothing was clamped: the sum is at least n * min.
        if sum <= u64::MAX {
            lemma_div_is_ordered(ni * min_ns, sat_u64(sum) as int, ni);
            lemma_div_multiples_vanish(min_ns as int, ni);
            assert(ni * min_ns == min_ns * ni) by (nonlinear_arith);
        }
    }

    BenchmarkReport { iterations: n, avg_ns, min_ns, max_ns, p50_ns, p95_ns, p99_ns }
}

/// Run the benchmark: construct a fresh engine, execute the fixed synthetic
/// order (symbol 1, buy, market, price 50000.0, quantity 1.0) 100 times as a
/// discarded warm-up, reset the statistics, execute it `iterations` measured
/// times, and report the percentile summary of the measured latencies.
/// `iterations` of 0 is rejected with `ExecError::ZeroIterations` (the
/// percentile indexing would be undefined); every positive request succeeds.
pub fn benchmark_latency(iterations: usize) -> (r: Result<BenchmarkReport, ExecError>)
    requires
        iterations <= usize::MAX / 100,
    ensures
        iterations == 0 <==> r is Err,
        r is Err ==> r == Err::<BenchmarkReport, ExecError>(ExecError::ZeroIterations),
        r matches Ok(rep) ==> rep.iterations == iterations && rep.min_ns <= rep.p50_ns
            && rep.p50_ns <= rep.p95_ns && rep.p95_ns <= rep.p99_ns && rep.p99_ns <= rep.max_ns
            && rep.avg_ns <= rep.max_ns,
{
    if iterations == 0 {
        return Err(ExecError::ZeroIterations);
    }

    let mut engine = RustExecutionEngine::new();

    let mut warm: u64 = 0;
    while warm < WARMUP_EXECUTIONS
        invariant
            engine.wf(),
            warm <= WARMUP_EXECUTIONS,
            engine.next_order_id == 1 + warm,
        decreases WARMUP_EXECUTIONS - warm,
    {
        let _ = engine.execute_order(1, 0, 0, BENCH_PRICE_BITS, BENCH_QUANTITY_BITS);
        warm = warm + 1;
    }

    engine.reset_stats();

    let mut latencies: Vec<u64> = Vec::with_capacity(iterations);
    let mut i: usize = 0;
    while i < iterations
        invariant
            engine.wf(),
            i <= iterations,
            iterations <= usize::MAX / 100,
            engine.next_order_id == 1 + WARMUP_EXECUTIONS + i,
            latencies@.len() == i,
        decreases iterations - i,
    {
        let execution = engine.execute_order(1, 0, 0, BENCH_PRICE_BITS, BENCH_QUANTITY_BITS);
        latencies.push(execution.latency_ns);
        i = i + 1;
    }

    Ok(percentile_report(latencies))
}

} // verus!
