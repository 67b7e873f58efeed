//! The statistics aggregator: running count, cumulative latency, and latency
//! extremes, together with the laws that tie a snapshot to the latencies that
//! were actually recorded.

use vstd::prelude::*;

verus! {

/// The smaller of two latencies.
pub open spec fn min_u64(a: u64, b: u64) -> u64 {
    if a <= b {
        a
    } else {
        b
    }
}

/// The larger of two latencies.
pub open spec fn max_u64(a: u64, b: u64) -> u64 {
    if a >= b {
        a
    } else {
        b
    }
}

/// Sum of a sequence of latencies, as an unbounded integer.
pub open spec fn seq_sum(s: Seq<u64>) -> int
    decreases s.len(),
{
    if s.len() == 0 {
        0
    } else {
        seq_sum(s.drop_last()) + s.last()
    }
}

/// Smallest latency in `s`; `u64::MAX` (the reset sentinel) when `s` is empty.
pub open spec fn seq_min_or_sentinel(s: Seq<u64>) -> u64
    decreases s.len(),
{
    if s.len() == 0 {
        u64::MAX
    } else {
        min_u64(seq_min_or_sentinel(s.drop_last()), s.last())
    }
}

/// Largest latency in `s`; 0 (the reset value) when `s` is empty.
pub open spec fn seq_max_or_zero(s: Seq<u64>) -> u64
    decreases s.len(),
{
    if s.len() == 0 {
        0
    } else {
        max_u64(seq_max_or_zero(s.drop_last()), s.last())
    }
}

/// A non-negative integer clamped into `u64`.
pub open spec fn sat_u64(x: int) -> u64 {
    if x > u64::MAX {
        u64::MAX
    } else if x < 0 {
        0
    } else {
        x as u64
    }
}

pub proof fn lemma_seq_sum_nonneg(s: Seq<u64>)
    ensures
        seq_sum(s) >= 0,
    decreases s.len(),
{
    if s.len() > 0 {
        lemma_seq_sum_nonneg(s.drop_last());
    }
}

/// Every element of `s` is bounded below by its minimum and above by its
/// maximum.
pub proof fn lemma_seq_extremes_bound_elements(s: Seq<u64>)
    ensures
        forall|i: int|
            0 <= i < s.len() ==> seq_min_or_sentinel(s) <= #[trigger] s[i]
                && s[i] <= seq_max_or_zero(s),
    decreases s.len(),
{
    if s.len() > 0 {
        lemma_seq_extremes_bound_elements(s.drop_last());
        assert forall|i: int|
            0 <= i < s.len() implies seq_min_or_sentinel(s) <= #[trigger] s[i]
            && s[i] <= seq_max_or_zero(s) by {
            if i < s.len() - 1 {
                assert(s.drop_last()[i] == s[i]);
            }
        }
    }
}

/// If every element of `s` lies in `[lo, hi]`, the sum lies between
/// `len * lo` and `len * hi`.
pub proof fn lemma_seq_sum_bounds(s: Seq<u64>, lo: u64, hi: u64)
    requires
        forall|i: int| 0 <= i < s.len() ==> lo <= #[trigger] s[i] && s[i] <= hi,
    ensures
        s.len() * lo <= seq_sum(s) <= s.len() * hi,
    decreases s.len(),
{
    if s.len() > 0 {
        assert forall|i: int|
            0 <= i < s.drop_last().len() implies lo <= #[trigger] s.drop_last()[i]
            && s.drop_last()[i] <= hi by {
            assert(s.drop_last()[i] == s[i]);
        }
        lemma_seq_sum_bounds(s.drop_last(), lo, hi);
        let n = s.len() as int;
        assert(n * lo == (n - 1) * lo + lo) by (nonlinear_arith);
        assert(n * hi == (n - 1) * hi + hi) by (nonlinear_arith);
        assert(s.drop_last().len() == n - 1);
    }
}

/// Clamping an already clamped partial sum again is the same as clamping the
/// full sum once.
pub proof fn lemma_sat_add(x: int, y: u64)
    requires
        x >= 0,
    ensures
        sat_u64(sat_u64(x) + y) == sat_u64(x + y),
{
}

/// The snapshot that the aggregator reports to callers.
#[derive(Clone, Copy, Debug, PartialEq, Eq, Structural)]
pub struct StatsSnapshot {
    pub total_executions: u64,
    pub avg_latency_ns: u64,
    pub min_latency_ns: u64,
    pub max_latency_ns: u64,
}

/// Running latency statistics.  The ghost field `observed` holds every latency
/// ever fed to `record` since the last reset; the four counters are exactly
/// the count, the (clamped) sum, and the extremes of that history.
pub struct LatencyStats {
    pub total_executions: u64,
    pub total_latency_ns: u64,
    pub min_latency_ns: u64,
    pub max_latency_ns: u64,
    pub observed: Ghost<Seq<u64>>,
}

impl LatencyStats {
    /// The counters agree with the recorded history.
    pub open spec fn wf(self) -> bool {
        &&& self.total_executions == sat_u64(self.observed@.len() as int)
        &&& self.total_latency_ns == sat_u64(seq_sum(self.observed@))
        &&& self.min_latency_ns == seq_min_or_sentinel(self.observed@)
        &&& self.max_latency_ns == seq_max_or_zero(self.observed@)
    }

    /// The state immediately after construction or `reset`: an empty history,
    /// with the minimum held at its `u64::MAX` sentinel.
    pub open spec fn is_reset(self) -> bool {
        self.observed@.len() == 0 && self.wf()
    }

    /// What `snapshot` returns: the counters, with the average as the
    /// truncating quotient of sum by count and the untouched-minimum sentinel
    /// normalized to 0.
    pub open spec fn snapshot_spec(self) -> StatsSnapshot {
        StatsSnapshot {
            total_executions: self.total_executions,
            avg_latency_ns: if self.total_executions > 0 {
                self.total_latency_ns / self.total_executions
            } else {
                0
            },
            min_latency_ns: if self.min_latency_ns == u64::MAX {
                0
            } else {
                self.min_latency_ns
            },
            max_latency_ns: self.max_latency_ns,
        }
    }

    pub fn new() -> (r: LatencyStats)
        ensures
            r.is_reset(),
            r.observed@ == Seq::<u64>::empty(),
            r.total_executions == 0,
            r.total_latency_ns == 0,
            r.min_latency_ns == u64::MAX,
            r.max_latency_ns == 0,
    {
        LatencyStats {
            total_executions: 0,
            total_latency_ns: 0,
            min_latency_ns: u64::MAX,
            max_latency_ns: 0,
            observed: Ghost(Seq::empty()),
        }
    }

    /// Record one latency: count and sum grow (clamped at `u64::MAX` rather
    /// than wrapping), and the extremes absorb the new value.
    pub fn record(&mut self, latency_ns: u64)
        requires
            old(self).wf(),
        ensures
            final(self).wf(),
            final(self).observed@ == old(self).observed@.push(latency_ns),
            final(self).total_executions == sat_u64(old(self).total_executions as int + 1),
            final(self).total_latency_ns == sat_u64(
                old(self).total_latency_ns as int + latency_ns as int,
            ),
            final(self).min_latency_ns == min_u64(old(self).min_latency_ns, latency_ns),
            final(self).max_latency_ns == max_u64(old(self).max_latency_ns, latency_ns),
    {
        self.total_executions = self.total_executions.saturating_add(1);
        self.total_latency_ns = self.total_latency_ns.saturating_add(latency_ns);
        if latency_ns < self.min_latency_ns {
            self.min_latency_ns = latency_ns;
        }
        if latency_ns > self.max_latency_ns {
            self.max_latency_ns = latency_ns;
        }
        let ghost s = self.observed@;
        self.observed = Ghost(self.observed@.push(latency_ns));
        proof {
            assert(s.push(latency_ns).drop_last() =~= s);
            lemma_seq_sum_nonneg(s);
            lemma_sat_add(s.len() as int, 1);
            lemma_sat_add(seq_sum(s), latency_ns);
        }
    }

    /// Report the current counters; see `snapshot_spec`.
    pub fn snapshot(&self) -> (r: StatsSnapshot)
        ensures
            r == self.snapshot_spec(),
    {
        let total_executions = self.total_executions;
        let avg_latency_ns = if total_executions > 0 {
            self.total_latency_ns / total_executions
        } else {
            0
        };
        StatsSnapshot {
            total_executions,
            avg_latency_ns,
            min_latency_ns: if self.min_latency_ns == u64::MAX {
                0
            } else {
                self.min_latency_ns
            },
            max_latency_ns: self.max_latency_ns,
        }
    }

    /// Clear all counters back to their neutral identities.
    pub fn reset(&mut self)
        ensures
            final(self).is_reset(),
            final(self).observed@ == Seq::<u64>::empty(),
            final(self).total_executions == 0,
            final(self).total_latency_ns == 0,
            final(self).min_latency_ns == u64::MAX,
            final(self).max_latency_ns == 0,
    {
        self.total_executions = 0;
        self.total_latency_ns = 0;
        self.min_latency_ns = u64::MAX;
        self.max_latency_ns = 0;
        self.observed = Ghost(Seq::empty());
    }
}

/// Law: after any sequence of `record` calls, the reported minimum is at most
/// every recorded latency and the reported maximum is at least every recorded
/// latency; and as long as neither the count nor the sum has been clamped, the
/// reported average is exactly the truncating quotient of the recorded sum by
/// the recorded count.
pub proof fn lemma_snapshot_bounds_observed(s: LatencyStats)
    requires
        s.wf(),
    ensures
        forall|i: int|
            0 <= i < s.observed@.len() ==> s.snapshot_spec().min_latency_ns <= #[trigger] s.observed@[i]
                && s.observed@[i] <= s.snapshot_spec().max_latency_ns,
        s.observed@.len() > 0 && s.observed@.len() <= u64::MAX && seq_sum(s.observed@) <= u64::MAX
            ==> s.snapshot_spec().avg_latency_ns == seq_sum(s.observed@) / s.observed@.len() as int,
{
    lemma_seq_extremes_bound_elements(s.observed@);
    lemma_seq_sum_nonneg(s.observed@);
}

/// Law: a freshly reset aggregator reports all-zero statistics.
pub proof fn lemma_reset_snapshot_zero(s: LatencyStats)
    requires
        s.is_reset(),
    ensures
        s.snapshot_spec() == (StatsSnapshot {
            total_executions: 0,
            avg_latency_ns: 0,
            min_latency_ns: 0,
            max_latency_ns: 0,
        }),
{
}

} // verus!
