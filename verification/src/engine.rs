//! The execution engine: order-id assignment, the fill policy, and per-call
//! latency measurement feeding the statistics aggregator.
//!
//! Prices, quantities and slippage are carried as IEEE-754 double-precision
//! bit patterns (`u64`).  The engine never interprets them: the fill policy
//! echoes price and quantity bit for bit and picks one of two fixed slippage
//! constants by side, so the contracts can pin every field down exactly.

use vstd::prelude::*;

use crate::stats::LatencyStats;
use crate::stats::StatsSnapshot;

verus! {

/// Bit pattern of the double-precision constant 0.0001, the slippage applied
/// to buy orders (side 0).
pub const SLIPPAGE_BUY_BITS: u64 = 0x3F1A36E2EB1C432D;

/// Bit pattern of the double-precision constant -0.0001, the slippage applied
/// to sell orders (any non-zero side).
pub const SLIPPAGE_SELL_BITS: u64 = 0xBF1A36E2EB1C432D;

/// The slippage constant the fill policy assigns for a given side.
pub open spec fn slippage_bits_for_side(side: u8) -> u64 {
    if side == 0 {
        SLIPPAGE_BUY_BITS
    } else {
        SLIPPAGE_SELL_BITS
    }
}

#[verifier::external_type_specification]
#[verifier::external_body]
pub struct ExInstant(std::time::Instant);

/// Relies on std::time::Instant::now, for an opaque monotonic timestamp.  The
/// value depends on the clock, so nothing is promised of it.
#[verifier::external_body]
fn clock_now() -> std::time::Instant {
    std::time::Instant::now()
}

/// Relies on std::time::Instant::elapsed, for the wall-clock nanoseconds since
/// `start` (truncated into `u64`).  The value depends on the clock, so nothing
/// is promised of it; everything downstream holds for every value.
#[verifier::external_body]
fn clock_elapsed_ns(start: &std::time::Instant) -> u64 {
    start.elapsed().as_nanos() as u64
}

/// One simulated fill, created once per call and never mutated.  The
/// `*_bits` fields are double-precision bit patterns.
#[derive(Clone, Copy, Debug, PartialEq, Eq, Structural)]
pub struct RustExecution {
    pub order_id: u64,
    pub executed_price_bits: u64,
    pub executed_quantity_bits: u64,
    pub latency_ns: u64,
    pub slippage_bits: u64,
}

/// One engine instance: the next order id to hand out, and the latency
/// statistics of every execution since the last reset.
pub struct RustExecutionEngine {
    pub next_order_id: u64,
    pub stats: LatencyStats,
}

impl RustExecutionEngine {
    /// Order ids start at 1 and the counters agree with the recorded history.
    pub open spec fn wf(self) -> bool {
        self.next_order_id >= 1 && self.stats.wf()
    }

    pub fn new() -> (r: RustExecutionEngine)
        ensures
            r.wf(),
            r.next_order_id == 1,
            r.stats.is_reset(),
            r.stats.observed@ == Seq::<u64>::empty(),
    {
        RustExecutionEngine { next_order_id: 1, stats: LatencyStats::new() }
    }

    /// The fill policy: the order executes at the requested price with the
    /// requested quantity whatever the order type, and slippage is a fixed
    /// constant signed by side.  Pure; a placeholder for a real liquidity
    /// model.
    pub fn execute_internal(price_bits: u64, quantity_bits: u64, side: u8, order_type: u8) -> (r:
        (u64, u64, u64))
        ensures
            r.0 == price_bits,
            r.1 == quantity_bits,
            r.2 == slippage_bits_for_side(side),
    {
        // Both order types currently fill at the requested price.
        let _ = order_type;
        let slippage_bits = if side == 0 {
            SLIPPAGE_BUY_BITS
        } else {
            SLIPPAGE_SELL_BITS
        };
        (price_bits, quantity_bits, slippage_bits)
    }

    /// Execute one order: assign the next order id, apply the fill policy,
    /// measure the elapsed nanoseconds, and record them in the aggregator.
    /// The returned record echoes price and quantity exactly and carries the
    /// side-signed slippage constant; its latency is whatever the clock
    /// measured, and is precisely the value appended to the recorded history.
    pub fn execute_order(
        &mut self,
        symbol_id: u32,
        side: u8,
        order_type: u8,
        price_bits: u64,
        quantity_bits: u64,
    ) -> (r: RustExecution)
        requires
            old(self).wf(),
            old(self).next_order_id < u64::MAX,
        ensures
            final(self).wf(),
            r.order_id == old(self).next_order_id,
            final(self).next_order_id == old(self).next_order_id + 1,
            r.executed_price_bits == price_bits,
            r.executed_quantity_bits == quantity_bits,
            r.slippage_bits == slippage_bits_for_side(side),
            final(self).stats.observed@ == old(self).stats.observed@.push(r.latency_ns),
    {
        let _ = symbol_id;
        let start = clock_now();

        let order_id = self.next_order_id;
        self.next_order_id = order_id + 1;

        let (executed_price_bits, executed_quantity_bits, slippage_bits) =
            Self::execute_internal(price_bits, quantity_bits, side, order_type);

        let latency_ns = clock_elapsed_ns(&start);

        self.stats.record(latency_ns);

        RustExecution {
            order_id,
            executed_price_bits,
            executed_quantity_bits,
            latency_ns,
            slippage_bits,
        }
    }

    /// Report the aggregator's current snapshot.
    pub fn get_stats(&self) -> (r: StatsSnapshot)
        ensures
            r == self.stats.snapshot_spec(),
    {
        self.stats.snapshot()
    }

    /// Clear the aggregator; order ids keep counting from where they were.
    pub fn reset_stats(&mut self)
        ensures
            final(self).stats.is_reset(),
            final(self).stats.observed@ == Seq::<u64>::empty(),
            final(self).next_order_id == old(self).next_order_id,
            old(self).wf() ==> final(self).wf(),
    {
        self.stats.reset();
    }
}

/// Law: order ids assigned consecutively from a starting id are pairwise
/// distinct and form exactly the ids `start`, `start + 1`, ...: no gaps, no
/// duplicates.
pub proof fn lemma_order_ids_consecutive_distinct(recs: Seq<RustExecution>, start: u64)
    requires
        forall|i: int| 0 <= i < recs.len() ==> #[trigger] recs[i].order_id == start + i,
    ensures
        forall|i: int, j: int|
            0 <= i < j < recs.len() ==> recs[i].order_id != recs[j].order_id,
        forall|i: int|
            0 <= i < recs.len() ==> start <= #[trigger] recs[i].order_id < start + recs.len(),
{
}

} // verus!
