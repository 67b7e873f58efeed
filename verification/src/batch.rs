//! The batch runner: one engine applied sequentially over a sequence of
//! orders, preserving the caller's order in the results.

use vstd::prelude::*;

use crate::engine::RustExecution;
use crate::engine::RustExecutionEngine;
use crate::engine::slippage_bits_for_side;

verus! {

/// One order as handed to the batch runner.  Price and quantity are
/// double-precision bit patterns, carried through untouched.
#[derive(Clone, Copy, Debug, PartialEq, Eq, Structural)]
pub struct Order {
    pub symbol_id: u32,
    pub side: u8,
    pub order_type: u8,
    pub price_bits: u64,
    pub quantity_bits: u64,
}

/// Execute every order in `orders` on `engine`, in input order.  The result
/// has one record per order, in the same order; record `i` carries order id
/// `old id + i` (so ids are strictly increasing), echoes that order's price
/// and quantity, and carries the side-signed slippage constant.  Each call
/// appends exactly its latency to the engine's recorded history.
pub fn execute_batch(engine: &mut RustExecutionEngine, orders: &Vec<Order>) -> (r: Vec<
    RustExecution,
>)
    requires
        old(engine).wf(),
        old(engine).next_order_id + orders@.len() <= u64::MAX,
    ensures
        final(engine).wf(),
        r@.len() == orders@.len(),
        final(engine).next_order_id == old(engine).next_order_id + orders@.len(),
        forall|i: int|
            0 <= i < orders@.len() ==> #[trigger] r@[i].order_id == old(engine).next_order_id + i,
        forall|i: int|
            0 <= i < orders@.len() ==> #[trigger] r@[i].executed_price_bits == orders@[i].price_bits
                && r@[i].executed_quantity_bits == orders@[i].quantity_bits
                && r@[i].slippage_bits == slippage_bits_for_side(orders@[i].side),
        forall|i: int, j: int| 0 <= i < j < orders@.len() ==> r@[i].order_id < r@[j].order_id,
        final(engine).stats.observed@.len() == old(engine).stats.observed@.len() + orders@.len(),
        forall|i: int|
            0 <= i < old(engine).stats.observed@.len() ==> #[trigger] final(engine).stats.observed@[i] == old(engine).stats.observed@[i],
        forall|i: int|
            0 <= i < orders@.len() ==> final(engine).stats.observed@[old(engine).stats.observed@.len() + i] == #[trigger] r@[i].latency_ns,
{
    let mut executions: Vec<RustExecution> = Vec::with_capacity(orders.len());
    let mut k: usize = 0;
    while k < orders.len()
        invariant
            engine.wf(),
            k <= orders@.len(),
            old(engine).next_order_id + orders@.len() <= u64::MAX,
            engine.next_order_id == old(engine).next_order_id + k,
            executions@.len() == k,
            forall|i: int|
                0 <= i < k ==> #[trigger] executions@[i].order_id == old(engine).next_order_id + i,
            forall|i: int|
                0 <= i < k ==> #[trigger] executions@[i].executed_price_bits
                    == orders@[i].price_bits && executions@[i].executed_quantity_bits
                    == orders@[i].quantity_bits && executions@[i].slippage_bits
                    == slippage_bits_for_side(orders@[i].side),
            engine.stats.observed@.len() == old(engine).stats.observed@.len() + k,
            forall|i: int|
                0 <= i < old(engine).stats.observed@.len() ==> #[trigger] engine.stats.observed@[i]
                    == old(engine).stats.observed@[i],
            forall|i: int|
                0 <= i < k ==> engine.stats.observed@[old(engine).stats.observed@.len() + i]
                    == #[trigger] executions@[i].latency_ns,
        decreases orders@.len() - k,
    {
        let order = orders[k];
        let execution = engine.execute_order(
            order.symbol_id,
            order.side,
            order.order_type,
            order.price_bits,
            order.quantity_bits,
        );
        executions.push(execution);
        k = k + 1;
    }
    executions
}

} // verus!
