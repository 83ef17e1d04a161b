//! Verified core of an automated trading backend.
//!
//! A slow planner publishes a trade plan; a fast reflex path receives market
//! ticks and decides, per tick, whether to fire an order at a broker. This
//! crate holds the decision logic — tick buffering, the confirmation engine,
//! the reflex evaluator, the risk governor, the execution state transitions
//! and the backtest simulator — with machine-checked contracts. Prices,
//! timestamps and lot sizes are integers in caller-chosen units; the
//! surrounding process converts at the edge and performs all I/O.

use vstd::prelude::*;

pub mod auth;
pub mod backtest;
pub mod candle;
pub mod confirmation;
pub mod digits;
pub mod dispatch;
pub mod error;
pub mod events;
pub mod executor;
mod ids;
pub mod laws;
pub mod models;
pub mod reflex;
pub mod risk;
pub mod state;

verus! {

/// Magnitude bound on every price the library computes with; keeps doubled
/// midpoints and price sums inside `i64`.
pub const PRICE_BOUND: i64 = 0x1000_0000_0000_0000;

/// A price is workable when doubling it (for exact midpoints) cannot
/// overflow `i64`.
pub open spec fn wf_price(p: int) -> bool {
    -(PRICE_BOUND as int) <= p <= PRICE_BOUND as int
}

/// String equality by content.
pub fn str_eq(a: &str, b: &str) -> (r: bool)
    ensures
        r == (a@ == b@),
{
    let x = a.to_owned();
    let y = b.to_owned();
    x == y
}

} // verus!
