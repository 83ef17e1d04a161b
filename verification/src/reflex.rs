//! The reflex evaluator: the hot path that runs on every tick.
//!
//! The tick is buffered before any gate, so probe history accumulates even
//! while no plan is armed. Then the gates run in order: a plan must exist,
//! match the symbol, be unexpired and directional; no position may be open
//! for the symbol; the execution-side price (ask for Buy, bid for Sell)
//! must lie inside the entry zone; and the confirmation engine must agree.
//! Any failure yields `NoAction`.

use vstd::prelude::*;

use crate::confirmation::{check_confirmation, spec_check_confirmation, ConfirmationConfig,
    ConfirmationResult, ConfirmationView, RecentTick};
use crate::models::{ActiveStrategy, Direction, StrategyView, TickData, TickView};
use crate::state::{buffer_of, candle_of, entry_of, spec_candle_roll, spec_push_evict, AppState,
    StateView};
use crate::str_eq;

verus! {

/// The buffered form of a quote.
pub open spec fn spec_recent_of(bid: int, ask: int) -> RecentTick {
    RecentTick { mid2: (bid + ask) as i64, spread: (ask - bid) as i64 }
}

/// A counter after one event, wrapping as the shared counters do.
pub open spec fn wrap_inc(c: u64) -> u64 {
    if c == u64::MAX {
        0
    } else {
        (c + 1) as u64
    }
}

/// Why a tick did — or did not — trigger. The gates appear in evaluation
/// order.
pub ghost enum GateOutcome {
    /// No plan armed.
    NoPlan,
    /// The plan is for another symbol.
    SymbolMismatch,
    /// The plan expired.
    Expired,
    /// The plan carries no direction.
    DirectionNoTrade,
    /// A position is already open for the symbol.
    PositionOpen,
    /// The execution-side price is outside the entry zone.
    OutsideZone,
    /// The confirmation engine refused, for the named reason.
    Rejected { reason: Seq<char> },
    /// Every gate passed.
    Triggered,
}

/// The decision the reflex path and the backtest share: given the armed
/// plan, the tick, whether a position is open for the tick's symbol, the
/// buffer (current tick already recorded), the time and the configuration.
pub open spec fn spec_entry_gate(
    strategy: Option<StrategyView>,
    tick: TickView,
    has_position_for_symbol: bool,
    buffer: Seq<RecentTick>,
    now: int,
    cfg: ConfirmationConfig,
) -> GateOutcome {
    match strategy {
        None => GateOutcome::NoPlan,
        Some(s) => {
            if s.symbol != tick.symbol {
                GateOutcome::SymbolMismatch
            } else if !s.valid_at(now) {
                GateOutcome::Expired
            } else if s.direction is NoTrade {
                GateOutcome::DirectionNoTrade
            } else if has_position_for_symbol {
                GateOutcome::PositionOpen
            } else {
                let entry_price = if s.direction is Buy {
                    tick.ask
                } else {
                    tick.bid
                };
                if !(s.entry_zone.low <= entry_price <= s.entry_zone.high) {
                    GateOutcome::OutsideZone
                } else {
                    match spec_check_confirmation(
                        tick.bid,
                        tick.ask,
                        s.entry_zone,
                        s.direction,
                        buffer,
                        tick.rsi_14,
                        cfg,
                    ) {
                        ConfirmationView::Rejected { reason } => GateOutcome::Rejected { reason },
                        ConfirmationView::Confirmed => GateOutcome::Triggered,
                    }
                }
            }
        },
    }
}

/// The decision of `evaluate_tick` on a pre-state: the buffer it consults
/// already holds the current tick.
pub open spec fn spec_evaluate_outcome(pre: StateView, tick: TickView, now: int) -> GateOutcome {
    spec_entry_gate(
        pre.strategy,
        tick,
        pre.position matches Some(p) && p.symbol == tick.symbol,
        spec_push_evict(buffer_of(pre.entries, tick.symbol), spec_recent_of(tick.bid, tick.ask)),
        now,
        pre.config,
    )
}

/// Mathematical content of a [`TradeSignal`].
pub ghost enum TradeSignalView {
    Trigger(StrategyView),
    NoAction,
}

/// What one tick asks the caller to do.
#[derive(Debug)]
pub enum TradeSignal {
    /// Price entered the zone and every gate passed: fire this plan.
    Trigger(Box<ActiveStrategy>),
    /// Nothing to do for this tick.
    NoAction,
}

impl View for TradeSignal {
    type V = TradeSignalView;

    open spec fn view(&self) -> TradeSignalView {
        match self {
            TradeSignal::Trigger(s) => TradeSignalView::Trigger(s@),
            TradeSignal::NoAction => TradeSignalView::NoAction,
        }
    }
}

/// Evaluates one tick: records it, counts it, runs the gates, and returns
/// `Trigger` (counting the trade) exactly when every gate passes.
///
/// Whatever the outcome, the tick's sample is the newest element of its
/// symbol's buffer afterwards; with no plan armed, or with a position open
/// for the symbol, the answer is always `NoAction`.
pub fn evaluate_tick(tick: &TickData, state: &mut AppState, now: i64) -> (r: TradeSignal)
    requires
        tick@.wf(),
        0 <= now,
        old(state)@.wf(),
    ensures
        final(state)@.wf(),
        buffer_of(final(state)@.entries, tick@.symbol) == spec_push_evict(
            buffer_of(old(state)@.entries, tick@.symbol),
            spec_recent_of(tick@.bid, tick@.ask),
        ),
        candle_of(final(state)@.entries, tick@.symbol) == Some(
            spec_candle_roll(
                candle_of(old(state)@.entries, tick@.symbol),
                tick@.symbol,
                now as int,
                tick@.bid + tick@.ask,
            ),
        ),
        forall|sym2: Seq<char>|
            sym2 != tick@.symbol ==> #[trigger] entry_of(final(state)@.entries, sym2) == entry_of(
                old(state)@.entries,
                sym2,
            ),
        final(state)@.tick_count == wrap_inc(old(state)@.tick_count),
        spec_evaluate_outcome(old(state)@, tick@, now as int) is Triggered ==> (
        r@ matches TradeSignalView::Trigger(s) && old(state)@.strategy == Some(s)),
        !(spec_evaluate_outcome(old(state)@, tick@, now as int) is Triggered) ==> r@ is NoAction,
        final(state)@.trade_count == if spec_evaluate_outcome(old(state)@, tick@, now as int)
            is Triggered {
            wrap_inc(old(state)@.trade_count)
        } else {
            old(state)@.trade_count
        },
        final(state)@ == (StateView {
            entries: final(state)@.entries,
            tick_count: final(state)@.tick_count,
            trade_count: final(state)@.trade_count,
            ..old(state)@
        }),
        old(state)@.strategy is None ==> r@ is NoAction,
        (old(state)@.position matches Some(p) && p.symbol == tick@.symbol) ==> r@ is NoAction,
{
    // Record the tick before every gate, so history accumulates even while
    // disarmed.
    state.record_tick(tick.symbol.as_str(), tick.bid, tick.ask, now);

    // Count the tick.
    if state.tick_count == u64::MAX {
        state.tick_count = 0;
    } else {
        state.tick_count = state.tick_count + 1;
    }

    // Gate: a plan must be armed.
    let strategy = match state.get_strategy() {
        Some(s) => s,
        None => {
            return TradeSignal::NoAction;
        },
    };

    // Gate: the plan must be for this symbol.
    if !str_eq(strategy.symbol.as_str(), tick.symbol.as_str()) {
        return TradeSignal::NoAction;
    }

    // Gate: the plan must not be expired.
    if !strategy.is_valid(now) {
        return TradeSignal::NoAction;
    }

    // Gate: the plan must be directional.
    if strategy.direction == Direction::NoTrade {
        return TradeSignal::NoAction;
    }

    // Gate: no open position for this symbol (double-entry interlock).
    if state.has_open_position_for(tick.symbol.as_str()) {
        return TradeSignal::NoAction;
    }

    // The execution-side price: ask for Buy, bid for Sell.
    let entry_price = match strategy.direction {
        Direction::Buy => tick.ask,
        Direction::Sell => tick.bid,
        Direction::NoTrade => {
            proof {
                assert(false);
            }
            0
        },
    };

    // Gate: the execution price must lie inside the entry zone.
    if !strategy.entry_zone.contains(entry_price) {
        return TradeSignal::NoAction;
    }

    // Gate: the confirmation engine has the last word.
    let buffer = state.get_tick_buffer(tick.symbol.as_str());
    proof {
        crate::state::lemma_entry_of_is_element(state@.entries, tick@.symbol);
    }
    let confirmation = check_confirmation(
        tick.bid,
        tick.ask,
        &strategy.entry_zone,
        strategy.direction,
        &buffer,
        tick.rsi_14,
        &state.confirmation_config,
    );

    match confirmation {
        ConfirmationResult::Rejected { .. } => TradeSignal::NoAction,
        ConfirmationResult::Confirmed => {
            if state.trade_count == u64::MAX {
                state.trade_count = 0;
            } else {
                state.trade_count = state.trade_count + 1;
            }
            TradeSignal::Trigger(Box::new(strategy))
        },
    }
}

} // verus!
