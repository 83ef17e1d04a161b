//! Trigger dispatch and position-close ingress: the transitions around the
//! broker round-trip.
//!
//! The broker call itself happens outside the library. `prepare_trigger`
//! runs everything before it — risk approval, order assembly, the pending
//! record, and the plan consumption that prevents re-triggering during the
//! call — and `complete_trigger_success` / `complete_trigger_failure` apply
//! the broker's answer. `handle_position_close` absorbs the broker's close
//! notification.

use vstd::prelude::*;

use crate::error::{spec_error_message, AppError};
use crate::executor::{build_order, spec_order_comment, Mt5OrderRequest, Mt5OrderResponse,
    OrderView, MT5_MAGIC};
use crate::models::{ActiveStrategy, Direction, OpenPosition, RecordView, TickData, TradeRecord,
    TradeStatus};
use crate::risk::{spec_pre_trade_check, RiskDecision, RiskDecisionView, RiskView};
use crate::state::{AppState, StateView};
use crate::str_eq;

verus! {

/// What `prepare_trigger` decided.
#[derive(Debug)]
pub enum TriggerPrep {
    /// The risk governor refused; the plan stays armed and nothing else
    /// changed.
    RiskBlocked { reason: String },
    /// Approved: the plan is consumed, the pending record exists, and this
    /// order is ready to post.
    Dispatch { order: Mt5OrderRequest, record: TradeRecord },
}

/// Runs the pre-broker half of a trigger: asks the risk governor, builds
/// the order and the pending record, and consumes the plan — in that
/// order, so no tick arriving during the broker call can re-trigger.
///
/// On a risk block the plan is untouched; on approval the active plan is
/// `None` afterwards.
pub fn prepare_trigger(
    state: &mut AppState,
    strategy: &ActiveStrategy,
    tick: &TickData,
    now: i64,
) -> (r: TriggerPrep)
    requires
        0 <= now,
        old(state)@.wf(),
        strategy@.wf(),
        !(strategy@.direction is NoTrade),
    ensures
        final(state)@.wf(),
        (final(state)@.risk,
        match r {
            TriggerPrep::RiskBlocked { reason } => RiskDecisionView::Blocked(reason@),
            TriggerPrep::Dispatch { .. } => RiskDecisionView::Approved,
        }) == spec_pre_trade_check(old(state)@.risk, now as int),
        r is RiskBlocked ==> final(state)@ == (StateView {
            risk: final(state)@.risk,
            ..old(state)@
        }),
        r matches TriggerPrep::Dispatch { order, record } ==> ({
            let entry_price = if strategy@.direction is Buy {
                tick@.ask
            } else {
                tick@.bid
            };
            &&& final(state)@ == (StateView {
                strategy: None,
                risk: final(state)@.risk,
                ..old(state)@
            })
            &&& order@ == (OrderView {
                symbol: strategy@.symbol,
                action: if strategy@.direction is Buy {
                    "BUY"@
                } else {
                    "SELL"@
                },
                volume: strategy@.lot_size,
                price: entry_price,
                sl: strategy@.stop_loss,
                tp: strategy@.take_profit,
                comment: spec_order_comment(strategy@.strategy_id),
                magic: MT5_MAGIC,
            })
            &&& record@.trade_id.len() == 36
            &&& record@.strategy_id == strategy@.strategy_id
            &&& record@.symbol == strategy@.symbol
            &&& record@.direction == strategy@.direction
            &&& record@.entry_price == entry_price
            &&& record@.lot_size == strategy@.lot_size
            &&& record@.take_profit == strategy@.take_profit
            &&& record@.stop_loss == strategy@.stop_loss
            &&& record@.mt5_ticket is None
            &&& record@.status is Pending
            &&& record@.status_message == "Order queued"@
            &&& record@.fired_at == now as int
            &&& record@.close_price is None
            &&& record@.profit_pips is None
            &&& record@.close_reason is None
            &&& record@.closed_at is None
        }),
{
    // Step 1: the risk governor has the first word; a block leaves the plan
    // armed.
    match state.risk.pre_trade_check(now) {
        RiskDecision::Blocked(reason) => {
            return TriggerPrep::RiskBlocked { reason };
        },
        RiskDecision::Approved => {},
    }

    // Step 2: the execution-side price from the triggering tick.
    let entry_price = match strategy.direction {
        Direction::Buy => tick.ask,
        Direction::Sell => tick.bid,
        Direction::NoTrade => {
            proof {
                assert(false);
            }
            0
        },
    };

    // Step 3: the broker order.
    let order = match build_order(
        strategy.symbol.as_str(),
        strategy.direction,
        entry_price,
        strategy.stop_loss,
        strategy.take_profit,
        strategy.lot_size,
        strategy.strategy_id.as_str(),
    ) {
        Ok(o) => o,
        Err(_) => {
            proof {
                assert(false);
            }
            return TriggerPrep::RiskBlocked { reason: String::new() };
        },
    };

    // Step 4: the pending record.
    let record = TradeRecord::from_strategy(strategy, entry_price, now);

    // Step 5: consume the plan before any I/O, so a tick arriving during the
    // broker call observes no plan.
    state.clear_strategy();

    TriggerPrep::Dispatch { order, record }
}

/// Applies a confirmed broker reply: the record turns `Confirmed` and gains
/// the ticket and comment, the position mirror is installed, the record
/// joins the history, and the governor's failure streak resets.
pub fn complete_trigger_success(
    state: &mut AppState,
    strategy: &ActiveStrategy,
    record: TradeRecord,
    entry_price: i64,
    response: Mt5OrderResponse,
    now: i64,
) -> (r: (OpenPosition, TradeRecord))
    requires
        old(state)@.wf(),
    ensures
        final(state)@.wf(),
        r.1@ == (RecordView {
            status: TradeStatus::Confirmed,
            mt5_ticket: response@.order,
            status_message: match response@.comment {
                Some(c) => c,
                None => "Request completed"@,
            },
            ..record@
        }),
        r.0@.position_id.len() == 36,
        r.0@.strategy_id == strategy@.strategy_id,
        r.0@.symbol == strategy@.symbol,
        r.0@.direction == strategy@.direction,
        r.0@.entry_price == entry_price as int,
        r.0@.lot_size == strategy@.lot_size,
        r.0@.take_profit == strategy@.take_profit,
        r.0@.stop_loss == strategy@.stop_loss,
        r.0@.mt5_ticket == response@.order,
        r.0@.opened_at == now as int,
        !r.0@.sl_moved_to_be,
        final(state)@ == (StateView {
            position: Some(r.0@),
            history: old(state)@.history.push(r.1@),
            risk: RiskView { consecutive_failures: 0, ..old(state)@.risk },
            ..old(state)@
        }),
{
    let mut record = record;
    let ticket = response.order;
    record.status = TradeStatus::Confirmed;
    record.mt5_ticket = ticket;
    record.status_message = match response.comment {
        Some(c) => c,
        None => String::from_str("Request completed"),
    };

    let mut position = OpenPosition::from_strategy(strategy, entry_price, now);
    position.mt5_ticket = ticket;

    state.set_open_position(Some(position.clone()));
    state.push_trade_record(record.clone());
    state.risk.record_success();

    (position, record)
}

/// Applies a failed broker round-trip: the record turns `Failed` carrying
/// the error's message, joins the history, and the governor counts the
/// failure (starting the cooldown).
pub fn complete_trigger_failure(
    state: &mut AppState,
    record: TradeRecord,
    error: &AppError,
    now: i64,
) -> (r: TradeRecord)
    requires
        0 <= now,
        old(state)@.wf(),
    ensures
        final(state)@.wf(),
        r@ == (RecordView {
            status: TradeStatus::Failed,
            status_message: spec_error_message(error@),
            ..record@
        }),
        final(state)@ == (StateView {
            history: old(state)@.history.push(r@),
            risk: RiskView {
                consecutive_failures: if old(state)@.risk.consecutive_failures == u32::MAX {
                    u32::MAX
                } else {
                    (old(state)@.risk.consecutive_failures + 1) as u32
                },
                last_failure_at: Some(now as int),
                ..old(state)@.risk
            },
            ..old(state)@
        }),
{
    let mut record = record;
    record.status = TradeStatus::Failed;
    record.status_message = error.message();

    state.push_trade_record(record.clone());
    state.risk.record_failure(now);

    record
}

/// Mathematical content of a [`PositionClosePayload`].
pub ghost struct ClosePayloadView {
    pub mt5_ticket: Option<u64>,
    pub symbol: Seq<char>,
    pub close_price: int,
    pub profit_pips: int,
    pub close_reason: Seq<char>,
}

/// What the broker reports when a position closes.
#[derive(Debug)]
pub struct PositionClosePayload {
    pub mt5_ticket: Option<u64>,
    pub symbol: String,
    pub close_price: i64,
    pub profit_pips: i64,
    /// One of `"TP"`, `"SL"`, `"MANUAL"`.
    pub close_reason: String,
}

impl View for PositionClosePayload {
    type V = ClosePayloadView;

    open spec fn view(&self) -> ClosePayloadView {
        ClosePayloadView {
            mt5_ticket: self.mt5_ticket,
            symbol: self.symbol@,
            close_price: self.close_price as int,
            profit_pips: self.profit_pips as int,
            close_reason: self.close_reason@,
        }
    }
}

/// First history entry carrying this broker ticket.
pub open spec fn spec_find_ticket(h: Seq<RecordView>, t: u64) -> Option<int>
    decreases h.len(),
{
    if h.len() == 0 {
        None
    } else if h[0].mt5_ticket == Some(t) {
        Some(0)
    } else {
        match spec_find_ticket(h.drop_first(), t) {
            Some(i) => Some(i + 1),
            None => None,
        }
    }
}

/// First history entry for this symbol.
pub open spec fn spec_find_symbol(h: Seq<RecordView>, sym: Seq<char>) -> Option<int>
    decreases h.len(),
{
    if h.len() == 0 {
        None
    } else if h[0].symbol == sym {
        Some(0)
    } else {
        match spec_find_symbol(h.drop_first(), sym) {
            Some(i) => Some(i + 1),
            None => None,
        }
    }
}

/// Which history entry a close notification completes: matched by ticket
/// first, else by symbol, first match either way.
pub open spec fn spec_close_index(h: Seq<RecordView>, ticket: Option<u64>, sym: Seq<char>)
    -> Option<int> {
    match ticket {
        Some(t) => match spec_find_ticket(h, t) {
            Some(i) => Some(i),
            None => spec_find_symbol(h, sym),
        },
        None => spec_find_symbol(h, sym),
    }
}

/// A record completed by a close: its close fields filled in.
pub open spec fn spec_closed_record(rec: RecordView, p: ClosePayloadView, now: int) -> RecordView {
    RecordView {
        close_price: Some(p.close_price),
        profit_pips: Some(p.profit_pips),
        close_reason: Some(p.close_reason),
        closed_at: Some(now),
        ..rec
    }
}

proof fn lemma_find_ticket_props(h: Seq<RecordView>, t: u64)
    ensures
        match spec_find_ticket(h, t) {
            Some(i) => 0 <= i < h.len() && h[i].mt5_ticket == Some(t) && forall|k: int|
                0 <= k < i ==> (#[trigger] h[k]).mt5_ticket != Some(t),
            None => forall|k: int| 0 <= k < h.len() ==> (#[trigger] h[k]).mt5_ticket != Some(t),
        },
    decreases h.len(),
{
    if h.len() > 0 && h[0].mt5_ticket != Some(t) {
        let rest = h.drop_first();
        assert(forall|k: int| 0 <= k < rest.len() ==> #[trigger] rest[k] == h[k + 1]);
        lemma_find_ticket_props(rest, t);
        if spec_find_ticket(rest, t) is Some {
            let i = spec_find_ticket(rest, t)->Some_0;
            assert(h[i + 1].mt5_ticket == Some(t));
            assert forall|k: int| 0 <= k < i + 1 implies (#[trigger] h[k]).mt5_ticket != Some(t) by {
                if k > 0 {
                    assert(rest[k - 1].mt5_ticket != Some(t));
                }
            }
        } else {
            assert forall|k: int| 0 <= k < h.len() implies (#[trigger] h[k]).mt5_ticket != Some(
                t,
            ) by {
                if k > 0 {
                    assert(rest[k - 1].mt5_ticket != Some(t));
                }
            }
        }
    }
}

proof fn lemma_find_symbol_props(h: Seq<RecordView>, sym: Seq<char>)
    ensures
        match spec_find_symbol(h, sym) {
            Some(i) => 0 <= i < h.len() && h[i].symbol == sym && forall|k: int|
                0 <= k < i ==> (#[trigger] h[k]).symbol != sym,
            None => forall|k: int| 0 <= k < h.len() ==> (#[trigger] h[k]).symbol != sym,
        },
    decreases h.len(),
{
    if h.len() > 0 && h[0].symbol != sym {
        let rest = h.drop_first();
        assert(forall|k: int| 0 <= k < rest.len() ==> #[trigger] rest[k] == h[k + 1]);
        lemma_find_symbol_props(rest, sym);
        if spec_find_symbol(rest, sym) is Some {
            let i = spec_find_symbol(rest, sym)->Some_0;
            assert(h[i + 1].symbol == sym);
            assert forall|k: int| 0 <= k < i + 1 implies (#[trigger] h[k]).symbol != sym by {
                if k > 0 {
                    assert(rest[k - 1].symbol != sym);
                }
            }
        } else {
            assert forall|k: int| 0 <= k < h.len() implies (#[trigger] h[k]).symbol != sym by {
                if k > 0 {
                    assert(rest[k - 1].symbol != sym);
                }
            }
        }
    }
}

/// Outcome of a close notification.
#[derive(Debug)]
pub enum CloseOutcome {
    /// The open position was cleared; this was it.
    Closed { position: OpenPosition },
    /// There was nothing to close; the state is untouched.
    NothingToClose,
}

/// Absorbs a broker close notification: snapshots and clears the open
/// position, and fills the close fields of the matching history record —
/// matched by ticket first, else by symbol. Without an open position this
/// is a soft no-op.
pub fn handle_position_close(state: &mut AppState, payload: &PositionClosePayload, now: i64) -> (
    r: CloseOutcome)
    requires
        0 <= now,
        old(state)@.wf(),
    ensures
        final(state)@.wf(),
        old(state)@.position is None ==> r is NothingToClose && final(state)@ == old(state)@,
        old(state)@.position matches Some(p) ==> (r matches CloseOutcome::Closed { position }
            && position@ == p && final(state)@ == (StateView {
            position: None,
            history: match spec_close_index(old(state)@.history, payload@.mt5_ticket,
                payload@.symbol) {
                Some(i) => old(state)@.history.update(
                    i,
                    spec_closed_record(old(state)@.history[i], payload@, now as int),
                ),
                None => old(state)@.history,
            },
            ..old(state)@
        })),
{
    // Snapshot the current position; nothing open means nothing to do.
    let position = match &state.open_position {
        Some(p) => p.clone(),
        None => {
            return CloseOutcome::NothingToClose;
        },
    };

    // Clear it: the double-entry interlock re-arms.
    state.set_open_position(None);

    // Locate the record to complete: ticket first, else symbol.
    let ghost old_history = state@.history;
    let n = state.trade_history.len();
    let mut found: Option<usize> = None;

    if let Some(t) = payload.mt5_ticket {
        let mut i: usize = 0;
        while i < n
            invariant_except_break
                found is None,
                forall|k: int| 0 <= k < i ==> (#[trigger] old_history[k]).mt5_ticket != Some(t),
            invariant
                i <= n,
                n == state.trade_history@.len(),
                old_history == state@.history,
            ensures
                n == state.trade_history@.len(),
                old_history == state@.history,
                match found {
                    Some(j) => j < n && old_history[j as int].mt5_ticket == Some(t) && forall|
                        k: int,
                    | 0 <= k < j ==> (#[trigger] old_history[k]).mt5_ticket != Some(t),
                    None => forall|k: int|
                        0 <= k < n ==> (#[trigger] old_history[k]).mt5_ticket != Some(t),
                },
            decreases n - i,
        {
            let matches_ticket = match state.trade_history[i].mt5_ticket {
                Some(rt) => rt == t,
                None => false,
            };
            if matches_ticket {
                found = Some(i);
                break ;
            }
            i = i + 1;
        }
        proof {
            lemma_find_ticket_props(old_history, t);
        }
    }

    if found.is_none() {
        let mut i: usize = 0;
        while i < n
            invariant_except_break
                found is None,
                forall|k: int| 0 <= k < i ==> (#[trigger] old_history[k]).symbol != payload@.symbol,
            invariant
                i <= n,
                n == state.trade_history@.len(),
                old_history == state@.history,
            ensures
                n == state.trade_history@.len(),
                old_history == state@.history,
                match found {
                    Some(j) => j < n && old_history[j as int].symbol == payload@.symbol && forall|
                        k: int,
                    | 0 <= k < j ==> (#[trigger] old_history[k]).symbol != payload@.symbol,
                    None => forall|k: int|
                        0 <= k < n ==> (#[trigger] old_history[k]).symbol != payload@.symbol,
                },
            decreases n - i,
        {
            if str_eq(state.trade_history[i].symbol.as_str(), payload.symbol.as_str()) {
                found = Some(i);
                break ;
            }
            i = i + 1;
        }
        proof {
            lemma_find_symbol_props(old_history, payload@.symbol);
        }
    }

    // Fill the close fields of the record found, if any.
    if let Some(idx) = found {
        let mut rec = state.trade_history.remove(idx);
        rec.close_price = Some(payload.close_price);
        rec.profit_pips = Some(payload.profit_pips);
        rec.close_reason = Some(payload.close_reason.clone());
        rec.closed_at = Some(now);
        state.trade_history.insert(idx, rec);
        proof {
            assert(state@.history =~= old_history.update(
                idx as int,
                spec_closed_record(old_history[idx as int], payload@, now as int),
            ));
        }
    }

    CloseOutcome::Closed { position }
}

} // verus!
