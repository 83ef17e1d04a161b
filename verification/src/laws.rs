//! The system-wide laws, stated and proved over the same specifications the
//! executable contracts use.

use vstd::prelude::*;

use crate::confirmation::{spec_check_confirmation, ConfirmationConfig, ConfirmationView,
    RecentTick};
use crate::backtest::{spec_sim_step, SimState};
use crate::models::{Direction, EntryZone, StrategyView, TickView};
use crate::reflex::{spec_entry_gate, spec_recent_of, GateOutcome};
use crate::risk::{msg_auto_kill, spec_pre_trade_check, RiskDecisionView, RiskView};
use crate::state::{spec_cleared, spec_push_evict, StateView};

verus! {

/// While a daily cap is set, a pre-trade check can never push the day's
/// count past it: the governor's invariant survives every check, whatever
/// the verdict.
pub proof fn daily_cap_never_exceeded(s: RiskView, now: int)
    requires
        s.wf(),
        0 <= now,
    ensures
        spec_pre_trade_check(s, now).0.wf(),
        s.config.max_trades_per_day > 0 ==> spec_pre_trade_check(s, now).0.trades_today
            <= s.config.max_trades_per_day,
{
}

/// Once the failure streak reaches the configured limit (and no earlier
/// protection preempts it), the next pre-trade check engages the kill
/// switch by itself and blocks with the auto-kill message.
///
/// A check made while the post-failure cooldown still runs is preempted:
/// it blocks with the cooldown message and does not yet kill.
pub proof fn auto_kill_after_consecutive_failures(s: RiskView, now: int)
    requires
        s.wf(),
        !s.is_killed,
        s.last_failure_at matches Some(f) ==> now - f
            >= s.config.cooldown_secs_after_failure as i64 as int,
        s.config.max_trades_per_day > 0 ==> s.after_daily_reset(now).trades_today
            < s.config.max_trades_per_day,
        s.config.max_consecutive_failures > 0,
        s.consecutive_failures >= s.config.max_consecutive_failures,
    ensures
        spec_pre_trade_check(s, now).0.is_killed,
        spec_pre_trade_check(s, now).0.kill_reason == Some(
            msg_auto_kill(s.consecutive_failures as int),
        ),
        spec_pre_trade_check(s, now).1 == RiskDecisionView::Blocked(
            msg_auto_kill(s.consecutive_failures as int),
        ),
{
}

/// The evaluator's zone gate is exactly closed-interval membership of the
/// execution-side price: equality at either bound is inside.
pub proof fn evaluator_zone_check_agrees(
    s: StrategyView,
    tick: TickView,
    buffer: Seq<RecentTick>,
    now: int,
    cfg: ConfirmationConfig,
)
    requires
        !(s.direction is NoTrade),
        s.symbol == tick.symbol,
        s.valid_at(now),
    ensures
        ({
            let entry = if s.direction is Buy {
                tick.ask
            } else {
                tick.bid
            };
            (spec_entry_gate(Some(s), tick, false, buffer, now, cfg) is OutsideZone) == !(
            s.entry_zone.low <= entry <= s.entry_zone.high)
        }),
{
}

/// Confirmation is a pure function of bid, ask, zone, direction, buffer
/// snapshot, RSI and configuration: the engine's contract pins its result
/// to this specification of those inputs alone, so identical inputs give
/// identical verdicts.
pub proof fn confirmation_is_pure(
    bid: int,
    ask: int,
    zone: EntryZone,
    dir: Direction,
    buf: Seq<RecentTick>,
    rsi: Option<int>,
    cfg: ConfirmationConfig,
)
    ensures
        spec_check_confirmation(bid, ask, zone, dir, buf, rsi, cfg) == spec_check_confirmation(
            bid,
            ask,
            zone,
            dir,
            buf,
            rsi,
            cfg,
        ),
{
}

/// With no simulated position open, one backtest step decides exactly as
/// the live gate does on the same plan, tick, buffer, time and
/// configuration: it enters precisely when the live path triggers, and its
/// rejection counters move precisely with the live rejection reasons.
pub proof fn backtest_gate_matches_live(
    st: SimState,
    s: StrategyView,
    cfg: ConfirmationConfig,
    tick: TickView,
    i: int,
    now: int,
)
    requires
        st.open is None,
        !(s.direction is NoTrade),
    ensures
        ({
            let buffer = spec_push_evict(st.buffer, spec_recent_of(tick.bid, tick.ask));
            let gate = spec_entry_gate(Some(s), tick, false, buffer, now, cfg);
            let st2 = spec_sim_step(st, s, cfg, tick, i, now);
            &&& (st2.open is Some) == (gate is Triggered)
            &&& (gate is Triggered) ==> st2.trades.len() == st.trades.len() + 1
            &&& st2.outside_zone == st.outside_zone + (if gate is OutsideZone {
                1int
            } else {
                0int
            })
            &&& st2.spread_too_wide == st.spread_too_wide + (if gate == (
            GateOutcome::Rejected { reason: "spread too wide"@ }) {
                1int
            } else {
                0int
            })
            &&& st2.no_zone_probe == st.no_zone_probe + (if gate == (GateOutcome::Rejected {
                reason: "no zone probe detected"@,
            }) {
                1int
            } else {
                0int
            })
            &&& st2.insufficient_dwell == st.insufficient_dwell + (if gate == (
            GateOutcome::Rejected { reason: "insufficient zone dwell"@ }) {
                1int
            } else {
                0int
            })
            &&& (gate is SymbolMismatch || gate is Expired) ==> st2 == (SimState {
                buffer,
                ..st
            })
        }),
{
    reveal_strlit("spread too wide");
    reveal_strlit("no zone probe detected");
    reveal_strlit("insufficient zone dwell");
    reveal_strlit("rsi out of range");
    let buffer = spec_push_evict(st.buffer, spec_recent_of(tick.bid, tick.ask));
    let gate = spec_entry_gate(Some(s), tick, false, buffer, now, cfg);
    let st2 = spec_sim_step(st, s, cfg, tick, i, now);
    let stb = SimState { buffer, ..st };
    let entry_price = if s.direction is Buy {
        tick.ask
    } else {
        tick.bid
    };
    if s.symbol != tick.symbol {
        assert(st2 == stb);
    } else if !s.valid_at(now) {
        assert(st2 == stb);
    } else if !(s.entry_zone.low <= entry_price <= s.entry_zone.high) {
        assert(gate is OutsideZone);
        assert(st2 == SimState { outside_zone: st.outside_zone + 1, ..stb });
    } else {
        assert("spread too wide"@.len() == 15);
        assert("no zone probe detected"@.len() == 22);
        assert("insufficient zone dwell"@.len() == 23);
        assert("rsi out of range"@.len() == 16);
        assert("spread too wide"@ != "no zone probe detected"@);
        assert("spread too wide"@ != "insufficient zone dwell"@);
        assert("no zone probe detected"@ != "insufficient zone dwell"@);
        assert("rsi out of range"@ != "spread too wide"@);
        assert("rsi out of range"@ != "no zone probe detected"@);
        assert("rsi out of range"@ != "insufficient zone dwell"@);
        match spec_check_confirmation(tick.bid, tick.ask, s.entry_zone, s.direction, buffer,
            tick.rsi_14, cfg) {
            ConfirmationView::Rejected { reason } => {
                assert(gate == GateOutcome::Rejected { reason });
            },
            ConfirmationView::Confirmed => {
                assert(gate is Triggered);
                assert(st2.open is Some);
                assert(st2.trades.len() == st.trades.len() + 1);
            },
        }
    }
}

/// Clearing the plan is idempotent: clearing twice is clearing once.
pub proof fn clear_strategy_idempotent(s: StateView)
    ensures
        spec_cleared(spec_cleared(s)) == spec_cleared(s),
{
}

} // verus!
