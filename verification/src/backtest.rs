//! The backtest simulator: replays a tick list through the identical
//! decision pipeline — same entry gates, same confirmation engine, RSI
//! passed through as the live path does — and tallies the outcomes.
//!
//! One simulated position exists at a time. On each tick, an open position
//! is first tested against take profit and stop loss (a closing tick never
//! also opens); only then may a new entry trigger. Rejections are counted
//! by reason.

use vstd::prelude::*;

use std::collections::VecDeque;

use crate::confirmation::{check_confirmation, spec_check_confirmation, ConfirmationConfig,
    ConfirmationResult, ConfirmationView, RecentTick};
use crate::models::{ActiveStrategy, Direction, StrategyView, TickData, TickView};
use crate::reflex::spec_recent_of;
use crate::state::{spec_push_evict, TICK_BUFFER_SIZE};
use crate::str_eq;
use crate::wf_price;

verus! {

/// Per-request overrides of the confirmation configuration.
#[derive(Debug, Clone, Copy, PartialEq, Eq, Structural)]
pub struct ConfirmationOverride {
    pub max_spread: Option<i64>,
    pub require_zone_probe: Option<bool>,
    pub min_zone_ticks: Option<usize>,
    pub probe_lookback: Option<usize>,
}

/// The configuration a backtest runs with: the base, field by field
/// replaced by the overrides present.
pub open spec fn spec_apply_override(
    base: ConfirmationConfig,
    ov: Option<ConfirmationOverride>,
) -> ConfirmationConfig {
    match ov {
        None => base,
        Some(ov) => ConfirmationConfig {
            max_spread: match ov.max_spread {
                Some(v) => v,
                None => base.max_spread,
            },
            require_zone_probe: match ov.require_zone_probe {
                Some(v) => v,
                None => base.require_zone_probe,
            },
            min_zone_ticks: match ov.min_zone_ticks {
                Some(v) => v,
                None => base.min_zone_ticks,
            },
            probe_lookback: match ov.probe_lookback {
                Some(v) => v,
                None => base.probe_lookback,
            },
            rsi_overbought: base.rsi_overbought,
            rsi_oversold: base.rsi_oversold,
        },
    }
}

/// Applies the overrides to a base configuration.
pub fn apply_override(base: ConfirmationConfig, ov: &Option<ConfirmationOverride>) -> (r:
    ConfirmationConfig)
    ensures
        r == spec_apply_override(base, *ov),
{
    match ov {
        None => base,
        Some(ov) => ConfirmationConfig {
            max_spread: match ov.max_spread {
                Some(v) => v,
                None => base.max_spread,
            },
            require_zone_probe: match ov.require_zone_probe {
                Some(v) => v,
                None => base.require_zone_probe,
            },
            min_zone_ticks: match ov.min_zone_ticks {
                Some(v) => v,
                None => base.min_zone_ticks,
            },
            probe_lookback: match ov.probe_lookback {
                Some(v) => v,
                None => base.probe_lookback,
            },
            rsi_overbought: base.rsi_overbought,
            rsi_oversold: base.rsi_oversold,
        },
    }
}

/// How a simulated trade ended.
#[derive(Debug, Clone, Copy, PartialEq, Eq, Structural)]
pub enum TradeOutcome {
    /// Take profit was hit (a win).
    TpHit,
    /// Stop loss was hit (a loss).
    SlHit,
    /// Still open when the simulation ended.
    Open,
}

/// Mathematical content of a [`BacktestTrade`].
pub ghost struct BacktestTradeView {
    pub entry_price: int,
    pub direction: Seq<char>,
    pub outcome: TradeOutcome,
    pub pips: int,
    pub tick_index: int,
    pub time: int,
}

/// One simulated entry.
#[derive(Debug)]
pub struct BacktestTrade {
    pub entry_price: i64,
    /// `"BUY"` or `"SELL"`.
    pub direction: String,
    pub outcome: TradeOutcome,
    /// Realised price movement, zero while open.
    pub pips: i64,
    /// Index of the entry tick in the replayed list.
    pub tick_index: usize,
    /// The entry tick's timestamp.
    pub time: i64,
}

impl View for BacktestTrade {
    type V = BacktestTradeView;

    open spec fn view(&self) -> BacktestTradeView {
        BacktestTradeView {
            entry_price: self.entry_price as int,
            direction: self.direction@,
            outcome: self.outcome,
            pips: self.pips as int,
            tick_index: self.tick_index as int,
            time: self.time as int,
        }
    }
}

/// Why entries did not happen, bucketed.
#[derive(Debug, Clone, Copy, PartialEq, Eq, Structural)]
pub struct RejectionBreakdown {
    pub no_strategy: usize,
    pub outside_zone: usize,
    pub spread_too_wide: usize,
    pub no_zone_probe: usize,
    pub insufficient_dwell: usize,
    pub position_open: usize,
}

impl Default for RejectionBreakdown {
    fn default() -> (r: Self)
        ensures
            r == (RejectionBreakdown {
                no_strategy: 0,
                outside_zone: 0,
                spread_too_wide: 0,
                no_zone_probe: 0,
                insufficient_dwell: 0,
                position_open: 0,
            }),
    {
        RejectionBreakdown {
            no_strategy: 0,
            outside_zone: 0,
            spread_too_wide: 0,
            no_zone_probe: 0,
            insufficient_dwell: 0,
            position_open: 0,
        }
    }
}

/// Mathematical content of a [`BacktestResult`].
pub ghost struct BacktestResultView {
    pub total_ticks: int,
    pub total_trades: int,
    pub total_pips: int,
    pub win_rate_pct: u32,
    pub max_drawdown: int,
    pub trades: Seq<BacktestTradeView>,
    pub rejection_log: RejectionBreakdown,
}

/// The tally of a backtest run.
#[derive(Debug)]
pub struct BacktestResult {
    /// Ticks replayed.
    pub total_ticks: usize,
    /// Entries triggered.
    pub total_trades: usize,
    /// Realised price movement, summed over all entries.
    pub total_pips: i128,
    /// Winning share of entries, in whole percent (truncated); zero when no
    /// entry triggered.
    pub win_rate_pct: u32,
    /// Deepest fall of the running tally from its peak.
    pub max_drawdown: i128,
    pub trades: Vec<BacktestTrade>,
    pub rejection_log: RejectionBreakdown,
}

impl View for BacktestResult {
    type V = BacktestResultView;

    open spec fn view(&self) -> BacktestResultView {
        BacktestResultView {
            total_ticks: self.total_ticks as int,
            total_trades: self.total_trades as int,
            total_pips: self.total_pips as int,
            win_rate_pct: self.win_rate_pct,
            max_drawdown: self.max_drawdown as int,
            trades: self.trades@.map_values(|t: BacktestTrade| t@),
            rejection_log: self.rejection_log,
        }
    }
}

/// A backtest request: the tick list (oldest first), the plan under test,
/// and optional configuration overrides.
#[derive(Debug)]
pub struct BacktestRequest {
    pub ticks: Vec<TickData>,
    pub strategy: ActiveStrategy,
    pub confirmation: Option<ConfirmationOverride>,
}

/// The simulated open position.
#[derive(Debug, Clone, Copy, PartialEq, Eq, Structural)]
pub struct SimPos {
    pub entry_price: i64,
    pub direction: Direction,
    pub take_profit: i64,
    pub stop_loss: i64,
}

/// Whether a tick closes the simulated position, and how: for a Buy the
/// bid is tested against take profit and stop loss, for a Sell the ask.
pub open spec fn spec_check_exit(tick: TickView, pos: SimPos) -> TradeOutcome {
    if pos.direction is Buy {
        if tick.bid >= pos.take_profit {
            TradeOutcome::TpHit
        } else if tick.bid <= pos.stop_loss {
            TradeOutcome::SlHit
        } else {
            TradeOutcome::Open
        }
    } else {
        if tick.ask <= pos.take_profit {
            TradeOutcome::TpHit
        } else if tick.ask >= pos.stop_loss {
            TradeOutcome::SlHit
        } else {
            TradeOutcome::Open
        }
    }
}

fn check_exit(tick: &TickData, pos: &SimPos) -> (r: TradeOutcome)
    ensures
        r == spec_check_exit(tick@, *pos),
{
    if pos.direction == Direction::Buy {
        if tick.bid >= pos.take_profit {
            TradeOutcome::TpHit
        } else if tick.bid <= pos.stop_loss {
            TradeOutcome::SlHit
        } else {
            TradeOutcome::Open
        }
    } else {
        if tick.ask <= pos.take_profit {
            TradeOutcome::TpHit
        } else if tick.ask >= pos.stop_loss {
            TradeOutcome::SlHit
        } else {
            TradeOutcome::Open
        }
    }
}

/// The whole simulator state after some prefix of the ticks.
pub ghost struct SimState {
    pub buffer: Seq<RecentTick>,
    pub open: Option<SimPos>,
    pub trades: Seq<BacktestTradeView>,
    pub running_pnl: int,
    pub peak_pnl: int,
    pub max_drawdown: int,
    pub no_strategy: int,
    pub outside_zone: int,
    pub spread_too_wide: int,
    pub no_zone_probe: int,
    pub insufficient_dwell: int,
}

/// The state before any tick.
pub open spec fn spec_sim_init() -> SimState {
    SimState {
        buffer: Seq::empty(),
        open: None,
        trades: Seq::empty(),
        running_pnl: 0,
        peak_pnl: 0,
        max_drawdown: 0,
        no_strategy: 0,
        outside_zone: 0,
        spread_too_wide: 0,
        no_zone_probe: 0,
        insufficient_dwell: 0,
    }
}

/// The label a simulated trade carries for its direction.
pub open spec fn spec_direction_label(d: Direction) -> Seq<char> {
    match d {
        Direction::Buy => "BUY"@,
        Direction::Sell => "SELL"@,
        Direction::NoTrade => "NOTRADE"@,
    }
}

/// One simulator step: buffer the tick; a directionless plan only counts;
/// an open position is tested for exit (closing or staying, never also
/// entering); then the entry gates and the confirmation engine run, and a
/// confirmed entry opens the simulated position and records a trade.
pub open spec fn spec_sim_step(
    st: SimState,
    strategy: StrategyView,
    cfg: ConfirmationConfig,
    tick: TickView,
    i: int,
    now: int,
) -> SimState {
    let buffer = spec_push_evict(st.buffer, spec_recent_of(tick.bid, tick.ask));
    let st = SimState { buffer, ..st };
    if strategy.direction is NoTrade {
        SimState { no_strategy: st.no_strategy + 1, ..st }
    } else {
        let entry_price = if strategy.direction is Buy {
            tick.ask
        } else {
            tick.bid
        };
        match st.open {
            Some(pos) => {
                let outcome = spec_check_exit(tick, pos);
                if outcome is Open {
                    st
                } else {
                    let pips0 = if outcome is TpHit {
                        strategy.take_profit - pos.entry_price
                    } else {
                        strategy.stop_loss - pos.entry_price
                    };
                    let pips = if pos.direction is Buy {
                        pips0
                    } else {
                        -pips0
                    };
                    let running = st.running_pnl + pips;
                    let drawdown = st.peak_pnl - running;
                    let max_drawdown = if drawdown > st.max_drawdown {
                        drawdown
                    } else {
                        st.max_drawdown
                    };
                    let peak = if running > st.peak_pnl {
                        running
                    } else {
                        st.peak_pnl
                    };
                    let trades = if st.trades.len() > 0 {
                        st.trades.update(
                            st.trades.len() - 1,
                            BacktestTradeView {
                                outcome,
                                pips,
                                ..st.trades.last()
                            },
                        )
                    } else {
                        st.trades
                    };
                    SimState {
                        open: None,
                        trades,
                        running_pnl: running,
                        peak_pnl: peak,
                        max_drawdown,
                        ..st
                    }
                }
            },
            None => {
                if strategy.symbol != tick.symbol {
                    st
                } else if !strategy.valid_at(now) {
                    st
                } else if !(strategy.entry_zone.low <= entry_price
                    <= strategy.entry_zone.high) {
                    SimState { outside_zone: st.outside_zone + 1, ..st }
                } else {
                    match spec_check_confirmation(
                        tick.bid,
                        tick.ask,
                        strategy.entry_zone,
                        strategy.direction,
                        st.buffer,
                        tick.rsi_14,
                        cfg,
                    ) {
                        ConfirmationView::Rejected { reason } => {
                            if reason == "spread too wide"@ {
                                SimState { spread_too_wide: st.spread_too_wide + 1, ..st }
                            } else if reason == "no zone probe detected"@ {
                                SimState { no_zone_probe: st.no_zone_probe + 1, ..st }
                            } else if reason == "insufficient zone dwell"@ {
                                SimState { insufficient_dwell: st.insufficient_dwell + 1, ..st }
                            } else {
                                st
                            }
                        },
                        ConfirmationView::Confirmed => {
                            SimState {
                                open: Some(
                                    SimPos {
                                        entry_price: entry_price as i64,
                                        direction: strategy.direction,
                                        take_profit: strategy.take_profit as i64,
                                        stop_loss: strategy.stop_loss as i64,
                                    },
                                ),
                                trades: st.trades.push(
                                    BacktestTradeView {
                                        entry_price,
                                        direction: spec_direction_label(strategy.direction),
                                        outcome: TradeOutcome::Open,
                                        pips: 0,
                                        tick_index: i,
                                        time: tick.time,
                                    },
                                ),
                                ..st
                            }
                        },
                    }
                }
            },
        }
    }
}

/// The simulator state after a whole tick list.
pub open spec fn spec_sim_run(
    ticks: Seq<TickView>,
    strategy: StrategyView,
    cfg: ConfirmationConfig,
    now: int,
) -> SimState
    decreases ticks.len(),
{
    if ticks.len() == 0 {
        spec_sim_init()
    } else {
        spec_sim_step(
            spec_sim_run(ticks.drop_last(), strategy, cfg, now),
            strategy,
            cfg,
            ticks.last(),
            ticks.len() - 1,
            now,
        )
    }
}

/// Trades that ended in a win.
pub open spec fn spec_wins(ts: Seq<BacktestTradeView>) -> int
    decreases ts.len(),
{
    if ts.len() == 0 {
        0
    } else {
        spec_wins(ts.drop_last()) + if ts.last().outcome is TpHit {
            1int
        } else {
            0int
        }
    }
}

/// Sum of realised movement over all trades.
pub open spec fn spec_pips_sum(ts: Seq<BacktestTradeView>) -> int
    decreases ts.len(),
{
    if ts.len() == 0 {
        0
    } else {
        spec_pips_sum(ts.drop_last()) + ts.last().pips
    }
}

/// The ghost image of the tick list.
pub open spec fn ticks_view(ticks: Seq<TickData>) -> Seq<TickView> {
    ticks.map_values(|t: TickData| t@)
}

/// Replays the ticks through the shared decision pipeline and tallies the
/// run: the trade list, total and per-reason rejection counts, realised
/// movement, truncated win percentage, and the deepest drawdown of the
/// running tally.
#[verifier::rlimit(100)]
pub fn simulate(req: &BacktestRequest, base: ConfirmationConfig, now: i64) -> (r: BacktestResult)
    requires
        0 <= now,
        req.strategy@.entry_zone.wf(),
        wf_price(req.strategy@.take_profit),
        wf_price(req.strategy@.stop_loss),
        forall|k: int| 0 <= k < req.ticks@.len() ==> (#[trigger] req.ticks@[k]@).wf(),
    ensures
        ({
            let st = spec_sim_run(
                ticks_view(req.ticks@),
                req.strategy@,
                spec_apply_override(base, req.confirmation),
                now as int,
            );
            &&& r@.total_ticks == req.ticks@.len()
            &&& r@.trades == st.trades
            &&& r@.total_trades == st.trades.len()
            &&& r@.total_pips == spec_pips_sum(st.trades)
            &&& r@.win_rate_pct == (if st.trades.len() > 0 {
                (spec_wins(st.trades) * 100 / st.trades.len() as int) as u32
            } else {
                0u32
            })
            &&& r@.max_drawdown == st.max_drawdown
            &&& r@.rejection_log.no_strategy == st.no_strategy
            &&& r@.rejection_log.outside_zone == st.outside_zone
            &&& r@.rejection_log.spread_too_wide == st.spread_too_wide
            &&& r@.rejection_log.no_zone_probe == st.no_zone_probe
            &&& r@.rejection_log.insufficient_dwell == st.insufficient_dwell
            &&& r@.rejection_log.position_open == 0
        }),
{
    let config = apply_override(base, &req.confirmation);
    let n = req.ticks.len();
    let ghost tvs = ticks_view(req.ticks@);
    let ghost sv = req.strategy@;

    let mut tick_buffer: VecDeque<RecentTick> = VecDeque::new();
    let mut trades: Vec<BacktestTrade> = Vec::new();
    let mut rejections = RejectionBreakdown::default();
    let mut open_pos: Option<SimPos> = None;
    let mut running_pnl: i128 = 0;
    let mut peak_pnl: i128 = 0;
    let mut max_drawdown: i128 = 0;

    let mut i: usize = 0;
    proof {
        assert(tvs.take(0) =~= Seq::<TickView>::empty());
        assert(tick_buffer@ =~= Seq::<RecentTick>::empty());
        assert(trades@.map_values(|t: BacktestTrade| t@) =~= Seq::<BacktestTradeView>::empty());
    }
    while i < n
        invariant
            i <= n,
            n == req.ticks@.len(),
            tvs == ticks_view(req.ticks@),
            sv == req.strategy@,
            sv.entry_zone.wf(),
            wf_price(sv.take_profit),
            wf_price(sv.stop_loss),
            forall|k: int| 0 <= k < req.ticks@.len() ==> (#[trigger] req.ticks@[k]@).wf(),
            config == spec_apply_override(base, req.confirmation),
            ({
                let st = spec_sim_run(tvs.take(i as int), sv, config, now as int);
                &&& tick_buffer@ == st.buffer
                &&& open_pos == st.open
                &&& trades@.map_values(|t: BacktestTrade| t@) == st.trades
                &&& running_pnl as int == st.running_pnl
                &&& peak_pnl as int == st.peak_pnl
                &&& max_drawdown as int == st.max_drawdown
                &&& rejections.no_strategy as int == st.no_strategy
                &&& rejections.outside_zone as int == st.outside_zone
                &&& rejections.spread_too_wide as int == st.spread_too_wide
                &&& rejections.no_zone_probe as int == st.no_zone_probe
                &&& rejections.insufficient_dwell as int == st.insufficient_dwell
                &&& rejections.position_open == 0
                &&& st.trades.len() <= i
                &&& st.no_strategy <= i
                &&& st.outside_zone <= i
                &&& st.spread_too_wide <= i
                &&& st.no_zone_probe <= i
                &&& st.insufficient_dwell <= i
                &&& st.buffer.len() <= TICK_BUFFER_SIZE
                &&& (st.open matches Some(p) ==> wf_price(p.entry_price as int)
                    && p.take_profit as int == sv.take_profit
                    && p.stop_loss as int == sv.stop_loss)
                &&& -(i as int) * 0x4000000000000000 <= st.running_pnl <= (i as int)
                    * 0x4000000000000000
                &&& 0 <= st.peak_pnl <= (i as int) * 0x4000000000000000
                &&& 0 <= st.max_drawdown <= (i as int) * 0x8000000000000000
            }),
        decreases n - i,
    {
        let ghost st_pre = spec_sim_run(tvs.take(i as int), sv, config, now as int);
        let ghost st_post = spec_sim_step(st_pre, sv, config, tvs[i as int], i as int, now as int);
        proof {
            assert(tvs.take(i + 1).drop_last() =~= tvs.take(i as int));
            assert(tvs.take(i + 1).last() == tvs[i as int]);
            assert(spec_sim_run(tvs.take(i + 1), sv, config, now as int) == st_post);
        }
        let tick = &req.ticks[i];
        proof {
            assert(tvs[i as int] == tick@);
        }

        // Buffer the tick before every gate.
        if tick_buffer.len() >= TICK_BUFFER_SIZE {
            tick_buffer.pop_front();
        }
        tick_buffer.push_back(RecentTick::new(tick.bid, tick.ask));

        // A directionless plan never trades; count and move on.
        if req.strategy.direction == Direction::NoTrade {
            rejections.no_strategy = rejections.no_strategy + 1;
            i = i + 1;
            continue ;
        }

        // The execution-side price for this plan.
        let entry_price = match req.strategy.direction {
            Direction::Buy => tick.ask,
            Direction::Sell => tick.bid,
            Direction::NoTrade => {
                proof {
                    assert(false);
                }
                0
            },
        };

        // An open position is tested for exit first; its tick never also
        // enters.
        if let Some(pos) = open_pos {
            let outcome = check_exit(tick, &pos);
            if outcome == TradeOutcome::Open {
                i = i + 1;
                continue ;
            }
            let pips0 = if outcome == TradeOutcome::TpHit {
                req.strategy.take_profit - pos.entry_price
            } else {
                req.strategy.stop_loss - pos.entry_price
            };
            let pips = if pos.direction == Direction::Buy {
                pips0
            } else {
                -pips0
            };
            open_pos = None;
            running_pnl = running_pnl + pips as i128;
            let drawdown = peak_pnl - running_pnl;
            if drawdown > max_drawdown {
                max_drawdown = drawdown;
            }
            if running_pnl > peak_pnl {
                peak_pnl = running_pnl;
            }
            if trades.len() > 0 {
                let last = trades.len() - 1;
                let ghost trades_pre = trades@;
                let mut t = match trades.pop() {
                    Some(t) => t,
                    None => {
                        proof {
                            assert(false);
                        }
                        BacktestTrade {
                            entry_price: 0,
                            direction: String::new(),
                            outcome: TradeOutcome::Open,
                            pips: 0,
                            tick_index: 0,
                            time: 0,
                        }
                    },
                };
                t.outcome = outcome;
                t.pips = pips;
                trades.push(t);
                proof {
                    assert(trades@ =~= trades_pre.update(last as int, trades@.last()));
                    assert(trades@.map_values(|t: BacktestTrade| t@) =~= st_post.trades);
                }
            }
            i = i + 1;
            continue ;
        }

        // Entry gates: symbol, expiry, zone.
        if !str_eq(req.strategy.symbol.as_str(), tick.symbol.as_str()) {
            i = i + 1;
            continue ;
        }
        if !req.strategy.is_valid(now) {
            i = i + 1;
            continue ;
        }
        if !req.strategy.entry_zone.contains(entry_price) {
            rejections.outside_zone = rejections.outside_zone + 1;
            i = i + 1;
            continue ;
        }

        // The confirmation engine, with RSI passed through as live.
        match check_confirmation(
            tick.bid,
            tick.ask,
            &req.strategy.entry_zone,
            req.strategy.direction,
            &tick_buffer,
            tick.rsi_14,
            &config,
        ) {
            ConfirmationResult::Rejected { reason } => {
                if str_eq(reason, "spread too wide") {
                    rejections.spread_too_wide = rejections.spread_too_wide + 1;
                } else if str_eq(reason, "no zone probe detected") {
                    rejections.no_zone_probe = rejections.no_zone_probe + 1;
                } else if str_eq(reason, "insufficient zone dwell") {
                    rejections.insufficient_dwell = rejections.insufficient_dwell + 1;
                }
            },
            ConfirmationResult::Confirmed => {
                open_pos = Some(
                    SimPos {
                        entry_price,
                        direction: req.strategy.direction,
                        take_profit: req.strategy.take_profit,
                        stop_loss: req.strategy.stop_loss,
                    },
                );
                let ghost trades_pre = trades@;
                trades.push(
                    BacktestTrade {
                        entry_price,
                        direction: req.strategy.direction.label().to_owned(),
                        outcome: TradeOutcome::Open,
                        pips: 0,
                        tick_index: i,
                        time: tick.time,
                    },
                );
                proof {
                    assert(trades@.map_values(|t: BacktestTrade| t@) =~= trades_pre.map_values(
                        |t: BacktestTrade| t@,
                    ).push(trades@.last()@));
                }
            },
        }
        i = i + 1;
    }

    proof {
        assert(tvs.take(n as int) =~= tvs);
    }
    let ghost st = spec_sim_run(tvs, sv, config, now as int);

    // Tally.
    let total_trades = trades.len();
    let mut wins: usize = 0;
    let mut total_pips: i128 = 0;
    let mut j: usize = 0;
    proof {
        assert(trades@.map_values(|t: BacktestTrade| t@).take(0)
            =~= Seq::<BacktestTradeView>::empty());
    }
    while j < total_trades
        invariant
            j <= total_trades,
            total_trades == trades@.len(),
            trades@.map_values(|t: BacktestTrade| t@) == st.trades,
            wins as int == spec_wins(st.trades.take(j as int)),
            total_pips as int == spec_pips_sum(st.trades.take(j as int)),
            wins <= j,
            -(j as int) * 0x8000000000000000 <= total_pips as int <= (j as int)
                * 0x8000000000000000,
        decreases total_trades - j,
    {
        proof {
            assert(st.trades.take(j + 1).drop_last() =~= st.trades.take(j as int));
            assert(st.trades.take(j + 1).last() == st.trades[j as int]);
            assert(trades@[j as int]@ == st.trades[j as int]);
        }
        if trades[j].outcome == TradeOutcome::TpHit {
            wins = wins + 1;
        }
        total_pips = total_pips + trades[j].pips as i128;
        j = j + 1;
    }
    proof {
        assert(st.trades.take(total_trades as int) =~= st.trades);
    }

    let win_rate_pct: u32 = if total_trades > 0 {
        (((wins as u128) * 100) / (total_trades as u128)) as u32
    } else {
        0
    };

    BacktestResult {
        total_ticks: n,
        total_trades,
        total_pips,
        win_rate_pct,
        max_drawdown,
        trades,
        rejection_log: rejections,
    }
}

} // verus!
