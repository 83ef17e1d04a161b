//! The shared application state: the single owner of the active plan, the
//! open position, the trade history, the per-symbol tick buffers and
//! candles, the counters and the risk governor.
//!
//! The surrounding process wraps one value of [`AppState`] in its lock of
//! choice; every transition here is a plain, contracted mutation.

use vstd::prelude::*;

use std::collections::VecDeque;

use crate::candle::{spec_candle_new, spec_candle_update, Candle, CandleView};
use crate::confirmation::{ConfirmationConfig, RecentTick};
use crate::error::{AppError, AppErrorView};
use crate::models::{ActiveStrategy, OpenPosition, PositionView, RecordView, StrategyView,
    TradeRecord};
use crate::risk::{day_of, RiskConfig, RiskManager, RiskView};
use crate::str_eq;
use crate::wf_price;

verus! {

/// How many recent ticks each symbol keeps for probe and dwell analysis.
pub const TICK_BUFFER_SIZE: usize = 30;

/// Mathematical content of a [`SymbolState`].
pub ghost struct SymbolStateView {
    pub symbol: Seq<char>,
    pub ticks: Seq<RecentTick>,
    pub candle: CandleView,
}

/// Everything the state keeps per symbol: the bounded tick ring and the
/// minute candle under construction.
#[derive(Debug)]
pub struct SymbolState {
    pub symbol: String,
    /// Most recent sample last; at most [`TICK_BUFFER_SIZE`] entries.
    pub ticks: VecDeque<RecentTick>,
    pub candle: Candle,
}

impl View for SymbolState {
    type V = SymbolStateView;

    open spec fn view(&self) -> SymbolStateView {
        SymbolStateView { symbol: self.symbol@, ticks: self.ticks@, candle: self.candle@ }
    }
}

/// The ghost image of a vector of per-symbol states.
pub open spec fn entries_view(v: Seq<SymbolState>) -> Seq<SymbolStateView> {
    v.map_values(|s: SymbolState| s@)
}

/// First entry for a symbol, if any.
pub open spec fn entry_of(entries: Seq<SymbolStateView>, sym: Seq<char>) -> Option<SymbolStateView>
    decreases entries.len(),
{
    if entries.len() == 0 {
        None
    } else if entries[0].symbol == sym {
        Some(entries[0])
    } else {
        entry_of(entries.drop_first(), sym)
    }
}

/// The tick buffer recorded for a symbol; empty when the symbol was never
/// seen.
pub open spec fn buffer_of(entries: Seq<SymbolStateView>, sym: Seq<char>) -> Seq<RecentTick> {
    match entry_of(entries, sym) {
        Some(e) => e.ticks,
        None => Seq::empty(),
    }
}

/// The candle under construction for a symbol, if any.
pub open spec fn candle_of(entries: Seq<SymbolStateView>, sym: Seq<char>) -> Option<CandleView> {
    match entry_of(entries, sym) {
        Some(e) => Some(e.candle),
        None => None,
    }
}

/// No two entries share a symbol.
pub open spec fn unique_symbols(entries: Seq<SymbolStateView>) -> bool {
    forall|i: int, j: int|
        0 <= i < j < entries.len() ==> (#[trigger] entries[i]).symbol != (#[trigger] entries[j]).symbol
}

/// A buffer after one sample arrives: the oldest entry leaves when the ring
/// is full, the new sample goes to the end.
pub open spec fn spec_push_evict(s: Seq<RecentTick>, rt: RecentTick) -> Seq<RecentTick> {
    (if s.len() >= TICK_BUFFER_SIZE {
        s.drop_first()
    } else {
        s
    }).push(rt)
}

/// A candle after one tick: opened fresh when none exists or the minute
/// rolled over, widened otherwise.
pub open spec fn spec_candle_roll(c: Option<CandleView>, sym: Seq<char>, now: int, price: int)
    -> CandleView {
    match c {
        None => spec_candle_new(sym, now, price),
        Some(c) => if now / 60 > c.start_time / 60 {
            spec_candle_new(sym, now, price)
        } else {
            spec_candle_update(c, price)
        },
    }
}

/// Mathematical content of an [`AppState`].
pub ghost struct StateView {
    pub strategy: Option<StrategyView>,
    pub position: Option<PositionView>,
    pub history: Seq<RecordView>,
    pub entries: Seq<SymbolStateView>,
    pub tick_count: u64,
    pub trade_count: u64,
    pub config: ConfirmationConfig,
    pub risk: RiskView,
}

impl StateView {
    /// The state invariant: per-symbol entries are uniquely keyed, rings are
    /// bounded, candles carry their symbol and a valid start time, and the
    /// risk governor is sound.
    pub open spec fn wf(self) -> bool {
        &&& (self.strategy matches Some(s) ==> s.wf())
        &&& unique_symbols(self.entries)
        &&& forall|i: int|
            0 <= i < self.entries.len() ==> (#[trigger] self.entries[i]).ticks.len()
                <= TICK_BUFFER_SIZE
        &&& forall|i: int|
            0 <= i < self.entries.len() ==> (#[trigger] self.entries[i]).candle.symbol
                == self.entries[i].symbol
        &&& forall|i: int|
            0 <= i < self.entries.len() ==> 0 <= (#[trigger] self.entries[i]).candle.start_time
        &&& self.risk.wf()
    }
}

/// A state with its plan cleared and everything else untouched.
pub open spec fn spec_cleared(s: StateView) -> StateView {
    StateView { strategy: None, ..s }
}

/// The shared state. Mutate it only through its methods.
#[derive(Debug)]
pub struct AppState {
    /// The current trade plan; `None` means disarmed.
    pub active_strategy: Option<ActiveStrategy>,
    /// The position open at the broker; `Some` blocks re-entry.
    pub open_position: Option<OpenPosition>,
    /// Every order ever fired; append-only.
    pub trade_history: Vec<TradeRecord>,
    /// Per-symbol tick rings and candles.
    pub symbol_states: Vec<SymbolState>,
    /// Ticks processed, for health reporting.
    pub tick_count: u64,
    /// Triggers fired, for health reporting.
    pub trade_count: u64,
    /// Confirmation engine settings.
    pub confirmation_config: ConfirmationConfig,
    /// The risk governor.
    pub risk: RiskManager,
}

impl View for AppState {
    type V = StateView;

    open spec fn view(&self) -> StateView {
        StateView {
            strategy: match &self.active_strategy {
                Some(s) => Some(s@),
                None => None,
            },
            position: match &self.open_position {
                Some(p) => Some(p@),
                None => None,
            },
            history: self.trade_history@.map_values(|r: TradeRecord| r@),
            entries: entries_view(self.symbol_states@),
            tick_count: self.tick_count,
            trade_count: self.trade_count,
            config: self.confirmation_config,
            risk: self.risk@,
        }
    }
}

proof fn lemma_entry_of_first_match(entries: Seq<SymbolStateView>, idx: int)
    requires
        unique_symbols(entries),
        0 <= idx < entries.len(),
    ensures
        entry_of(entries, entries[idx].symbol) == Some(entries[idx]),
    decreases idx,
{
    if idx > 0 {
        assert(entries[0].symbol != entries[idx].symbol);
        let rest = entries.drop_first();
        assert(forall|k: int| 0 <= k < rest.len() ==> #[trigger] rest[k] == entries[k + 1]);
        lemma_entry_of_first_match(rest, idx - 1);
    }
}

proof fn lemma_entry_of_absent(entries: Seq<SymbolStateView>, sym: Seq<char>)
    requires
        forall|k: int| 0 <= k < entries.len() ==> (#[trigger] entries[k]).symbol != sym,
    ensures
        entry_of(entries, sym) is None,
    decreases entries.len(),
{
    if entries.len() > 0 {
        let rest = entries.drop_first();
        assert(forall|k: int| 0 <= k < rest.len() ==> #[trigger] rest[k] == entries[k + 1]);
        lemma_entry_of_absent(rest, sym);
    }
}

proof fn lemma_entry_of_update_other(
    entries: Seq<SymbolStateView>,
    idx: int,
    nb: SymbolStateView,
    sym: Seq<char>,
)
    requires
        unique_symbols(entries),
        0 <= idx < entries.len(),
        nb.symbol == entries[idx].symbol,
        sym != entries[idx].symbol,
    ensures
        entry_of(entries.update(idx, nb), sym) == entry_of(entries, sym),
    decreases idx,
{
    let upd = entries.update(idx, nb);
    if idx == 0 {
        assert(upd[0] == nb);
        assert(upd.drop_first() =~= entries.drop_first());
    } else {
        assert(upd[0] == entries[0]);
        let rest = entries.drop_first();
        let upd_rest = upd.drop_first();
        assert(forall|k: int| 0 <= k < rest.len() ==> #[trigger] rest[k] == entries[k + 1]);
        assert(upd_rest =~= rest.update(idx - 1, nb));
        if entries[0].symbol != sym {
            lemma_entry_of_update_other(rest, idx - 1, nb, sym);
        }
    }
}

proof fn lemma_entry_of_push(entries: Seq<SymbolStateView>, nb: SymbolStateView, sym: Seq<char>)
    ensures
        sym != nb.symbol ==> entry_of(entries.push(nb), sym) == entry_of(entries, sym),
        sym == nb.symbol && entry_of(entries, sym) is None ==> entry_of(entries.push(nb), sym)
            == Some(nb),
    decreases entries.len(),
{
    let pushed = entries.push(nb);
    if entries.len() == 0 {
        assert(pushed[0] == nb);
        assert(pushed.drop_first() =~= Seq::<SymbolStateView>::empty());
    } else {
        assert(pushed[0] == entries[0]);
        let rest = entries.drop_first();
        assert(forall|k: int| 0 <= k < rest.len() ==> #[trigger] rest[k] == entries[k + 1]);
        assert(pushed.drop_first() =~= rest.push(nb));
        lemma_entry_of_push(rest, nb, sym);
    }
}

/// A found entry is one of the sequence's elements.
pub proof fn lemma_entry_of_is_element(entries: Seq<SymbolStateView>, sym: Seq<char>)
    ensures
        entry_of(entries, sym) matches Some(e) ==> exists|i: int|
            0 <= i < entries.len() && entries[i] == e,
    decreases entries.len(),
{
    if entries.len() > 0 && entries[0].symbol != sym {
        let rest = entries.drop_first();
        lemma_entry_of_is_element(rest, sym);
        if entry_of(entries, sym) is Some {
            let e = entry_of(entries, sym)->Some_0;
            let i = choose|i: int| 0 <= i < rest.len() && rest[i] == e;
            assert(entries[i + 1] == e);
        }
    }
}

impl AppState {
    /// A fresh, empty state: no plan, no position, no history, no buffers,
    /// counters at zero.
    pub fn new(
        confirmation_config: ConfirmationConfig,
        risk_config: RiskConfig,
        now: i64,
    ) -> (r: Self)
        requires
            0 <= now,
        ensures
            r@.strategy is None,
            r@.position is None,
            r@.history == Seq::<RecordView>::empty(),
            r@.entries == Seq::<SymbolStateView>::empty(),
            r@.tick_count == 0,
            r@.trade_count == 0,
            r@.config == confirmation_config,
            r@.risk == (RiskView {
                config: risk_config,
                is_killed: false,
                kill_reason: None,
                trades_today: 0,
                consecutive_failures: 0,
                last_failure_at: None,
                last_trade_at: None,
                daily_reset_date: day_of(now as int),
            }),
            r@.wf(),
    {
        let r = AppState {
            active_strategy: None,
            open_position: None,
            trade_history: Vec::new(),
            symbol_states: Vec::new(),
            tick_count: 0,
            trade_count: 0,
            confirmation_config,
            risk: RiskManager::new(risk_config, now),
        };
        proof {
            assert(r@.history =~= Seq::<RecordView>::empty());
            assert(r@.entries =~= Seq::<SymbolStateView>::empty());
        }
        r
    }

    /// Installs (or replaces) the active plan, after checking the ingest
    /// invariants; an invalid plan is refused and changes nothing.
    pub fn install_strategy(&mut self, strategy: ActiveStrategy) -> (r: Result<(), AppError>)
        ensures
            strategy@.wf() ==> r is Ok && final(self)@ == (StateView {
                strategy: Some(strategy@),
                ..old(self)@
            }),
            !strategy@.wf() ==> (r matches Err(e) && e@ == AppErrorView::BadRequest(
                "Strategy violates its invariants"@,
            ) && final(self)@ == old(self)@),
            old(self)@.wf() ==> final(self)@.wf(),
    {
        if !strategy.is_well_formed() {
            return Err(AppError::BadRequest(String::from_str("Strategy violates its invariants")));
        }
        self.active_strategy = Some(strategy);
        Ok(())
    }

    /// The current plan, if any.
    pub fn get_strategy(&self) -> (r: Option<ActiveStrategy>)
        ensures
            match r {
                Some(s) => self@.strategy == Some(s@),
                None => self@.strategy is None,
            },
    {
        match &self.active_strategy {
            Some(s) => Some(s.clone()),
            None => None,
        }
    }

    /// Clears the active plan; clearing an empty slot is a no-op, so the
    /// operation is idempotent.
    pub fn clear_strategy(&mut self)
        ensures
            final(self)@ == spec_cleared(old(self)@),
            old(self)@.wf() ==> final(self)@.wf(),
    {
        self.active_strategy = None;
    }

    /// Replaces the open-position mirror; `None` records that nothing is
    /// open.
    pub fn set_open_position(&mut self, position: Option<OpenPosition>)
        ensures
            final(self)@ == (StateView {
                position: match position {
                    Some(p) => Some(p@),
                    None => None,
                },
                ..old(self)@
            }),
            old(self)@.wf() ==> final(self)@.wf(),
    {
        self.open_position = position;
    }

    /// Whether a position is open for exactly this symbol.
    pub fn has_open_position_for(&self, symbol: &str) -> (r: bool)
        ensures
            r == (self@.position matches Some(p) && p.symbol == symbol@),
    {
        match &self.open_position {
            Some(p) => str_eq(p.symbol.as_str(), symbol),
            None => false,
        }
    }

    /// Appends one record to the trade history.
    pub fn push_trade_record(&mut self, record: TradeRecord)
        ensures
            final(self)@ == (StateView {
                history: old(self)@.history.push(record@),
                ..old(self)@
            }),
            old(self)@.wf() ==> final(self)@.wf(),
    {
        let ghost old_history = self.trade_history@;
        self.trade_history.push(record);
        proof {
            assert(self.trade_history@.map_values(|r: TradeRecord| r@) =~= old_history.map_values(
                |r: TradeRecord| r@,
            ).push(self.trade_history@.last()@));
        }
    }

    /// The recorded tick buffer for a symbol, as a fresh copy.
    pub fn get_tick_buffer(&self, symbol: &str) -> (r: VecDeque<RecentTick>)
        requires
            self@.wf(),
        ensures
            r@ == buffer_of(self@.entries, symbol@),
    {
        let n = self.symbol_states.len();
        let mut i: usize = 0;
        while i < n
            invariant
                i <= n,
                n == self.symbol_states@.len(),
                self@.wf(),
                forall|k: int|
                    0 <= k < i ==> (#[trigger] entries_view(self.symbol_states@)[k]).symbol
                        != symbol@,
            decreases n - i,
        {
            if str_eq(self.symbol_states[i].symbol.as_str(), symbol) {
                proof {
                    lemma_entry_of_first_match(entries_view(self.symbol_states@), i as int);
                }
                return self.symbol_states[i].ticks.clone();
            }
            i = i + 1;
        }
        proof {
            lemma_entry_of_absent(entries_view(self.symbol_states@), symbol@);
        }
        let r = VecDeque::new();
        proof {
            assert(r@ =~= Seq::<RecentTick>::empty());
        }
        r
    }

    /// The candle under construction for a symbol, as a fresh copy.
    pub fn get_latest_candle(&self, symbol: &str) -> (r: Option<Candle>)
        requires
            self@.wf(),
        ensures
            match r {
                Some(c) => candle_of(self@.entries, symbol@) == Some(c@),
                None => candle_of(self@.entries, symbol@) is None,
            },
    {
        let n = self.symbol_states.len();
        let mut i: usize = 0;
        while i < n
            invariant
                i <= n,
                n == self.symbol_states@.len(),
                self@.wf(),
                forall|k: int|
                    0 <= k < i ==> (#[trigger] entries_view(self.symbol_states@)[k]).symbol
                        != symbol@,
            decreases n - i,
        {
            if str_eq(self.symbol_states[i].symbol.as_str(), symbol) {
                proof {
                    lemma_entry_of_first_match(entries_view(self.symbol_states@), i as int);
                }
                return Some(self.symbol_states[i].candle.clone());
            }
            i = i + 1;
        }
        proof {
            lemma_entry_of_absent(entries_view(self.symbol_states@), symbol@);
        }
        None
    }

    /// Records one tick for a symbol, before any gating: the ring gains the
    /// sample (evicting the oldest when full) and the symbol's minute candle
    /// absorbs the doubled midpoint. Nothing else changes, and no other
    /// symbol's entry changes.
    pub fn record_tick(&mut self, symbol: &str, bid: i64, ask: i64, now: i64)
        requires
            wf_price(bid as int),
            wf_price(ask as int),
            0 <= now,
            old(self)@.wf(),
        ensures
            final(self)@.wf(),
            buffer_of(final(self)@.entries, symbol@) == spec_push_evict(
                buffer_of(old(self)@.entries, symbol@),
                RecentTick { mid2: (bid + ask) as i64, spread: (ask - bid) as i64 },
            ),
            candle_of(final(self)@.entries, symbol@) == Some(
                spec_candle_roll(
                    candle_of(old(self)@.entries, symbol@),
                    symbol@,
                    now as int,
                    (bid + ask) as int,
                ),
            ),
            forall|sym2: Seq<char>|
                sym2 != symbol@ ==> #[trigger] entry_of(final(self)@.entries, sym2) == entry_of(
                    old(self)@.entries,
                    sym2,
                ),
            final(self)@ == (StateView { entries: final(self)@.entries, ..old(self)@ }),
    {
        let rt = RecentTick::new(bid, ask);
        let mid2 = bid + ask;
        let n = self.symbol_states.len();
        let ghost old_entries = entries_view(self.symbol_states@);
        let mut i: usize = 0;
        while i < n
            invariant
                i <= n,
                n == self.symbol_states@.len(),
                self@ == old(self)@,
                old_entries == entries_view(self.symbol_states@),
                old(self)@.wf(),
                old_entries == old(self)@.entries,
                wf_price(bid as int),
                wf_price(ask as int),
                0 <= now,
                rt.mid2 == bid + ask,
                rt.spread == ask - bid,
                mid2 == bid + ask,
                forall|k: int| 0 <= k < i ==> (#[trigger] old_entries[k]).symbol != symbol@,
            decreases n - i,
        {
            if str_eq(self.symbol_states[i].symbol.as_str(), symbol) {
                proof {
                    lemma_entry_of_first_match(old_entries, i as int);
                }
                let mut sb = self.symbol_states.remove(i);
                if sb.ticks.len() >= TICK_BUFFER_SIZE {
                    sb.ticks.pop_front();
                }
                sb.ticks.push_back(rt);
                let rolled = (now as u64) / 60 > (sb.candle.start_time as u64) / 60;
                if rolled {
                    sb.candle = Candle::new(symbol, now, mid2);
                } else {
                    sb.candle.update(mid2);
                }
                self.symbol_states.insert(i, sb);
                proof {
                    let new_entries = entries_view(self.symbol_states@);
                    let sb_new = self.symbol_states@[i as int]@;
                    assert(new_entries =~= old_entries.update(i as int, sb_new));
                    lemma_entry_of_first_match(new_entries, i as int);
                    assert forall|sym2: Seq<char>| sym2 != symbol@ implies #[trigger] entry_of(
                        new_entries,
                        sym2,
                    ) == entry_of(old_entries, sym2) by {
                        lemma_entry_of_update_other(
                            old_entries,
                            i as int,
                            new_entries[i as int],
                            sym2,
                        );
                    }
                }
                return ;
            }
            i = i + 1;
        }
        proof {
            lemma_entry_of_absent(old_entries, symbol@);
        }
        let mut ticks: VecDeque<RecentTick> = VecDeque::new();
        ticks.push_back(rt);
        let candle = Candle::new(symbol, now, mid2);
        let sb = SymbolState { symbol: symbol.to_owned(), ticks, candle };
        self.symbol_states.push(sb);
        proof {
            let new_entries = entries_view(self.symbol_states@);
            let nb = self.symbol_states@.last()@;
            assert(new_entries =~= old_entries.push(nb));
            lemma_entry_of_push(old_entries, nb, symbol@);
            assert(buffer_of(new_entries, symbol@) =~= spec_push_evict(
                buffer_of(old_entries, symbol@),
                rt,
            ));
            assert forall|sym2: Seq<char>| sym2 != symbol@ implies #[trigger] entry_of(
                new_entries,
                sym2,
            ) == entry_of(old_entries, sym2) by {
                lemma_entry_of_push(old_entries, nb, sym2);
            }
        }
    }
}

} // verus!
