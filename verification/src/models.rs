//! Domain data: directions, entry zones, plans, ticks, positions and trade
//! records.
//!
//! Prices, lot sizes and timestamps are integers in caller-chosen units
//! (timestamps are nonnegative Unix seconds). Every type has a ghost view so
//! contracts can speak about its mathematical content.

use vstd::prelude::*;

use crate::ids::fresh_id;
use crate::wf_price;

verus! {

/// The planner's directional bias for the next trade.
#[derive(Debug, Clone, Copy, PartialEq, Eq, Structural)]
pub enum Direction {
    Buy,
    Sell,
    /// Neutral — the planner sees no edge; the reflex path must not open
    /// trades.
    NoTrade,
}

impl Direction {
    /// The broker-side label of the direction.
    pub fn label(&self) -> (r: &'static str)
        ensures
            *self is Buy ==> r@ == "BUY"@,
            *self is Sell ==> r@ == "SELL"@,
            *self is NoTrade ==> r@ == "NOTRADE"@,
    {
        match self {
            Direction::Buy => "BUY",
            Direction::Sell => "SELL",
            Direction::NoTrade => "NOTRADE",
        }
    }
}

/// A price range in which a plan authorises entry.
///
/// For a Buy the reflex path triggers when price drops into the zone; for a
/// Sell, when price rises into it.
#[derive(Debug, Clone, Copy, PartialEq, Eq, Structural)]
pub struct EntryZone {
    /// Lower bound of the acceptable entry range.
    pub low: i64,
    /// Upper bound of the acceptable entry range.
    pub high: i64,
}

impl EntryZone {
    /// An ordered zone with workable bounds.
    pub open spec fn wf(self) -> bool {
        self.low <= self.high && wf_price(self.low as int) && wf_price(self.high as int)
    }

    /// Membership is the closed-interval test: equality at either bound is
    /// inside.
    pub fn contains(&self, price: i64) -> (r: bool)
        ensures
            r == (self.low <= price <= self.high),
    {
        price >= self.low && price <= self.high
    }
}

/// Mathematical content of an [`ActiveStrategy`].
pub ghost struct StrategyView {
    pub strategy_id: Seq<char>,
    pub symbol: Seq<char>,
    pub direction: Direction,
    pub entry_zone: EntryZone,
    pub take_profit: int,
    pub stop_loss: int,
    pub opposing_zone: Option<EntryZone>,
    pub lot_size: int,
    pub rationale: Seq<char>,
    pub created_at: int,
    pub expires_at: Option<int>,
}

impl StrategyView {
    /// The ingest invariant: zone ordered and workable, protective levels on
    /// the correct side of the zone for the direction, positive size, expiry
    /// after creation.
    pub open spec fn wf(self) -> bool {
        &&& self.entry_zone.wf()
        &&& wf_price(self.take_profit)
        &&& wf_price(self.stop_loss)
        &&& (self.opposing_zone matches Some(z) ==> z.wf())
        &&& self.lot_size > 0
        &&& (self.direction is Buy ==> self.stop_loss < self.entry_zone.low
            && self.entry_zone.high < self.take_profit)
        &&& (self.direction is Sell ==> self.take_profit < self.entry_zone.low
            && self.entry_zone.high < self.stop_loss)
        &&& 0 <= self.created_at
        &&& (self.expires_at matches Some(e) ==> e > self.created_at)
    }

    /// Whether the plan is still current at `now`: no expiry, or expiry not
    /// yet reached.
    pub open spec fn valid_at(self, now: int) -> bool {
        match self.expires_at {
            Some(e) => now < e,
            None => true,
        }
    }
}

/// The complete trade plan published by the planner and held in shared
/// state; immutable once installed.
#[derive(Debug)]
pub struct ActiveStrategy {
    /// Unique identifier of this plan.
    pub strategy_id: String,
    /// The symbol the plan applies to.
    pub symbol: String,
    /// Directional bias.
    pub direction: Direction,
    /// The price zone where the trade should be entered.
    pub entry_zone: EntryZone,
    /// Take-profit price level.
    pub take_profit: i64,
    /// Stop-loss price level.
    pub stop_loss: i64,
    /// Optional opposing supply/demand zone hint.
    pub opposing_zone: Option<EntryZone>,
    /// Position size in lot units; must be positive.
    pub lot_size: i64,
    /// Free-text rationale from the planner.
    pub rationale: String,
    /// When the planner produced this plan (Unix seconds).
    pub created_at: i64,
    /// Optional expiry; the reflex path ignores the plan afterwards.
    pub expires_at: Option<i64>,
}

impl View for ActiveStrategy {
    type V = StrategyView;

    open spec fn view(&self) -> StrategyView {
        StrategyView {
            strategy_id: self.strategy_id@,
            symbol: self.symbol@,
            direction: self.direction,
            entry_zone: self.entry_zone,
            take_profit: self.take_profit as int,
            stop_loss: self.stop_loss as int,
            opposing_zone: self.opposing_zone,
            lot_size: self.lot_size as int,
            rationale: self.rationale@,
            created_at: self.created_at as int,
            expires_at: match self.expires_at {
                Some(e) => Some(e as int),
                None => None,
            },
        }
    }
}

impl Clone for ActiveStrategy {
    fn clone(&self) -> (r: Self)
        ensures
            r@ == self@,
    {
        ActiveStrategy {
            strategy_id: self.strategy_id.clone(),
            symbol: self.symbol.clone(),
            direction: self.direction,
            entry_zone: self.entry_zone,
            take_profit: self.take_profit,
            stop_loss: self.stop_loss,
            opposing_zone: self.opposing_zone,
            lot_size: self.lot_size,
            rationale: self.rationale.clone(),
            created_at: self.created_at,
            expires_at: self.expires_at,
        }
    }
}

impl ActiveStrategy {
    /// Checks the ingest invariants: ordered, workable prices, protective
    /// levels on the correct side for the direction, positive size, expiry
    /// after creation.
    pub fn is_well_formed(&self) -> (r: bool)
        ensures
            r == self@.wf(),
    {
        let zone_ok = self.entry_zone.low <= self.entry_zone.high
            && -crate::PRICE_BOUND <= self.entry_zone.low
            && self.entry_zone.low <= crate::PRICE_BOUND
            && -crate::PRICE_BOUND <= self.entry_zone.high
            && self.entry_zone.high <= crate::PRICE_BOUND;
        let levels_ok = -crate::PRICE_BOUND <= self.take_profit
            && self.take_profit <= crate::PRICE_BOUND
            && -crate::PRICE_BOUND <= self.stop_loss
            && self.stop_loss <= crate::PRICE_BOUND;
        let opposing_ok = match self.opposing_zone {
            Some(z) => z.low <= z.high && -crate::PRICE_BOUND <= z.low
                && z.low <= crate::PRICE_BOUND && -crate::PRICE_BOUND <= z.high
                && z.high <= crate::PRICE_BOUND,
            None => true,
        };
        let direction_ok = match self.direction {
            Direction::Buy => self.stop_loss < self.entry_zone.low
                && self.entry_zone.high < self.take_profit,
            Direction::Sell => self.take_profit < self.entry_zone.low
                && self.entry_zone.high < self.stop_loss,
            Direction::NoTrade => true,
        };
        let expiry_ok = match self.expires_at {
            Some(e) => e > self.created_at,
            None => true,
        };
        zone_ok && levels_ok && opposing_ok && self.lot_size > 0 && direction_ok
            && 0 <= self.created_at && expiry_ok
    }

    /// True when the plan has not expired at `now` (or has no expiry).
    pub fn is_valid(&self, now: i64) -> (r: bool)
        ensures
            r == self@.valid_at(now as int),
    {
        match self.expires_at {
            Some(expiry) => now < expiry,
            None => true,
        }
    }
}

/// Mathematical content of a [`TickData`].
pub ghost struct TickView {
    pub symbol: Seq<char>,
    pub bid: int,
    pub ask: int,
    pub mid: Option<int>,
    pub volume: int,
    pub spread: Option<int>,
    pub time: int,
    pub rsi_14: Option<int>,
    pub ma_20: Option<int>,
    pub ma_50: Option<int>,
}

impl TickView {
    /// Prices the tick carries are workable for integer midpoint arithmetic.
    pub open spec fn wf(self) -> bool {
        wf_price(self.bid) && wf_price(self.ask)
    }
}

/// A single price tick received from the market feed.
#[derive(Debug)]
pub struct TickData {
    /// The trading symbol.
    pub symbol: String,
    /// Current bid price.
    pub bid: i64,
    /// Current ask price.
    pub ask: i64,
    /// Optional midpoint supplied by the feed.
    pub mid: Option<i64>,
    /// Volume traded at this tick; may be zero.
    pub volume: i64,
    /// Optional spread supplied by the feed.
    pub spread: Option<i64>,
    /// When the feed recorded this tick (Unix seconds).
    pub time: i64,
    /// Optional RSI(14) indicator, 0–100; absent when the feed does not
    /// compute it.
    pub rsi_14: Option<i64>,
    /// Optional 20-period moving average.
    pub ma_20: Option<i64>,
    /// Optional 50-period moving average.
    pub ma_50: Option<i64>,
}

impl View for TickData {
    type V = TickView;

    open spec fn view(&self) -> TickView {
        TickView {
            symbol: self.symbol@,
            bid: self.bid as int,
            ask: self.ask as int,
            mid: match self.mid {
                Some(m) => Some(m as int),
                None => None,
            },
            volume: self.volume as int,
            spread: match self.spread {
                Some(v) => Some(v as int),
                None => None,
            },
            time: self.time as int,
            rsi_14: match self.rsi_14 {
                Some(v) => Some(v as int),
                None => None,
            },
            ma_20: match self.ma_20 {
                Some(v) => Some(v as int),
                None => None,
            },
            ma_50: match self.ma_50 {
                Some(v) => Some(v as int),
                None => None,
            },
        }
    }
}

impl Clone for TickData {
    fn clone(&self) -> (r: Self)
        ensures
            r@ == self@,
    {
        TickData {
            symbol: self.symbol.clone(),
            bid: self.bid,
            ask: self.ask,
            mid: self.mid,
            volume: self.volume,
            spread: self.spread,
            time: self.time,
            rsi_14: self.rsi_14,
            ma_20: self.ma_20,
            ma_50: self.ma_50,
        }
    }
}

/// Truncating halving of a doubled price; exact when the sum is even.
pub open spec fn spec_half(s: int) -> int {
    if s >= 0 {
        s / 2
    } else {
        -((-s) / 2)
    }
}

impl TickData {
    /// The effective midpoint: the feed's value when present, else the
    /// truncated average of bid and ask.
    pub fn effective_mid(&self) -> (r: i64)
        requires
            self@.wf(),
        ensures
            r as int == match self@.mid {
                Some(m) => m,
                None => spec_half(self@.bid + self@.ask),
            },
    {
        match self.mid {
            Some(m) => m,
            None => {
                let s = self.bid + self.ask;
                if s >= 0 {
                    ((s as u64) / 2) as i64
                } else {
                    -(((-s as u64) / 2) as i64)
                }
            },
        }
    }
}

/// Status of an order fired at the broker.
#[derive(Debug, Clone, Copy, PartialEq, Eq, Structural)]
pub enum TradeStatus {
    /// Order sent, waiting for broker acknowledgement.
    Pending,
    /// Broker accepted the order and returned a ticket number.
    Confirmed,
    /// Broker rejected the order (non-success retcode).
    Rejected,
    /// The order never reached the broker (network error / timeout).
    Failed,
}

/// Mathematical content of an [`OpenPosition`].
pub ghost struct PositionView {
    pub position_id: Seq<char>,
    pub strategy_id: Seq<char>,
    pub symbol: Seq<char>,
    pub direction: Direction,
    pub entry_price: int,
    pub lot_size: int,
    pub take_profit: int,
    pub stop_loss: int,
    pub mt5_ticket: Option<u64>,
    pub opened_at: int,
    pub sl_moved_to_be: bool,
}

/// The position currently open at the broker, mirrored locally.
///
/// Its presence blocks any further entry on the same symbol (double-entry
/// interlock).
#[derive(Debug)]
pub struct OpenPosition {
    /// Internal identifier of this position.
    pub position_id: String,
    /// The plan that produced this position.
    pub strategy_id: String,
    pub symbol: String,
    pub direction: Direction,
    pub entry_price: i64,
    pub lot_size: i64,
    pub take_profit: i64,
    pub stop_loss: i64,
    /// Broker ticket number; present only once confirmed.
    pub mt5_ticket: Option<u64>,
    pub opened_at: i64,
    /// Whether the stop loss was already moved to break-even.
    pub sl_moved_to_be: bool,
}

impl View for OpenPosition {
    type V = PositionView;

    open spec fn view(&self) -> PositionView {
        PositionView {
            position_id: self.position_id@,
            strategy_id: self.strategy_id@,
            symbol: self.symbol@,
            direction: self.direction,
            entry_price: self.entry_price as int,
            lot_size: self.lot_size as int,
            take_profit: self.take_profit as int,
            stop_loss: self.stop_loss as int,
            mt5_ticket: self.mt5_ticket,
            opened_at: self.opened_at as int,
            sl_moved_to_be: self.sl_moved_to_be,
        }
    }
}

impl Clone for OpenPosition {
    fn clone(&self) -> (r: Self)
        ensures
            r@ == self@,
    {
        OpenPosition {
            position_id: self.position_id.clone(),
            strategy_id: self.strategy_id.clone(),
            symbol: self.symbol.clone(),
            direction: self.direction,
            entry_price: self.entry_price,
            lot_size: self.lot_size,
            take_profit: self.take_profit,
            stop_loss: self.stop_loss,
            mt5_ticket: self.mt5_ticket,
            opened_at: self.opened_at,
            sl_moved_to_be: self.sl_moved_to_be,
        }
    }
}

impl OpenPosition {
    /// Builds the local mirror of a freshly opened position from the plan
    /// that fired it; the internal id is drawn fresh.
    pub fn from_strategy(strategy: &ActiveStrategy, entry_price: i64, opened_at: i64) -> (r: Self)
        ensures
            r@.position_id.len() == 36,
            r@.strategy_id == strategy@.strategy_id,
            r@.symbol == strategy@.symbol,
            r@.direction == strategy@.direction,
            r@.entry_price == entry_price as int,
            r@.lot_size == strategy@.lot_size,
            r@.take_profit == strategy@.take_profit,
            r@.stop_loss == strategy@.stop_loss,
            r@.mt5_ticket is None,
            r@.opened_at == opened_at as int,
            !r@.sl_moved_to_be,
    {
        OpenPosition {
            position_id: fresh_id(),
            strategy_id: strategy.strategy_id.clone(),
            symbol: strategy.symbol.clone(),
            direction: strategy.direction,
            entry_price,
            lot_size: strategy.lot_size,
            take_profit: strategy.take_profit,
            stop_loss: strategy.stop_loss,
            mt5_ticket: None,
            opened_at,
            sl_moved_to_be: false,
        }
    }

    /// Unrealised profit estimate, in price units, from the current price.
    pub fn unrealised_pips(&self, current_price: i64) -> (r: i64)
        requires
            wf_price(current_price as int),
            wf_price(self@.entry_price),
        ensures
            self@.direction is Buy ==> r as int == current_price - self@.entry_price,
            self@.direction is Sell ==> r as int == self@.entry_price - current_price,
            self@.direction is NoTrade ==> r == 0,
    {
        match self.direction {
            Direction::Buy => current_price - self.entry_price,
            Direction::Sell => self.entry_price - current_price,
            Direction::NoTrade => 0,
        }
    }
}

/// Mathematical content of a [`TradeRecord`].
pub ghost struct RecordView {
    pub trade_id: Seq<char>,
    pub strategy_id: Seq<char>,
    pub symbol: Seq<char>,
    pub direction: Direction,
    pub entry_price: int,
    pub lot_size: int,
    pub take_profit: int,
    pub stop_loss: int,
    pub mt5_ticket: Option<u64>,
    pub status: TradeStatus,
    pub status_message: Seq<char>,
    pub fired_at: int,
    pub close_price: Option<int>,
    pub profit_pips: Option<int>,
    pub close_reason: Option<Seq<char>>,
    pub closed_at: Option<int>,
}

/// One entry of the append-only trade history; mutated at most twice after
/// creation (broker acknowledgement, close).
#[derive(Debug)]
pub struct TradeRecord {
    pub trade_id: String,
    pub strategy_id: String,
    pub symbol: String,
    pub direction: Direction,
    pub entry_price: i64,
    pub lot_size: i64,
    pub take_profit: i64,
    pub stop_loss: i64,
    /// Broker ticket number, if confirmed.
    pub mt5_ticket: Option<u64>,
    pub status: TradeStatus,
    /// Broker comment or error message.
    pub status_message: String,
    pub fired_at: i64,
    /// Filled when the broker reports the close.
    pub close_price: Option<i64>,
    pub profit_pips: Option<i64>,
    /// One of `"TP"`, `"SL"`, `"MANUAL"`.
    pub close_reason: Option<String>,
    pub closed_at: Option<i64>,
}

impl View for TradeRecord {
    type V = RecordView;

    open spec fn view(&self) -> RecordView {
        RecordView {
            trade_id: self.trade_id@,
            strategy_id: self.strategy_id@,
            symbol: self.symbol@,
            direction: self.direction,
            entry_price: self.entry_price as int,
            lot_size: self.lot_size as int,
            take_profit: self.take_profit as int,
            stop_loss: self.stop_loss as int,
            mt5_ticket: self.mt5_ticket,
            status: self.status,
            status_message: self.status_message@,
            fired_at: self.fired_at as int,
            close_price: match self.close_price {
                Some(v) => Some(v as int),
                None => None,
            },
            profit_pips: match self.profit_pips {
                Some(v) => Some(v as int),
                None => None,
            },
            close_reason: match &self.close_reason {
                Some(s) => Some(s@),
                None => None,
            },
            closed_at: match self.closed_at {
                Some(v) => Some(v as int),
                None => None,
            },
        }
    }
}

impl Clone for TradeRecord {
    fn clone(&self) -> (r: Self)
        ensures
            r@ == self@,
    {
        TradeRecord {
            trade_id: self.trade_id.clone(),
            strategy_id: self.strategy_id.clone(),
            symbol: self.symbol.clone(),
            direction: self.direction,
            entry_price: self.entry_price,
            lot_size: self.lot_size,
            take_profit: self.take_profit,
            stop_loss: self.stop_loss,
            mt5_ticket: self.mt5_ticket,
            status: self.status,
            status_message: self.status_message.clone(),
            fired_at: self.fired_at,
            close_price: self.close_price,
            profit_pips: self.profit_pips,
            close_reason: match &self.close_reason {
                Some(s) => Some(s.clone()),
                None => None,
            },
            closed_at: self.closed_at,
        }
    }
}

impl TradeRecord {
    /// Creates the initial pending record for a plan that is about to fire;
    /// the record id is drawn fresh.
    pub fn from_strategy(strategy: &ActiveStrategy, entry_price: i64, fired_at: i64) -> (r: Self)
        ensures
            r@.trade_id.len() == 36,
            r@.strategy_id == strategy@.strategy_id,
            r@.symbol == strategy@.symbol,
            r@.direction == strategy@.direction,
            r@.entry_price == entry_price as int,
            r@.lot_size == strategy@.lot_size,
            r@.take_profit == strategy@.take_profit,
            r@.stop_loss == strategy@.stop_loss,
            r@.mt5_ticket is None,
            r@.status is Pending,
            r@.status_message == "Order queued"@,
            r@.fired_at == fired_at as int,
            r@.close_price is None,
            r@.profit_pips is None,
            r@.close_reason is None,
            r@.closed_at is None,
    {
        TradeRecord {
            trade_id: fresh_id(),
            strategy_id: strategy.strategy_id.clone(),
            symbol: strategy.symbol.clone(),
            direction: strategy.direction,
            entry_price,
            lot_size: strategy.lot_size,
            take_profit: strategy.take_profit,
            stop_loss: strategy.stop_loss,
            mt5_ticket: None,
            status: TradeStatus::Pending,
            status_message: String::from_str("Order queued"),
            fired_at,
            close_price: None,
            profit_pips: None,
            close_reason: None,
            closed_at: None,
        }
    }
}

} // verus!
