//! Events fanned out to monitor subscribers on every state change.
//!
//! The library produces the events; the surrounding process serialises them
//! and owns the broadcast channel.

use vstd::prelude::*;

use crate::models::{ActiveStrategy, OpenPosition, PositionView, RecordView, StrategyView,
    TradeRecord};

verus! {

/// Mathematical content of a [`WsEvent`].
pub ghost enum WsEventView {
    StrategyUpdated { strategy: StrategyView },
    StrategyCleared,
    TradeFiring { record: RecordView },
    PositionOpened { position: PositionView },
    TradeFailed { record: RecordView },
    PositionClosed {
        position_id: Seq<char>,
        symbol: Seq<char>,
        direction: Seq<char>,
        close_price: int,
        profit_pips: int,
        close_reason: Seq<char>,
    },
    RiskKilled { reason: Seq<char> },
    ServerStats { tick_count: u64, trade_count: u64, has_position: bool, has_strategy: bool },
}

/// Everything a monitor subscriber can be told.
#[derive(Debug)]
pub enum WsEvent {
    /// A new plan was installed — the reflex path is armed.
    StrategyUpdated { strategy: Box<ActiveStrategy> },
    /// The plan was cleared — the reflex path is disarmed.
    StrategyCleared,
    /// A trigger fired and the order is about to be posted.
    TradeFiring { record: Box<TradeRecord> },
    /// The broker confirmed the order; a position is open.
    PositionOpened { position: Box<OpenPosition> },
    /// The broker rejected the order or was unreachable.
    TradeFailed { record: Box<TradeRecord> },
    /// The broker closed the position (take profit, stop loss or manual).
    PositionClosed {
        position_id: String,
        symbol: String,
        direction: String,
        close_price: i64,
        profit_pips: i64,
        close_reason: String,
    },
    /// The kill switch engaged, manually or automatically.
    RiskKilled { reason: String },
    /// Periodic server statistics, keeping dashboards alive.
    ServerStats { tick_count: u64, trade_count: u64, has_position: bool, has_strategy: bool },
}

impl View for WsEvent {
    type V = WsEventView;

    open spec fn view(&self) -> WsEventView {
        match self {
            WsEvent::StrategyUpdated { strategy } => WsEventView::StrategyUpdated {
                strategy: strategy@,
            },
            WsEvent::StrategyCleared => WsEventView::StrategyCleared,
            WsEvent::TradeFiring { record } => WsEventView::TradeFiring { record: record@ },
            WsEvent::PositionOpened { position } => WsEventView::PositionOpened {
                position: position@,
            },
            WsEvent::TradeFailed { record } => WsEventView::TradeFailed { record: record@ },
            WsEvent::PositionClosed {
                position_id,
                symbol,
                direction,
                close_price,
                profit_pips,
                close_reason,
            } => WsEventView::PositionClosed {
                position_id: position_id@,
                symbol: symbol@,
                direction: direction@,
                close_price: *close_price as int,
                profit_pips: *profit_pips as int,
                close_reason: close_reason@,
            },
            WsEvent::RiskKilled { reason } => WsEventView::RiskKilled { reason: reason@ },
            WsEvent::ServerStats { tick_count, trade_count, has_position, has_strategy } =>
                WsEventView::ServerStats {
                tick_count: *tick_count,
                trade_count: *trade_count,
                has_position: *has_position,
                has_strategy: *has_strategy,
            },
        }
    }
}

} // verus!
