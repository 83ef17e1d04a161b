use antigravity::auth::api_key_allows;
use antigravity::candle::Candle;
use antigravity::error::AppError;
use antigravity::executor::{build_order, is_mock_endpoint, mock_response, order_send_url};
use antigravity::models::{ActiveStrategy, Direction, EntryZone, OpenPosition, TickData,
    TradeRecord, TradeStatus};

const NOW: i64 = 1_700_000_000;

fn buy_plan() -> ActiveStrategy {
    ActiveStrategy {
        strategy_id: "plan-aaaa-bbbb".to_string(),
        symbol: "BTCUSD".to_string(),
        direction: Direction::Buy,
        entry_zone: EntryZone { low: 67000, high: 67050 },
        take_profit: 67200,
        stop_loss: 66950,
        opposing_zone: None,
        lot_size: 10,
        rationale: "support retest".to_string(),
        created_at: NOW,
        expires_at: None,
    }
}

#[test]
fn build_order_assembles_the_broker_payload() {
    let order = build_order("BTCUSD", Direction::Sell, 67025, 67100, 66900, 25, "sell-plan-01")
        .unwrap();
    assert_eq!(order.symbol, "BTCUSD");
    assert_eq!(order.action, "SELL");
    assert_eq!(order.price, 67025);
    assert_eq!(order.sl, 67100);
    assert_eq!(order.tp, 66900);
    assert_eq!(order.volume, 25);
    assert_eq!(order.comment, "AGV-sell-pla");
    assert_eq!(order.magic, 420001);

    // A short plan id is carried whole.
    let short = build_order("BTCUSD", Direction::Buy, 1, 0, 2, 1, "ab").unwrap();
    assert_eq!(short.comment, "AGV-ab");
}

#[test]
fn build_order_refuses_a_directionless_plan() {
    match build_order("BTCUSD", Direction::NoTrade, 67025, 66950, 67200, 10, "plan") {
        Err(AppError::BadRequest(msg)) => {
            assert_eq!(msg, "Cannot build order for NoTrade direction");
        },
        other => panic!("expected a bad request, got {other:?}"),
    }
}

#[test]
fn mock_endpoint_short_circuits() {
    assert!(is_mock_endpoint("mock"));
    assert!(!is_mock_endpoint("http://localhost:8081"));
    let reply = mock_response();
    assert_eq!(reply.retcode, 10009);
    assert_eq!(reply.order, Some(999999));
    assert_eq!(reply.comment.as_deref(), Some("Mock Order"));
    assert_eq!(order_send_url("http://localhost:8081"), "http://localhost:8081/order/send");
}

#[test]
fn error_kinds_map_to_status_and_messages() {
    let bad = AppError::BadRequest("missing field".to_string());
    assert_eq!(bad.status_code(), 400);
    assert_eq!(bad.message(), "Bad request: missing field");
    assert_eq!(bad.response_message(), "missing field");

    let missing = AppError::NotFound("no active strategy".to_string());
    assert_eq!(missing.status_code(), 404);
    assert_eq!(missing.message(), "Not found: no active strategy");

    let broker = AppError::ExecutionError("timeout".to_string());
    assert_eq!(broker.status_code(), 502);
    assert_eq!(broker.message(), "Trade execution error: timeout");
    assert_eq!(broker.response_message(), "timeout");

    let internal = AppError::Internal("lock poisoned".to_string());
    assert_eq!(internal.status_code(), 500);
    assert_eq!(internal.message(), "Internal error: lock poisoned");
    assert_eq!(internal.response_message(), "Internal error: lock poisoned");
}

#[test]
fn fresh_records_and_positions_draw_distinct_ids() {
    let plan = buy_plan();
    let a = TradeRecord::from_strategy(&plan, 67025, NOW);
    let b = TradeRecord::from_strategy(&plan, 67025, NOW);
    assert_eq!(a.trade_id.len(), 36);
    assert_eq!(b.trade_id.len(), 36);
    assert_ne!(a.trade_id, b.trade_id);
    assert_eq!(a.status, TradeStatus::Pending);
    assert_eq!(a.status_message, "Order queued");

    let p = OpenPosition::from_strategy(&plan, 67025, NOW);
    assert_eq!(p.position_id.len(), 36);
    assert_ne!(p.position_id, a.trade_id);
    assert_eq!(p.mt5_ticket, None);
    assert!(!p.sl_moved_to_be);
}

#[test]
fn unrealised_pips_follow_the_direction() {
    let plan = buy_plan();
    let long = OpenPosition::from_strategy(&plan, 67025, NOW);
    assert_eq!(long.unrealised_pips(67100), 75);
    assert_eq!(long.unrealised_pips(67000), -25);

    let mut short_plan = buy_plan();
    short_plan.direction = Direction::Sell;
    short_plan.take_profit = 66900;
    short_plan.stop_loss = 67100;
    let short = OpenPosition::from_strategy(&short_plan, 67025, NOW);
    assert_eq!(short.unrealised_pips(67000), 25);
}

#[test]
fn effective_mid_prefers_the_feed_value() {
    let mut t = TickData {
        symbol: "BTCUSD".to_string(),
        bid: 67010,
        ask: 67013,
        mid: None,
        volume: 0,
        spread: None,
        time: NOW,
        rsi_14: None,
        ma_20: None,
        ma_50: None,
    };
    assert_eq!(t.effective_mid(), 67011); // truncated average
    t.mid = Some(67012);
    assert_eq!(t.effective_mid(), 67012);
}

#[test]
fn plan_validity_follows_the_expiry() {
    let mut plan = buy_plan();
    assert!(plan.is_valid(NOW + 1_000_000));
    plan.expires_at = Some(NOW + 60);
    assert!(plan.is_valid(NOW + 59));
    assert!(!plan.is_valid(NOW + 60));
    assert!(!plan.is_valid(NOW + 61));
}

#[test]
fn api_key_guard_modes() {
    // No key configured: everything passes (development mode).
    assert!(api_key_allows("", "/api/brain/strategy", ""));
    assert!(api_key_allows("", "/api/brain/strategy", "anything"));

    // Health endpoints bypass the guard.
    assert!(api_key_allows("tr4ding-k3y", "/api/mt5/health", ""));
    assert!(api_key_allows("tr4ding-k3y", "/health", "wrong"));

    // Everything else needs the exact key.
    assert!(api_key_allows("tr4ding-k3y", "/api/mt5/tick", "tr4ding-k3y"));
    assert!(!api_key_allows("tr4ding-k3y", "/api/mt5/tick", "guess"));
    assert!(!api_key_allows("tr4ding-k3y", "/api/mt5/tick", ""));
}

#[test]
fn rejection_wick_is_a_share_of_the_range() {
    // A hammer: long lower wick, green close.
    let hammer = Candle {
        symbol: "BTCUSD".to_string(),
        start_time: NOW - NOW % 60,
        open: 67060,
        high: 67070,
        low: 67000,
        close: 67065,
        tick_count: 12,
    };
    assert!(hammer.has_rejection_wick(true, 60));
    assert!(!hammer.has_rejection_wick(true, 90));
    assert!(!hammer.has_rejection_wick(false, 60));

    // A flat candle never qualifies.
    let flat = Candle {
        symbol: "BTCUSD".to_string(),
        start_time: NOW - NOW % 60,
        open: 67000,
        high: 67000,
        low: 67000,
        close: 67000,
        tick_count: 1,
    };
    assert!(!flat.has_rejection_wick(true, 0));
}
