use antigravity::confirmation::ConfirmationConfig;
use antigravity::dispatch::{complete_trigger_failure, complete_trigger_success,
    handle_position_close, prepare_trigger, CloseOutcome, PositionClosePayload, TriggerPrep};
use antigravity::error::AppError;
use antigravity::executor::{interpret_response, mock_response, Mt5OrderResponse};
use antigravity::models::{ActiveStrategy, Direction, EntryZone, TickData, TradeStatus};
use antigravity::reflex::{evaluate_tick, TradeSignal};
use antigravity::risk::RiskConfig;
use antigravity::state::AppState;

const NOW: i64 = 1_700_000_000;

fn fresh_state() -> AppState {
    AppState::new(
        ConfirmationConfig::default(),
        RiskConfig {
            max_trades_per_day: 10,
            max_consecutive_failures: 3,
            cooldown_secs_after_failure: 0,
        },
        NOW,
    )
}

fn tick(symbol: &str, bid: i64, ask: i64) -> TickData {
    TickData {
        symbol: symbol.to_string(),
        bid,
        ask,
        mid: None,
        volume: 0,
        spread: None,
        time: NOW,
        rsi_14: None,
        ma_20: None,
        ma_50: None,
    }
}

fn buy_plan() -> ActiveStrategy {
    ActiveStrategy {
        strategy_id: "plan-aaaa-bbbb".to_string(),
        symbol: "BTCUSD".to_string(),
        direction: Direction::Buy,
        entry_zone: EntryZone { low: 67000, high: 67050 },
        take_profit: 67200,
        stop_loss: 66950,
        opposing_zone: None,
        lot_size: 10,
        rationale: "support retest".to_string(),
        created_at: NOW,
        expires_at: None,
    }
}

/// Drives the state to a trigger and returns the triggering plan and tick.
fn drive_to_trigger(state: &mut AppState) -> (ActiveStrategy, TickData) {
    state.install_strategy(buy_plan()).unwrap();
    evaluate_tick(&tick("BTCUSD", 66980, 66982), state, NOW);
    let trigger_tick = tick("BTCUSD", 67025, 67027);
    match evaluate_tick(&trigger_tick, state, NOW) {
        TradeSignal::Trigger(plan) => (*plan, trigger_tick),
        TradeSignal::NoAction => panic!("expected a trigger"),
    }
}

#[test]
fn end_to_end_trigger_with_mock_broker() {
    let mut state = fresh_state();
    let (plan, trigger_tick) = drive_to_trigger(&mut state);

    let prep = prepare_trigger(&mut state, &plan, &trigger_tick, NOW);
    let (order, record) = match prep {
        TriggerPrep::Dispatch { order, record } => (order, record),
        TriggerPrep::RiskBlocked { reason } => panic!("unexpected block: {reason}"),
    };

    // The plan is consumed before any broker I/O.
    assert!(state.get_strategy().is_none());

    // The order carries the plan, at the ask.
    assert_eq!(order.symbol, "BTCUSD");
    assert_eq!(order.action, "BUY");
    assert_eq!(order.price, 67027);
    assert_eq!(order.sl, 66950);
    assert_eq!(order.tp, 67200);
    assert_eq!(order.volume, 10);
    assert!(order.comment.starts_with("AGV-"));
    assert_eq!(order.comment, "AGV-plan-aaa");
    assert_eq!(order.magic, 420001);

    // The pending record mirrors the plan.
    assert_eq!(record.status, TradeStatus::Pending);
    assert_eq!(record.status_message, "Order queued");
    assert_eq!(record.trade_id.len(), 36);

    // The sentinel broker accepts with ticket 999999.
    let response = interpret_response(mock_response()).unwrap();
    let (position, confirmed) =
        complete_trigger_success(&mut state, &plan, record, order.price, response, NOW);

    assert_eq!(position.mt5_ticket, Some(999999));
    assert_eq!(position.entry_price, 67027);
    assert_eq!(confirmed.status, TradeStatus::Confirmed);
    assert_eq!(confirmed.mt5_ticket, Some(999999));
    assert_eq!(confirmed.status_message, "Mock Order");
    assert_eq!(state.trade_history.len(), 1);
    assert_eq!(state.trade_history[0].status, TradeStatus::Confirmed);
    assert!(state.has_open_position_for("BTCUSD"));
}

#[test]
fn test_position_close_completes_the_record() {
    let mut state = fresh_state();
    let (plan, trigger_tick) = drive_to_trigger(&mut state);
    let prep = prepare_trigger(&mut state, &plan, &trigger_tick, NOW);
    let (order, record) = match prep {
        TriggerPrep::Dispatch { order, record } => (order, record),
        TriggerPrep::RiskBlocked { reason } => panic!("unexpected block: {reason}"),
    };
    let response = interpret_response(mock_response()).unwrap();
    complete_trigger_success(&mut state, &plan, record, order.price, response, NOW);

    let payload = PositionClosePayload {
        mt5_ticket: Some(999999),
        symbol: "BTCUSD".to_string(),
        close_price: 67200,
        profit_pips: 173,
        close_reason: "TP".to_string(),
    };
    let outcome = handle_position_close(&mut state, &payload, NOW + 600);
    match outcome {
        CloseOutcome::Closed { position } => assert_eq!(position.symbol, "BTCUSD"),
        CloseOutcome::NothingToClose => panic!("expected a close"),
    }
    assert!(!state.has_open_position_for("BTCUSD"));

    let record = &state.trade_history[0];
    assert_eq!(record.close_price, Some(67200));
    assert_eq!(record.profit_pips, Some(173));
    assert_eq!(record.close_reason.as_deref(), Some("TP"));
    assert_eq!(record.closed_at, Some(NOW + 600));
}

#[test]
fn close_without_a_position_is_a_soft_no_op() {
    let mut state = fresh_state();
    let payload = PositionClosePayload {
        mt5_ticket: Some(42),
        symbol: "BTCUSD".to_string(),
        close_price: 67200,
        profit_pips: 0,
        close_reason: "MANUAL".to_string(),
    };
    let outcome = handle_position_close(&mut state, &payload, NOW);
    assert!(matches!(outcome, CloseOutcome::NothingToClose));
    assert!(state.trade_history.is_empty());
}

#[test]
fn risk_block_leaves_the_plan_armed() {
    let mut state = fresh_state();
    let (plan, trigger_tick) = drive_to_trigger(&mut state);
    state.risk.kill("halt for the weekend");

    let prep = prepare_trigger(&mut state, &plan, &trigger_tick, NOW);
    match prep {
        TriggerPrep::RiskBlocked { reason } => {
            assert_eq!(reason, "Kill switch active: halt for the weekend");
        },
        TriggerPrep::Dispatch { .. } => panic!("expected a risk block"),
    }
    // The plan was not consumed.
    assert!(state.get_strategy().is_some());
    assert!(state.trade_history.is_empty());
}

#[test]
fn broker_failure_records_and_counts() {
    let mut state = fresh_state();
    let (plan, trigger_tick) = drive_to_trigger(&mut state);
    let prep = prepare_trigger(&mut state, &plan, &trigger_tick, NOW);
    let record = match prep {
        TriggerPrep::Dispatch { record, .. } => record,
        TriggerPrep::RiskBlocked { reason } => panic!("unexpected block: {reason}"),
    };

    let error = AppError::ExecutionError("MT5 unreachable: connection refused".to_string());
    let failed = complete_trigger_failure(&mut state, record, &error, NOW);

    assert_eq!(failed.status, TradeStatus::Failed);
    assert_eq!(
        failed.status_message,
        "Trade execution error: MT5 unreachable: connection refused"
    );
    assert_eq!(state.trade_history.len(), 1);
    assert_eq!(state.risk.status(NOW).consecutive_failures, 1);
    assert!(!state.has_open_position_for("BTCUSD"));
}

#[test]
fn non_success_retcode_is_an_execution_error() {
    let reply = Mt5OrderResponse {
        retcode: 10004,
        order: None,
        comment: Some("Requote".to_string()),
    };
    match interpret_response(reply) {
        Err(AppError::ExecutionError(msg)) => {
            assert_eq!(msg, "MT5 rejected: retcode=10004 comment=Requote");
        },
        other => panic!("expected an execution error, got {other:?}"),
    }

    let bare = Mt5OrderResponse { retcode: 10030, order: None, comment: None };
    match interpret_response(bare) {
        Err(AppError::ExecutionError(msg)) => {
            assert_eq!(msg, "MT5 rejected: retcode=10030 comment=unknown");
        },
        other => panic!("expected an execution error, got {other:?}"),
    }
}
