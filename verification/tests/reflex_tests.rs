use antigravity::confirmation::ConfirmationConfig;
use antigravity::models::{ActiveStrategy, Direction, EntryZone, OpenPosition, TickData};
use antigravity::reflex::{evaluate_tick, TradeSignal};
use antigravity::risk::RiskConfig;
use antigravity::state::AppState;

const NOW: i64 = 1_700_000_000;

fn fresh_state() -> AppState {
    AppState::new(
        ConfirmationConfig::default(),
        RiskConfig {
            max_trades_per_day: 10,
            max_consecutive_failures: 3,
            cooldown_secs_after_failure: 0,
        },
        NOW,
    )
}

fn tick(symbol: &str, bid: i64, ask: i64) -> TickData {
    TickData {
        symbol: symbol.to_string(),
        bid,
        ask,
        mid: None,
        volume: 0,
        spread: None,
        time: NOW,
        rsi_14: None,
        ma_20: None,
        ma_50: None,
    }
}

fn buy_plan() -> ActiveStrategy {
    ActiveStrategy {
        strategy_id: "plan-aaaa-bbbb".to_string(),
        symbol: "BTCUSD".to_string(),
        direction: Direction::Buy,
        entry_zone: EntryZone { low: 67000, high: 67050 },
        take_profit: 67200,
        stop_loss: 66950,
        opposing_zone: None,
        lot_size: 10,
        rationale: "support retest".to_string(),
        created_at: NOW,
        expires_at: None,
    }
}

#[test]
fn tick_is_buffered_even_without_a_plan() {
    let mut state = fresh_state();
    let signal = evaluate_tick(&tick("BTCUSD", 67010, 67012), &mut state, NOW);
    assert!(matches!(signal, TradeSignal::NoAction));
    let buffer = state.get_tick_buffer("BTCUSD");
    assert_eq!(buffer.len(), 1);
    assert_eq!(buffer.back().unwrap().mid2, 67010 + 67012);
    assert_eq!(state.tick_count, 1);
}

#[test]
fn tick_is_buffered_even_when_triggering() {
    let mut state = fresh_state();
    state.install_strategy(buy_plan()).unwrap();
    evaluate_tick(&tick("BTCUSD", 66980, 66982), &mut state, NOW);
    let signal = evaluate_tick(&tick("BTCUSD", 67025, 67027), &mut state, NOW);
    assert!(matches!(signal, TradeSignal::Trigger(_)));
    let buffer = state.get_tick_buffer("BTCUSD");
    assert_eq!(buffer.back().unwrap().mid2, 67025 + 67027);
}

#[test]
fn no_plan_means_no_action() {
    let mut state = fresh_state();
    for _ in 0..5 {
        let signal = evaluate_tick(&tick("BTCUSD", 67025, 67027), &mut state, NOW);
        assert!(matches!(signal, TradeSignal::NoAction));
    }
    assert_eq!(state.trade_count, 0);
}

#[test]
fn probe_then_zone_tick_triggers() {
    let mut state = fresh_state();
    state.install_strategy(buy_plan()).unwrap();

    // Below the zone: builds the probe, does not trigger.
    let first = evaluate_tick(&tick("BTCUSD", 66980, 66982), &mut state, NOW);
    assert!(matches!(first, TradeSignal::NoAction));

    // Into the zone with probe and dwell satisfied: triggers with the plan.
    let second = evaluate_tick(&tick("BTCUSD", 67025, 67027), &mut state, NOW);
    match second {
        TradeSignal::Trigger(plan) => assert_eq!(plan.strategy_id, "plan-aaaa-bbbb"),
        TradeSignal::NoAction => panic!("expected a trigger"),
    }
    assert_eq!(state.trade_count, 1);
    // Evaluation alone does not consume the plan; dispatch does.
    assert!(state.get_strategy().is_some());
}

#[test]
fn open_position_blocks_reentry() {
    let mut state = fresh_state();
    state.install_strategy(buy_plan()).unwrap();
    evaluate_tick(&tick("BTCUSD", 66980, 66982), &mut state, NOW);
    state.set_open_position(Some(OpenPosition::from_strategy(&buy_plan(), 67025, NOW)));

    // The same tick that would trigger is refused while the position is
    // open.
    let signal = evaluate_tick(&tick("BTCUSD", 67025, 67027), &mut state, NOW);
    assert!(matches!(signal, TradeSignal::NoAction));
}

#[test]
fn other_symbol_and_expired_plans_do_not_trigger() {
    let mut state = fresh_state();
    state.install_strategy(buy_plan()).unwrap();
    evaluate_tick(&tick("ETHUSD", 66980, 66982), &mut state, NOW);
    let other = evaluate_tick(&tick("ETHUSD", 67025, 67027), &mut state, NOW);
    assert!(matches!(other, TradeSignal::NoAction));

    let mut expiring = buy_plan();
    expiring.expires_at = Some(NOW + 60);
    state.install_strategy(expiring).unwrap();
    evaluate_tick(&tick("BTCUSD", 66980, 66982), &mut state, NOW);
    let late = evaluate_tick(&tick("BTCUSD", 67025, 67027), &mut state, NOW + 120);
    assert!(matches!(late, TradeSignal::NoAction));
}

#[test]
fn wide_spread_blocks_the_trigger() {
    let mut state = fresh_state();
    state.install_strategy(buy_plan()).unwrap();
    evaluate_tick(&tick("BTCUSD", 66980, 66982), &mut state, NOW);
    // Ask inside the zone but the spread of 60 exceeds the default 50.
    let signal = evaluate_tick(&tick("BTCUSD", 66990, 67050), &mut state, NOW);
    assert!(matches!(signal, TradeSignal::NoAction));
}
