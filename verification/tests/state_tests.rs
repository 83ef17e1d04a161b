use antigravity::confirmation::ConfirmationConfig;
use antigravity::models::{ActiveStrategy, Direction, EntryZone, OpenPosition};
use antigravity::risk::RiskConfig;
use antigravity::state::{AppState, TICK_BUFFER_SIZE};

const NOW: i64 = 1_700_000_000;

fn fresh_state() -> AppState {
    AppState::new(
        ConfirmationConfig::default(),
        RiskConfig {
            max_trades_per_day: 10,
            max_consecutive_failures: 3,
            cooldown_secs_after_failure: 0,
        },
        NOW,
    )
}

fn buy_plan() -> ActiveStrategy {
    ActiveStrategy {
        strategy_id: "plan-aaaa-bbbb".to_string(),
        symbol: "BTCUSD".to_string(),
        direction: Direction::Buy,
        entry_zone: EntryZone { low: 67000, high: 67050 },
        take_profit: 67200,
        stop_loss: 66950,
        opposing_zone: None,
        lot_size: 10,
        rationale: "support retest".to_string(),
        created_at: NOW,
        expires_at: None,
    }
}

#[test]
fn buffer_keeps_the_newest_and_evicts_fifo() {
    let mut state = fresh_state();
    for k in 0..(TICK_BUFFER_SIZE as i64 + 1) {
        state.record_tick("BTCUSD", 67000 + k, 67002 + k, NOW);
    }
    let buffer = state.get_tick_buffer("BTCUSD");
    assert_eq!(buffer.len(), TICK_BUFFER_SIZE);
    // The oldest sample left; the second one is now at the front.
    assert_eq!(buffer.front().unwrap().mid2, 67001 + 67003);
    // The newest sample sits at the back.
    let k = TICK_BUFFER_SIZE as i64;
    assert_eq!(buffer.back().unwrap().mid2, (67000 + k) + (67002 + k));
    assert_eq!(buffer.back().unwrap().spread, 2);
}

#[test]
fn buffers_are_per_symbol() {
    let mut state = fresh_state();
    state.record_tick("BTCUSD", 67000, 67002, NOW);
    state.record_tick("EURUSD", 11000, 11002, NOW);
    assert_eq!(state.get_tick_buffer("BTCUSD").len(), 1);
    assert_eq!(state.get_tick_buffer("EURUSD").len(), 1);
    assert_eq!(state.get_tick_buffer("eurusd").len(), 0); // exact match only
    assert_eq!(state.get_tick_buffer("BTCUSD").front().unwrap().mid2, 134002);
}

#[test]
fn install_rejects_an_invalid_plan() {
    let mut state = fresh_state();
    let mut bad = buy_plan();
    bad.stop_loss = 67010; // inside the zone: not allowed for a Buy
    assert!(state.install_strategy(bad).is_err());
    assert!(state.get_strategy().is_none());

    let mut bad_lot = buy_plan();
    bad_lot.lot_size = 0;
    assert!(state.install_strategy(bad_lot).is_err());

    let mut bad_expiry = buy_plan();
    bad_expiry.expires_at = Some(NOW - 1);
    assert!(state.install_strategy(bad_expiry).is_err());
}

#[test]
fn install_replaces_and_clear_is_idempotent() {
    let mut state = fresh_state();
    assert!(state.install_strategy(buy_plan()).is_ok());
    assert!(state.get_strategy().is_some());

    let mut second = buy_plan();
    second.strategy_id = "plan-cccc-dddd".to_string();
    assert!(state.install_strategy(second).is_ok());
    assert_eq!(state.get_strategy().unwrap().strategy_id, "plan-cccc-dddd");

    state.clear_strategy();
    assert!(state.get_strategy().is_none());
    state.clear_strategy(); // clearing again changes nothing
    assert!(state.get_strategy().is_none());
}

#[test]
fn open_position_is_matched_by_exact_symbol() {
    let mut state = fresh_state();
    let plan = buy_plan();
    let position = OpenPosition::from_strategy(&plan, 67025, NOW);
    assert_eq!(position.strategy_id, plan.strategy_id);
    assert_eq!(position.position_id.len(), 36);
    state.set_open_position(Some(position));
    assert!(state.has_open_position_for("BTCUSD"));
    assert!(!state.has_open_position_for("EURUSD"));
    state.set_open_position(None);
    assert!(!state.has_open_position_for("BTCUSD"));
}

#[test]
fn candles_track_the_doubled_midpoint_by_minute() {
    let mut state = fresh_state();
    let start = (NOW / 60) * 60;
    state.record_tick("BTCUSD", 67000, 67002, NOW);
    state.record_tick("BTCUSD", 67010, 67012, NOW + 1);
    state.record_tick("BTCUSD", 66990, 66992, NOW + 2);
    let candle = state.get_latest_candle("BTCUSD").unwrap();
    assert_eq!(candle.symbol, "BTCUSD");
    assert_eq!(candle.start_time, start);
    assert_eq!(candle.open, 134002);
    assert_eq!(candle.high, 134022);
    assert_eq!(candle.low, 133982);
    assert_eq!(candle.close, 133982);
    assert_eq!(candle.tick_count, 3);

    // A tick in the next minute opens a fresh candle.
    state.record_tick("BTCUSD", 67020, 67022, start + 60);
    let rolled = state.get_latest_candle("BTCUSD").unwrap();
    assert_eq!(rolled.start_time, start + 60);
    assert_eq!(rolled.open, 134042);
    assert_eq!(rolled.tick_count, 1);
    assert!(state.get_latest_candle("EURUSD").is_none());
}
