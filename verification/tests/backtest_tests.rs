use antigravity::backtest::{simulate, BacktestRequest, ConfirmationOverride, TradeOutcome};
use antigravity::confirmation::ConfirmationConfig;
use antigravity::models::{ActiveStrategy, Direction, EntryZone, TickData};
use antigravity::reflex::{evaluate_tick, TradeSignal};
use antigravity::risk::RiskConfig;
use antigravity::state::AppState;

const NOW: i64 = 1_700_000_000;

fn tick(symbol: &str, bid: i64, ask: i64) -> TickData {
    TickData {
        symbol: symbol.to_string(),
        bid,
        ask,
        mid: None,
        volume: 0,
        spread: None,
        time: NOW,
        rsi_14: None,
        ma_20: None,
        ma_50: None,
    }
}

fn buy_plan() -> ActiveStrategy {
    ActiveStrategy {
        strategy_id: "plan-aaaa-bbbb".to_string(),
        symbol: "BTCUSD".to_string(),
        direction: Direction::Buy,
        entry_zone: EntryZone { low: 67000, high: 67050 },
        take_profit: 67200,
        stop_loss: 66950,
        opposing_zone: None,
        lot_size: 10,
        rationale: "support retest".to_string(),
        created_at: NOW,
        expires_at: None,
    }
}

#[test]
fn replay_enters_and_takes_profit() {
    let req = BacktestRequest {
        ticks: vec![
            tick("BTCUSD", 66980, 66982), // probe below the zone
            tick("BTCUSD", 67025, 67027), // confirmed entry at the ask
            tick("BTCUSD", 67210, 67212), // bid crosses the take profit
        ],
        strategy: buy_plan(),
        confirmation: None,
    };
    let result = simulate(&req, ConfirmationConfig::default(), NOW);

    assert_eq!(result.total_ticks, 3);
    assert_eq!(result.total_trades, 1);
    assert_eq!(result.trades[0].entry_price, 67027);
    assert_eq!(result.trades[0].direction, "BUY");
    assert_eq!(result.trades[0].tick_index, 1);
    assert_eq!(result.trades[0].outcome, TradeOutcome::TpHit);
    // Realised movement: take profit minus entry, 67200 - 67027.
    assert_eq!(result.trades[0].pips, 173);
    assert_eq!(result.total_pips, 173);
    assert_eq!(result.win_rate_pct, 100);
    assert_eq!(result.max_drawdown, 0);
    assert_eq!(result.rejection_log.outside_zone, 1); // the probe tick
}

#[test]
fn replay_counts_rejections_by_reason() {
    let req = BacktestRequest {
        ticks: vec![
            tick("BTCUSD", 66980, 66982), // outside the zone (probe)
            tick("BTCUSD", 66985, 67040), // in zone but spread 55 too wide
            tick("BTCUSD", 67060, 67062), // outside again
        ],
        strategy: buy_plan(),
        confirmation: None,
    };
    let result = simulate(&req, ConfirmationConfig::default(), NOW);
    assert_eq!(result.total_trades, 0);
    assert_eq!(result.rejection_log.spread_too_wide, 1);
    assert_eq!(result.rejection_log.outside_zone, 2);
    assert_eq!(result.win_rate_pct, 0);
}

#[test]
fn replay_stop_loss_draws_down() {
    let req = BacktestRequest {
        ticks: vec![
            tick("BTCUSD", 66980, 66982), // probe
            tick("BTCUSD", 67025, 67027), // entry
            tick("BTCUSD", 66940, 66942), // bid crosses the stop loss
        ],
        strategy: buy_plan(),
        confirmation: None,
    };
    let result = simulate(&req, ConfirmationConfig::default(), NOW);
    assert_eq!(result.total_trades, 1);
    assert_eq!(result.trades[0].outcome, TradeOutcome::SlHit);
    // Realised movement: stop loss minus entry, 66950 - 67027.
    assert_eq!(result.trades[0].pips, -77);
    assert_eq!(result.total_pips, -77);
    assert_eq!(result.win_rate_pct, 0);
    assert_eq!(result.max_drawdown, 77);
}

#[test]
fn overrides_replace_only_what_they_name() {
    // The probe requirement is switched off, so probe rejections cannot
    // occur; the raised dwell minimum still rejects both in-zone ticks.
    let req = BacktestRequest {
        ticks: vec![
            tick("BTCUSD", 67025, 67027),
            tick("BTCUSD", 67030, 67032),
        ],
        strategy: buy_plan(),
        confirmation: Some(ConfirmationOverride {
            max_spread: None,
            require_zone_probe: Some(false),
            min_zone_ticks: Some(4),
            probe_lookback: None,
        }),
    };
    let result = simulate(&req, ConfirmationConfig::default(), NOW);
    // Dwell never reaches four within two ticks.
    assert_eq!(result.total_trades, 0);
    assert_eq!(result.rejection_log.insufficient_dwell, 2);
    assert_eq!(result.rejection_log.no_zone_probe, 0);
}

#[test]
fn live_and_backtest_agree_on_the_gate() {
    let ticks = vec![
        tick("BTCUSD", 66980, 66982),
        tick("BTCUSD", 67025, 67027),
    ];
    let req = BacktestRequest {
        ticks: vec![
            tick("BTCUSD", 66980, 66982),
            tick("BTCUSD", 67025, 67027),
        ],
        strategy: buy_plan(),
        confirmation: None,
    };
    let result = simulate(&req, ConfirmationConfig::default(), NOW);
    assert_eq!(result.total_trades, 1);
    assert_eq!(result.trades[0].tick_index, 1);

    // The live path triggers on the same tick of the same sequence.
    let mut state = AppState::new(
        ConfirmationConfig::default(),
        RiskConfig {
            max_trades_per_day: 10,
            max_consecutive_failures: 3,
            cooldown_secs_after_failure: 0,
        },
        NOW,
    );
    state.install_strategy(buy_plan()).unwrap();
    assert!(matches!(evaluate_tick(&ticks[0], &mut state, NOW), TradeSignal::NoAction));
    assert!(matches!(evaluate_tick(&ticks[1], &mut state, NOW), TradeSignal::Trigger(_)));
}
