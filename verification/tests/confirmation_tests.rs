use std::collections::VecDeque;

use antigravity::confirmation::{check_confirmation, ConfirmationConfig, ConfirmationResult,
    RecentTick};
use antigravity::models::{Direction, EntryZone};

fn make_zone() -> EntryZone {
    EntryZone { low: 67000, high: 67050 }
}

fn make_config() -> ConfirmationConfig {
    ConfirmationConfig {
        max_spread: 50,
        require_zone_probe: true,
        min_zone_ticks: 2,
        probe_lookback: 10,
        rsi_overbought: 70,
        rsi_oversold: 30,
    }
}

fn make_buffer(mids: &[i64]) -> VecDeque<RecentTick> {
    mids.iter().map(|&m| RecentTick::new(m - 1, m + 1)).collect()
}

#[test]
fn test_spread_too_wide() {
    let buffer = make_buffer(&[66990, 67020, 67025]);
    let result = check_confirmation(
        67020, 67080, // spread 60 > 50
        &make_zone(), Direction::Buy, &buffer, None, &make_config(),
    );
    assert_eq!(result, ConfirmationResult::Rejected { reason: "spread too wide" });
}

#[test]
fn test_no_zone_probe() {
    let buffer = make_buffer(&[67010, 67015, 67020]);
    let result = check_confirmation(
        67020, 67022,
        &make_zone(), Direction::Buy, &buffer, None, &make_config(),
    );
    assert_eq!(result, ConfirmationResult::Rejected { reason: "no zone probe detected" });
}

#[test]
fn test_confirmed_buy() {
    let buffer = make_buffer(&[66980, 66995, 67010, 67020]);
    let result = check_confirmation(
        67025, 67027,
        &make_zone(), Direction::Buy, &buffer, None, &make_config(),
    );
    assert_eq!(result, ConfirmationResult::Confirmed);
}

#[test]
fn test_confirmed_sell() {
    let buffer = make_buffer(&[67070, 67060, 67040, 67030]);
    let result = check_confirmation(
        67028, 67030,
        &make_zone(), Direction::Sell, &buffer, None, &make_config(),
    );
    assert_eq!(result, ConfirmationResult::Confirmed);
}

#[test]
fn test_insufficient_dwell() {
    let buffer = make_buffer(&[66985, 66990, 66999]);
    let result = check_confirmation(
        67005, 67007,
        &make_zone(), Direction::Buy, &buffer, None, &make_config(),
    );
    assert_eq!(result, ConfirmationResult::Rejected { reason: "insufficient zone dwell" });
}

#[test]
fn test_rsi_overbought_blocks_buy() {
    // RSI 75 >= 70 blocks the Buy.
    let buffer = make_buffer(&[66980, 66995, 67010, 67020]);
    let result = check_confirmation(
        67025, 67027,
        &make_zone(), Direction::Buy, &buffer, Some(75), &make_config(),
    );
    assert_eq!(result, ConfirmationResult::Rejected { reason: "rsi out of range" });
}

#[test]
fn test_rsi_normal_allows_buy() {
    // RSI 55 < 70 passes.
    let buffer = make_buffer(&[66980, 66995, 67010, 67020]);
    let result = check_confirmation(
        67025, 67027,
        &make_zone(), Direction::Buy, &buffer, Some(55), &make_config(),
    );
    assert_eq!(result, ConfirmationResult::Confirmed);
}

#[test]
fn spread_at_limit_passes_the_spread_gate() {
    // Spread exactly 50 is acceptable; the empty buffer then fails the
    // probe gate instead, showing the spread gate passed.
    let buffer = make_buffer(&[]);
    let result = check_confirmation(
        67000, 67050,
        &make_zone(), Direction::Buy, &buffer, None, &make_config(),
    );
    assert_eq!(result, ConfirmationResult::Rejected { reason: "no zone probe detected" });
}

#[test]
fn dwell_at_minimum_passes_one_less_fails() {
    // One in-zone buffered sample plus the current in-zone tick meets
    // min_zone_ticks = 2 exactly.
    let buffer = make_buffer(&[66990, 67010]);
    let result = check_confirmation(
        67020, 67022,
        &make_zone(), Direction::Buy, &buffer, None, &make_config(),
    );
    assert_eq!(result, ConfirmationResult::Confirmed);

    // With the current tick outside the zone the total dwell is 1 and
    // fails.
    let result = check_confirmation(
        67060, 67062,
        &make_zone(), Direction::Buy, &buffer, None, &make_config(),
    );
    assert_eq!(result, ConfirmationResult::Rejected { reason: "insufficient zone dwell" });
}

#[test]
fn rsi_one_below_overbought_passes() {
    let buffer = make_buffer(&[66980, 66995, 67010, 67020]);
    let result = check_confirmation(
        67025, 67027,
        &make_zone(), Direction::Buy, &buffer, Some(69), &make_config(),
    );
    assert_eq!(result, ConfirmationResult::Confirmed);
}

#[test]
fn rsi_at_oversold_blocks_sell() {
    let buffer = make_buffer(&[67070, 67060, 67040, 67030]);
    let blocked = check_confirmation(
        67028, 67030,
        &make_zone(), Direction::Sell, &buffer, Some(30), &make_config(),
    );
    assert_eq!(blocked, ConfirmationResult::Rejected { reason: "rsi out of range" });
    let allowed = check_confirmation(
        67028, 67030,
        &make_zone(), Direction::Sell, &buffer, Some(31), &make_config(),
    );
    assert_eq!(allowed, ConfirmationResult::Confirmed);
}

#[test]
fn zone_bounds_are_inside() {
    let zone = make_zone();
    assert!(zone.contains(67000));
    assert!(zone.contains(67050));
    assert!(!zone.contains(66999));
    assert!(!zone.contains(67051));
}

#[test]
fn confirmation_is_pure_on_identical_inputs() {
    let buffer = make_buffer(&[66980, 66995, 67010, 67020]);
    let a = check_confirmation(
        67025, 67027,
        &make_zone(), Direction::Buy, &buffer, Some(55), &make_config(),
    );
    let b = check_confirmation(
        67025, 67027,
        &make_zone(), Direction::Buy, &buffer, Some(55), &make_config(),
    );
    assert_eq!(a, b);
}
