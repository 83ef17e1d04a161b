//! The confirmation engine: the pure decision that guards every trigger.
//!
//! Being inside the entry zone is not enough to fire. Four gates run in a
//! fixed order and the first failing gate names itself: a spread gate (wide
//! spreads mean news or thin books), a zone-probe gate (price must have
//! demonstrably tested the far side of the zone and come back), a zone-dwell
//! gate (price must have stayed in the zone for several consecutive samples,
//! rejecting wicks), and an RSI gate (skipped when the feed sends no RSI).
//!
//! Buffered samples keep the midpoint doubled (`bid + ask`) so half-unit
//! midpoints stay exact in integer arithmetic; all zone comparisons double
//! the bound instead of halving the midpoint.

use vstd::prelude::*;

use crate::models::{Direction, EntryZone};
use crate::str_eq;

verus! {

/// Configuration of the confirmation engine.
#[derive(Debug, Clone, Copy, PartialEq, Eq, Structural)]
pub struct ConfirmationConfig {
    /// Widest acceptable spread, in price units.
    pub max_spread: i64,
    /// Whether a zone probe is required before entry.
    pub require_zone_probe: bool,
    /// Minimum consecutive in-zone samples (current tick included).
    pub min_zone_ticks: usize,
    /// How many most-recent samples to search for a probe.
    pub probe_lookback: usize,
    /// RSI level treated as overbought (blocks Buy at or above).
    pub rsi_overbought: i64,
    /// RSI level treated as oversold (blocks Sell at or below).
    pub rsi_oversold: i64,
}

/// The stock configuration: spread up to 50, probe required, two in-zone
/// ticks, fifteen samples of lookback, RSI bands at 70/30.
pub open spec fn spec_default_config() -> ConfirmationConfig {
    ConfirmationConfig {
        max_spread: 50,
        require_zone_probe: true,
        min_zone_ticks: 2,
        probe_lookback: 15,
        rsi_overbought: 70,
        rsi_oversold: 30,
    }
}

impl Default for ConfirmationConfig {
    fn default() -> (r: Self)
        ensures
            r == spec_default_config(),
    {
        ConfirmationConfig {
            max_spread: 50,
            require_zone_probe: true,
            min_zone_ticks: 2,
            probe_lookback: 15,
            rsi_overbought: 70,
            rsi_oversold: 30,
        }
    }
}

/// A buffered market sample, reduced to what the gates read.
#[derive(Debug, Clone, Copy, PartialEq, Eq, Structural)]
pub struct RecentTick {
    /// Twice the midpoint, i.e. `bid + ask`; doubled so half-unit midpoints
    /// stay exact.
    pub mid2: i64,
    /// The spread, `ask - bid`.
    pub spread: i64,
}

impl RecentTick {
    /// Reduces a quote to its buffered form.
    pub fn new(bid: i64, ask: i64) -> (r: Self)
        requires
            crate::wf_price(bid as int),
            crate::wf_price(ask as int),
        ensures
            r.mid2 == bid + ask,
            r.spread == ask - bid,
    {
        RecentTick { mid2: bid + ask, spread: ask - bid }
    }
}

/// Whether a doubled midpoint lies below the zone.
pub open spec fn mid2_below(zone: EntryZone, mid2: int) -> bool {
    mid2 < 2 * zone.low
}

/// Whether a doubled midpoint lies above the zone.
pub open spec fn mid2_above(zone: EntryZone, mid2: int) -> bool {
    mid2 > 2 * zone.high
}

/// Whether a doubled midpoint lies inside the closed zone.
pub open spec fn mid2_in_zone(zone: EntryZone, mid2: int) -> bool {
    2 * zone.low <= mid2 <= 2 * zone.high
}

/// Whether one buffered sample counts as a probe for the given direction:
/// below the zone for a Buy, above it for a Sell.
pub open spec fn probe_hit(zone: EntryZone, dir: Direction, t: RecentTick) -> bool {
    match dir {
        Direction::Buy => mid2_below(zone, t.mid2 as int),
        Direction::Sell => mid2_above(zone, t.mid2 as int),
        Direction::NoTrade => false,
    }
}

/// Whether any of the up-to-`lookback` most recent samples is a probe.
pub open spec fn spec_probe_found(
    buf: Seq<RecentTick>,
    zone: EntryZone,
    dir: Direction,
    lookback: int,
) -> bool {
    let start = if buf.len() <= lookback {
        0
    } else {
        buf.len() - lookback
    };
    exists|i: int| start <= i < buf.len() && probe_hit(zone, dir, #[trigger] buf[i])
}

/// Number of consecutive most-recent samples whose midpoint lies inside the
/// zone.
pub open spec fn spec_dwell(buf: Seq<RecentTick>, zone: EntryZone) -> int
    decreases buf.len(),
{
    if buf.len() == 0 {
        0
    } else if mid2_in_zone(zone, buf.last().mid2 as int) {
        1 + spec_dwell(buf.drop_last(), zone)
    } else {
        0
    }
}

/// Dwell including the current (not yet buffered) midpoint.
pub open spec fn spec_total_dwell(buf: Seq<RecentTick>, zone: EntryZone, cur_mid2: int) -> int {
    spec_dwell(buf, zone) + if mid2_in_zone(zone, cur_mid2) {
        1int
    } else {
        0int
    }
}

/// Whether the RSI filter blocks the trade: overbought blocks a Buy,
/// oversold blocks a Sell.
pub open spec fn spec_rsi_blocked(dir: Direction, rsi: int, cfg: ConfirmationConfig) -> bool {
    match dir {
        Direction::Buy => rsi >= cfg.rsi_overbought,
        Direction::Sell => rsi <= cfg.rsi_oversold,
        Direction::NoTrade => false,
    }
}

/// Mathematical content of a [`ConfirmationResult`].
pub ghost enum ConfirmationView {
    Confirmed,
    Rejected { reason: Seq<char> },
}

/// The verdict for the full gate sequence on the given inputs.
pub open spec fn spec_check_confirmation(
    bid: int,
    ask: int,
    zone: EntryZone,
    dir: Direction,
    buf: Seq<RecentTick>,
    rsi: Option<int>,
    cfg: ConfirmationConfig,
) -> ConfirmationView {
    if ask - bid > cfg.max_spread {
        ConfirmationView::Rejected { reason: "spread too wide"@ }
    } else if cfg.require_zone_probe && !spec_probe_found(
        buf,
        zone,
        dir,
        cfg.probe_lookback as int,
    ) {
        ConfirmationView::Rejected { reason: "no zone probe detected"@ }
    } else if spec_total_dwell(buf, zone, bid + ask) < cfg.min_zone_ticks as int {
        ConfirmationView::Rejected { reason: "insufficient zone dwell"@ }
    } else if rsi matches Some(v) && spec_rsi_blocked(dir, v, cfg) {
        ConfirmationView::Rejected { reason: "rsi out of range"@ }
    } else {
        ConfirmationView::Confirmed
    }
}

/// Outcome of the confirmation engine.
#[derive(Debug)]
pub enum ConfirmationResult {
    /// Every gate passed — the trigger may fire.
    Confirmed,
    /// A gate failed; the reason names it, from a closed set of strings.
    Rejected { reason: &'static str },
}

impl View for ConfirmationResult {
    type V = ConfirmationView;

    open spec fn view(&self) -> ConfirmationView {
        match self {
            ConfirmationResult::Confirmed => ConfirmationView::Confirmed,
            ConfirmationResult::Rejected { reason } => ConfirmationView::Rejected {
                reason: reason@,
            },
        }
    }
}

impl PartialEq for ConfirmationResult {
    fn eq(&self, other: &Self) -> (r: bool) {
        match (self, other) {
            (ConfirmationResult::Confirmed, ConfirmationResult::Confirmed) => true,
            (
                ConfirmationResult::Rejected { reason: a },
                ConfirmationResult::Rejected { reason: b },
            ) => str_eq(a, b),
            _ => false,
        }
    }
}

impl vstd::std_specs::cmp::PartialEqSpecImpl for ConfirmationResult {
    open spec fn obeys_eq_spec() -> bool {
        true
    }

    open spec fn eq_spec(&self, other: &Self) -> bool {
        self@ == other@
    }
}

/// Runs the four gates in order — spread, zone probe, zone dwell, RSI — and
/// returns the verdict of the first that fails, or `Confirmed`.
///
/// The buffer holds the most recent sample last. The caller rules out
/// `NoTrade` upstream.
pub fn check_confirmation(
    current_bid: i64,
    current_ask: i64,
    zone: &EntryZone,
    dir: Direction,
    buffer: &std::collections::VecDeque<RecentTick>,
    rsi: Option<i64>,
    config: &ConfirmationConfig,
) -> (r: ConfirmationResult)
    requires
        crate::wf_price(current_bid as int),
        crate::wf_price(current_ask as int),
        zone.wf(),
        !(dir is NoTrade),
        buffer@.len() < usize::MAX,
    ensures
        r@ == spec_check_confirmation(
            current_bid as int,
            current_ask as int,
            *zone,
            dir,
            buffer@,
            match rsi {
                Some(v) => Some(v as int),
                None => None,
            },
            *config,
        ),
{
    let spread = current_ask - current_bid;
    let mid2 = current_bid + current_ask;

    // Gate 1: spread.
    if spread > config.max_spread {
        return ConfirmationResult::Rejected { reason: "spread too wide" };
    }

    // Gate 2: zone probe, unless configured off.
    if config.require_zone_probe {
        let len = buffer.len();
        let lookback = if len < config.probe_lookback {
            len
        } else {
            config.probe_lookback
        };
        let mut found = false;
        let mut k: usize = 0;
        while k < lookback
            invariant
                k <= lookback <= len,
                len == buffer@.len(),
                zone.wf(),
                found == exists|i: int|
                    len - k <= i < len && probe_hit(*zone, dir, #[trigger] buffer@[i]),
            decreases lookback - k,
        {
            let t = buffer[len - 1 - k];
            let hit = match dir {
                Direction::Buy => t.mid2 < 2 * zone.low,
                Direction::Sell => t.mid2 > 2 * zone.high,
                Direction::NoTrade => false,
            };
            proof {
                if hit {
                    assert(probe_hit(*zone, dir, buffer@[len - 1 - k]));
                }
            }
            if hit {
                found = true;
            }
            k = k + 1;
        }
        if !found {
            return ConfirmationResult::Rejected { reason: "no zone probe detected" };
        }
    }

    // Gate 3: zone dwell.
    let len = buffer.len();
    let mut i = len;
    let mut dwell: usize = 0;
    proof {
        assert(buffer@.take(len as int) =~= buffer@);
    }
    while i > 0
        invariant
            0 <= i <= len,
            len == buffer@.len(),
            zone.wf(),
            dwell == len - i,
            spec_dwell(buffer@, *zone) == dwell + spec_dwell(buffer@.take(i as int), *zone),
        ensures
            dwell == spec_dwell(buffer@, *zone),
        decreases i,
    {
        let t = buffer[i - 1];
        proof {
            assert(buffer@.take(i as int).last() == buffer@[i - 1]);
        }
        if !(2 * zone.low <= t.mid2 && t.mid2 <= 2 * zone.high) {
            break;
        }
        proof {
            assert(buffer@.take(i as int).drop_last() =~= buffer@.take(i - 1));
        }
        i = i - 1;
        dwell = dwell + 1;
    }
    let cur_in_zone = 2 * zone.low <= mid2 && mid2 <= 2 * zone.high;
    let total_dwell = if cur_in_zone {
        dwell + 1
    } else {
        dwell
    };
    if total_dwell < config.min_zone_ticks {
        return ConfirmationResult::Rejected { reason: "insufficient zone dwell" };
    }

    // Gate 4: RSI, skipped when the feed sends none.
    if let Some(rsi_val) = rsi {
        let blocked = match dir {
            Direction::Buy => rsi_val >= config.rsi_overbought,
            Direction::Sell => rsi_val <= config.rsi_oversold,
            Direction::NoTrade => false,
        };
        if blocked {
            return ConfirmationResult::Rejected { reason: "rsi out of range" };
        }
    }

    ConfirmationResult::Confirmed
}

} // verus!
