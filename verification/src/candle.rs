//! Minute candles built from ticks, for price-action analysis such as
//! rejection-wick detection.
//!
//! Prices are integers in the caller's unit. The tick path feeds candles the
//! doubled midpoint (`bid + ask`), which keeps half-unit midpoints exact;
//! the wick test compares ratios, which the doubling does not change.

use vstd::prelude::*;

verus! {

/// Mathematical content of a [`Candle`].
pub ghost struct CandleView {
    pub symbol: Seq<char>,
    pub start_time: int,
    pub open: int,
    pub high: int,
    pub low: int,
    pub close: int,
    pub tick_count: u32,
}

/// One candle under construction.
#[derive(Debug)]
pub struct Candle {
    pub symbol: String,
    /// Start of the candle's minute (Unix seconds, seconds zeroed).
    pub start_time: i64,
    pub open: i64,
    pub high: i64,
    pub low: i64,
    pub close: i64,
    pub tick_count: u32,
}

impl View for Candle {
    type V = CandleView;

    open spec fn view(&self) -> CandleView {
        CandleView {
            symbol: self.symbol@,
            start_time: self.start_time as int,
            open: self.open as int,
            high: self.high as int,
            low: self.low as int,
            close: self.close as int,
            tick_count: self.tick_count,
        }
    }
}

impl Clone for Candle {
    fn clone(&self) -> (r: Self)
        ensures
            r@ == self@,
    {
        Candle {
            symbol: self.symbol.clone(),
            start_time: self.start_time,
            open: self.open,
            high: self.high,
            low: self.low,
            close: self.close,
            tick_count: self.tick_count,
        }
    }
}

/// The candle one price opens at a given time.
pub open spec fn spec_candle_new(symbol: Seq<char>, time: int, price: int) -> CandleView {
    CandleView {
        symbol,
        start_time: time - time % 60,
        open: price,
        high: price,
        low: price,
        close: price,
        tick_count: 1,
    }
}

/// A candle after absorbing one more price.
pub open spec fn spec_candle_update(c: CandleView, price: int) -> CandleView {
    CandleView {
        high: if price > c.high {
            price
        } else {
            c.high
        },
        low: if price < c.low {
            price
        } else {
            c.low
        },
        close: price,
        tick_count: if c.tick_count == u32::MAX {
            u32::MAX
        } else {
            (c.tick_count + 1) as u32
        },
        ..c
    }
}

impl Candle {
    /// Opens a candle at the start of `time`'s minute.
    pub fn new(symbol: &str, time: i64, price: i64) -> (r: Self)
        requires
            0 <= time,
        ensures
            r@ == spec_candle_new(symbol@, time as int, price as int),
    {
        let start_time = ((time as u64 / 60) * 60) as i64;
        Candle {
            symbol: symbol.to_owned(),
            start_time,
            open: price,
            high: price,
            low: price,
            close: price,
            tick_count: 1,
        }
    }

    /// Absorbs one more price into the candle: the extremes widen, the close
    /// follows, the tick count grows (saturating).
    pub fn update(&mut self, price: i64)
        ensures
            final(self)@ == spec_candle_update(old(self)@, price as int),
    {
        if price > self.high {
            self.high = price;
        }
        if price < self.low {
            self.low = price;
        }
        self.close = price;
        if self.tick_count < u32::MAX {
            self.tick_count = self.tick_count + 1;
        }
    }
}

/// Whether a candle shows a rejection wick: the wick on the watched side
/// spans at least `min_wick_pct` percent of the candle's range, and the body
/// closed in the confirming direction. A flat candle never qualifies.
pub open spec fn spec_has_rejection_wick(c: CandleView, is_buy_signal: bool, min_wick_pct: int)
    -> bool {
    let total_range = c.high - c.low;
    if total_range == 0 {
        false
    } else {
        let body_top = if c.open > c.close {
            c.open
        } else {
            c.close
        };
        let body_bottom = if c.open < c.close {
            c.open
        } else {
            c.close
        };
        if is_buy_signal {
            (body_bottom - c.low) * 100 >= min_wick_pct * total_range && c.close >= c.open
        } else {
            (c.high - body_top) * 100 >= min_wick_pct * total_range && c.close <= c.open
        }
    }
}

impl Candle {
    /// Tests for a rejection wick; `min_wick_pct` is the required wick share
    /// of the whole range, in percent.
    pub fn has_rejection_wick(&self, is_buy_signal: bool, min_wick_pct: i64) -> (r: bool)
        requires
            0 <= min_wick_pct <= 100,
        ensures
            r == spec_has_rejection_wick(self@, is_buy_signal, min_wick_pct as int),
    {
        let high = self.high as i128;
        let low = self.low as i128;
        let open = self.open as i128;
        let close = self.close as i128;
        let total_range = high - low;
        if total_range == 0 {
            return false;
        }
        let pct = min_wick_pct as i128;
        proof {
            assert(-0x1000000000000000000000i128 <= pct * total_range
                <= 0x1000000000000000000000i128) by (nonlinear_arith)
                requires
                    0 <= pct <= 100,
                    -0x20000000000000000i128 <= total_range <= 0x20000000000000000i128,
            ;
        }
        let body_top = if open > close {
            open
        } else {
            close
        };
        let body_bottom = if open < close {
            open
        } else {
            close
        };
        if is_buy_signal {
            (body_bottom - low) * 100 >= pct * total_range && close >= open
        } else {
            (high - body_top) * 100 >= pct * total_range && close <= open
        }
    }
}

} // verus!
