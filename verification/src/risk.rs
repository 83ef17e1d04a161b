//! The risk governor: the last gate before any order leaves the process.
//!
//! Four protections, evaluated in a fixed order by `pre_trade_check`: a kill
//! switch (manual or automatic), a cooldown after a failed execution, a
//! per-UTC-day trade cap, and an automatic kill after too many consecutive
//! failures. Approval consumes a slot of the daily budget.
//!
//! All operations take the current time as a nonnegative Unix-seconds
//! argument; the caller reads the clock.

use vstd::prelude::*;

use crate::digits::{spec_parse_u32, spec_parse_u64, spec_udec, parse_u32, parse_u64, u64_to_string};

verus! {

/// Static limits of the risk governor.
#[derive(Debug, Clone, Copy, PartialEq, Eq, Structural)]
pub struct RiskConfig {
    /// Maximum trades per UTC day; 0 means unlimited.
    pub max_trades_per_day: u32,
    /// Consecutive failures that trip the automatic kill; 0 disables it.
    pub max_consecutive_failures: u32,
    /// Seconds to wait after a failed execution before trading again.
    pub cooldown_secs_after_failure: u64,
}

/// The parsed value of a textual configuration entry, or the default when
/// the entry is absent or does not parse.
pub open spec fn spec_env_u32(v: Option<Seq<char>>, default: u32) -> u32 {
    match v {
        Some(s) => match spec_parse_u32(s) {
            Some(x) => x,
            None => default,
        },
        None => default,
    }
}

/// As [`spec_env_u32`], for 64-bit entries.
pub open spec fn spec_env_u64(v: Option<Seq<char>>, default: u64) -> u64 {
    match v {
        Some(s) => match spec_parse_u64(s) {
            Some(x) => x,
            None => default,
        },
        None => default,
    }
}

/// Ghost image of an optional borrowed string.
pub open spec fn opt_str_view(v: Option<&str>) -> Option<Seq<char>> {
    match v {
        Some(s) => Some(s@),
        None => None,
    }
}

fn env_u32(value: Option<&str>, default: u32) -> (r: u32)
    ensures
        r == spec_env_u32(opt_str_view(value), default),
{
    match value {
        Some(s) => match parse_u32(s) {
            Some(x) => x,
            None => default,
        },
        None => default,
    }
}

fn env_u64(value: Option<&str>, default: u64) -> (r: u64)
    ensures
        r == spec_env_u64(opt_str_view(value), default),
{
    match value {
        Some(s) => match parse_u64(s) {
            Some(x) => x,
            None => default,
        },
        None => default,
    }
}

impl RiskConfig {
    /// Builds the configuration from the raw environment values for the
    /// trade cap, the failure limit and the cooldown; the caller reads the
    /// variables. An absent or unparsable value falls back to the default
    /// (10 trades, 3 failures, 300 seconds).
    pub fn from_env(
        max_trades: Option<&str>,
        max_fails: Option<&str>,
        cooldown_secs: Option<&str>,
    ) -> (r: Self)
        ensures
            r.max_trades_per_day == spec_env_u32(opt_str_view(max_trades), 10),
            r.max_consecutive_failures == spec_env_u32(opt_str_view(max_fails), 3),
            r.cooldown_secs_after_failure == spec_env_u64(opt_str_view(cooldown_secs), 300),
    {
        RiskConfig {
            max_trades_per_day: env_u32(max_trades, 10),
            max_consecutive_failures: env_u32(max_fails, 3),
            cooldown_secs_after_failure: env_u64(cooldown_secs, 300),
        }
    }
}

/// The configuration echoed inside a status report.
#[derive(Debug, Clone, Copy, PartialEq, Eq, Structural)]
pub struct RiskConfigSnapshot {
    pub max_trades_per_day: u32,
    pub max_consecutive_failures: u32,
    pub cooldown_secs_after_failure: u64,
}

/// Mathematical content of a [`RiskStatus`].
pub ghost struct RiskStatusView {
    pub is_killed: bool,
    pub kill_reason: Option<Seq<char>>,
    pub trades_today: u32,
    pub consecutive_failures: u32,
    pub last_trade_at: Option<int>,
    pub in_cooldown: bool,
    pub cooldown_ends_at: Option<int>,
    pub config: RiskConfigSnapshot,
}

/// A point-in-time report of the governor, for dashboards.
#[derive(Debug, Clone)]
pub struct RiskStatus {
    pub is_killed: bool,
    pub kill_reason: Option<String>,
    pub trades_today: u32,
    pub consecutive_failures: u32,
    pub last_trade_at: Option<i64>,
    pub in_cooldown: bool,
    pub cooldown_ends_at: Option<i64>,
    pub config: RiskConfigSnapshot,
}

impl View for RiskStatus {
    type V = RiskStatusView;

    open spec fn view(&self) -> RiskStatusView {
        RiskStatusView {
            is_killed: self.is_killed,
            kill_reason: match &self.kill_reason {
                Some(s) => Some(s@),
                None => None,
            },
            trades_today: self.trades_today,
            consecutive_failures: self.consecutive_failures,
            last_trade_at: match self.last_trade_at {
                Some(t) => Some(t as int),
                None => None,
            },
            in_cooldown: self.in_cooldown,
            cooldown_ends_at: match self.cooldown_ends_at {
                Some(t) => Some(t as int),
                None => None,
            },
            config: self.config,
        }
    }
}

/// Mathematical content of a [`RiskDecision`].
pub ghost enum RiskDecisionView {
    Approved,
    Blocked(Seq<char>),
}

/// Verdict of the pre-trade check. A block is a normal answer, not an
/// error.
#[derive(Debug)]
pub enum RiskDecision {
    Approved,
    Blocked(String),
}

impl View for RiskDecision {
    type V = RiskDecisionView;

    open spec fn view(&self) -> RiskDecisionView {
        match self {
            RiskDecision::Approved => RiskDecisionView::Approved,
            RiskDecision::Blocked(s) => RiskDecisionView::Blocked(s@),
        }
    }
}

/// Mathematical content of a [`RiskManager`].
pub ghost struct RiskView {
    pub config: RiskConfig,
    pub is_killed: bool,
    pub kill_reason: Option<Seq<char>>,
    pub trades_today: u32,
    pub consecutive_failures: u32,
    pub last_failure_at: Option<int>,
    pub last_trade_at: Option<int>,
    pub daily_reset_date: int,
}

/// The UTC day number of a nonnegative Unix-seconds timestamp.
pub open spec fn day_of(ts: int) -> int {
    ts / 86400
}

impl RiskView {
    /// The governor's invariant: timestamps are nonnegative and, while a
    /// daily cap is set, the day's count never exceeds it.
    pub open spec fn wf(self) -> bool {
        &&& (self.config.max_trades_per_day > 0 ==> self.trades_today
            <= self.config.max_trades_per_day)
        &&& (self.last_failure_at matches Some(t) ==> 0 <= t)
        &&& (self.last_trade_at matches Some(t) ==> 0 <= t)
        &&& 0 <= self.daily_reset_date
    }

    /// State after the daily rollover, if `now` has entered a later UTC day.
    pub open spec fn after_daily_reset(self, now: int) -> RiskView {
        if day_of(now) > self.daily_reset_date {
            RiskView { trades_today: 0, daily_reset_date: day_of(now), ..self }
        } else {
            self
        }
    }
}

/// Message for a manual or automatic kill block.
pub open spec fn msg_kill(reason: Option<Seq<char>>) -> Seq<char> {
    "Kill switch active: "@ + match reason {
        Some(r) => r,
        None => "manual activation"@,
    }
}

/// Message for a cooldown block, carrying the seconds remaining.
pub open spec fn msg_cooldown(remaining: int) -> Seq<char> {
    "Cooldown: "@ + spec_udec(remaining) + "s remaining after last failure"@
}

/// Message for a daily-cap block, carrying count and cap.
pub open spec fn msg_daily(trades_today: int, max: int) -> Seq<char> {
    "Daily trade limit reached: "@ + spec_udec(trades_today) + "/"@ + spec_udec(max)
}

/// Message for the automatic kill, carrying the failure count.
pub open spec fn msg_auto_kill(failures: int) -> Seq<char> {
    "Auto-kill: "@ + spec_udec(failures) + " consecutive execution failures"@
}

/// The exact state transition and verdict of `pre_trade_check`.
pub open spec fn spec_pre_trade_check(s: RiskView, now: int) -> (RiskView, RiskDecisionView) {
    let s1 = s.after_daily_reset(now);
    let cooldown = s1.config.cooldown_secs_after_failure as i64 as int;
    if s1.is_killed {
        (s1, RiskDecisionView::Blocked(msg_kill(s1.kill_reason)))
    } else {
        match s1.last_failure_at {
            Some(f) => if now - f < cooldown {
                (s1, RiskDecisionView::Blocked(msg_cooldown(cooldown - (now - f))))
            } else {
                spec_pre_trade_counters(s1, now)
            },
            None => spec_pre_trade_counters(s1, now),
        }
    }
}

/// Gates three to five of the pre-trade check: daily cap, auto-kill,
/// approval.
pub open spec fn spec_pre_trade_counters(s1: RiskView, now: int) -> (RiskView, RiskDecisionView) {
    if s1.config.max_trades_per_day > 0 && s1.trades_today
        >= s1.config.max_trades_per_day {
        (
            s1,
            RiskDecisionView::Blocked(
                msg_daily(s1.trades_today as int, s1.config.max_trades_per_day as int),
            ),
        )
    } else if s1.config.max_consecutive_failures > 0 && s1.consecutive_failures
        >= s1.config.max_consecutive_failures {
        let reason = msg_auto_kill(s1.consecutive_failures as int);
        (
            RiskView { is_killed: true, kill_reason: Some(reason), ..s1 },
            RiskDecisionView::Blocked(reason),
        )
    } else {
        (
            RiskView {
                trades_today: if s1.trades_today == u32::MAX {
                    u32::MAX
                } else {
                    (s1.trades_today + 1) as u32
                },
                last_trade_at: Some(now),
                ..s1
            },
            RiskDecisionView::Approved,
        )
    }
}

/// The stateful risk governor.
#[derive(Debug)]
pub struct RiskManager {
    config: RiskConfig,
    is_killed: bool,
    kill_reason: Option<String>,
    trades_today: u32,
    consecutive_failures: u32,
    last_failure_at: Option<i64>,
    last_trade_at: Option<i64>,
    daily_reset_date: i64,
}

impl View for RiskManager {
    type V = RiskView;

    closed spec fn view(&self) -> RiskView {
        RiskView {
            config: self.config,
            is_killed: self.is_killed,
            kill_reason: match &self.kill_reason {
                Some(s) => Some(s@),
                None => None,
            },
            trades_today: self.trades_today,
            consecutive_failures: self.consecutive_failures,
            last_failure_at: match self.last_failure_at {
                Some(t) => Some(t as int),
                None => None,
            },
            last_trade_at: match self.last_trade_at {
                Some(t) => Some(t as int),
                None => None,
            },
            daily_reset_date: self.daily_reset_date as int,
        }
    }
}

fn u32_to_string(n: u32) -> (r: String)
    ensures
        r@ == spec_udec(n as int),
{
    u64_to_string(n as u64)
}

impl RiskManager {
    /// A fresh governor: nothing killed, nothing counted, today's date
    /// armed.
    pub fn new(config: RiskConfig, now: i64) -> (r: Self)
        requires
            0 <= now,
        ensures
            r@ == (RiskView {
                config,
                is_killed: false,
                kill_reason: None,
                trades_today: 0,
                consecutive_failures: 0,
                last_failure_at: None,
                last_trade_at: None,
                daily_reset_date: day_of(now as int),
            }),
            r@.wf(),
    {
        RiskManager {
            config,
            is_killed: false,
            kill_reason: None,
            trades_today: 0,
            consecutive_failures: 0,
            last_failure_at: None,
            last_trade_at: None,
            daily_reset_date: ((now as u64) / 86400) as i64,
        }
    }

    /// Evaluates the four protections in order and, on approval, consumes a
    /// slot of the daily budget. A block is a normal verdict; the daily cap
    /// is never exceeded while it is set.
    pub fn pre_trade_check(&mut self, now: i64) -> (r: RiskDecision)
        requires
            0 <= now,
            old(self)@.wf(),
        ensures
            (final(self)@, r@) == spec_pre_trade_check(old(self)@, now as int),
            final(self)@.wf(),
    {
        // Daily rollover.
        let today = ((now as u64) / 86400) as i64;
        if today > self.daily_reset_date {
            self.trades_today = 0;
            self.daily_reset_date = today;
        }

        // Protection 1: kill switch.
        if self.is_killed {
            let tail: &str = match &self.kill_reason {
                Some(r) => r.as_str(),
                None => "manual activation",
            };
            return RiskDecision::Blocked(String::from_str("Kill switch active: ").concat(tail));
        }

        // Protection 2: cooldown after a failure.
        if let Some(fail_time) = self.last_failure_at {
            let cooldown = #[verifier::truncate] (self.config.cooldown_secs_after_failure as i64);
            let elapsed: i128 = now as i128 - fail_time as i128;
            if elapsed < cooldown as i128 {
                let remaining: u64 = (cooldown as i128 - elapsed) as u64;
                return RiskDecision::Blocked(
                    String::from_str("Cooldown: ")
                        .concat(u64_to_string(remaining).as_str())
                        .concat("s remaining after last failure"),
                );
            }
        }

        // Protection 3: daily cap.
        if self.config.max_trades_per_day > 0 && self.trades_today
            >= self.config.max_trades_per_day {
            return RiskDecision::Blocked(
                String::from_str("Daily trade limit reached: ")
                    .concat(u32_to_string(self.trades_today).as_str())
                    .concat("/")
                    .concat(u32_to_string(self.config.max_trades_per_day).as_str()),
            );
        }

        // Protection 4: consecutive-failure auto-kill.
        if self.config.max_consecutive_failures > 0 && self.consecutive_failures
            >= self.config.max_consecutive_failures {
            let reason = String::from_str("Auto-kill: ")
                .concat(u32_to_string(self.consecutive_failures).as_str())
                .concat(" consecutive execution failures");
            self.is_killed = true;
            self.kill_reason = Some(reason.clone());
            return RiskDecision::Blocked(reason);
        }

        // Approved: consume a slot.
        if self.trades_today < u32::MAX {
            self.trades_today = self.trades_today + 1;
        }
        self.last_trade_at = Some(now);
        RiskDecision::Approved
    }

    /// Called when the broker confirms an order: the failure streak resets.
    pub fn record_success(&mut self)
        ensures
            final(self)@ == (RiskView { consecutive_failures: 0, ..old(self)@ }),
            old(self)@.wf() ==> final(self)@.wf(),
    {
        self.consecutive_failures = 0;
    }

    /// Called when an execution fails: the streak grows and the cooldown
    /// restarts.
    pub fn record_failure(&mut self, now: i64)
        requires
            0 <= now,
        ensures
            final(self)@ == (RiskView {
                consecutive_failures: if old(self)@.consecutive_failures == u32::MAX {
                    u32::MAX
                } else {
                    (old(self)@.consecutive_failures + 1) as u32
                },
                last_failure_at: Some(now as int),
                ..old(self)@
            }),
            old(self)@.wf() ==> final(self)@.wf(),
    {
        if self.consecutive_failures < u32::MAX {
            self.consecutive_failures = self.consecutive_failures + 1;
        }
        self.last_failure_at = Some(now);
    }

    /// Engages the kill switch with the given reason.
    pub fn kill(&mut self, reason: &str)
        ensures
            final(self)@ == (RiskView {
                is_killed: true,
                kill_reason: Some(reason@),
                ..old(self)@
            }),
            old(self)@.wf() ==> final(self)@.wf(),
    {
        self.is_killed = true;
        self.kill_reason = Some(reason.to_owned());
    }

    /// Releases the kill switch and forgets the failure streak and the
    /// cooldown.
    pub fn rearm(&mut self)
        ensures
            final(self)@ == (RiskView {
                is_killed: false,
                kill_reason: None,
                consecutive_failures: 0,
                last_failure_at: None,
                ..old(self)@
            }),
            old(self)@.wf() ==> final(self)@.wf(),
    {
        self.is_killed = false;
        self.kill_reason = None;
        self.consecutive_failures = 0;
        self.last_failure_at = None;
    }

    /// A point-in-time report. The cooldown end is the last failure plus the
    /// configured cooldown, saturated at the representable maximum, and is
    /// reported only while it lies ahead of `now`.
    pub fn status(&self, now: i64) -> (r: RiskStatus)
        ensures
            r@.is_killed == self@.is_killed,
            r@.kill_reason == self@.kill_reason,
            r@.trades_today == self@.trades_today,
            r@.consecutive_failures == self@.consecutive_failures,
            r@.last_trade_at == self@.last_trade_at,
            r@.config == (RiskConfigSnapshot {
                max_trades_per_day: self@.config.max_trades_per_day,
                max_consecutive_failures: self@.config.max_consecutive_failures,
                cooldown_secs_after_failure: self@.config.cooldown_secs_after_failure,
            }),
            r@.in_cooldown == (self@.last_failure_at matches Some(f)
                && now < f + self@.config.cooldown_secs_after_failure as i64),
            r@.in_cooldown ==> r@.cooldown_ends_at == Some(
                if f_plus_cooldown(self@) > i64::MAX as int {
                    i64::MAX as int
                } else {
                    f_plus_cooldown(self@)
                },
            ),
            !r@.in_cooldown ==> r@.cooldown_ends_at is None,
    {
        let (in_cooldown, ends_at) = match self.last_failure_at {
            Some(f) => {
                let cooldown = #[verifier::truncate] (
                self.config.cooldown_secs_after_failure as i64);
                let end: i128 = f as i128 + cooldown as i128;
                if (now as i128) < end {
                    let end_sat: i64 = if end > i64::MAX as i128 {
                        i64::MAX
                    } else {
                        end as i64
                    };
                    (true, Some(end_sat))
                } else {
                    (false, None)
                }
            },
            None => (false, None),
        };
        RiskStatus {
            is_killed: self.is_killed,
            kill_reason: match &self.kill_reason {
                Some(s) => Some(s.clone()),
                None => None,
            },
            trades_today: self.trades_today,
            consecutive_failures: self.consecutive_failures,
            last_trade_at: self.last_trade_at,
            in_cooldown,
            cooldown_ends_at: ends_at,
            config: RiskConfigSnapshot {
                max_trades_per_day: self.config.max_trades_per_day,
                max_consecutive_failures: self.config.max_consecutive_failures,
                cooldown_secs_after_failure: self.config.cooldown_secs_after_failure,
            },
        }
    }
}

/// The moment a cooldown ends: last failure plus the configured cooldown,
/// the latter read as a signed offset.
pub open spec fn f_plus_cooldown(s: RiskView) -> int {
    (match s.last_failure_at {
        Some(f) => f,
        None => 0,
    }) + s.config.cooldown_secs_after_failure as i64 as int
}

} // verus!
