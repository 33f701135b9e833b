//! Per-session inbound rate limiting.
//!
//! A session admits at most `max_count` application frames per window of
//! `period_ms` milliseconds. The window advances lazily when queried; no
//! background timer is needed. Heartbeats and control frames are never
//! submitted to the limiter.
use vstd::prelude::*;

verus! {

/// Sliding-window policy: at most `max_count` admissions per `period_ms`.
#[derive(Debug, Clone, Copy, PartialEq, Eq, Structural)]
pub struct RateLimitConfig {
    /// Window length in milliseconds; must be positive.
    pub period_ms: u64,
    /// Admissions allowed inside one window.
    pub max_count: u64,
}

/// Counts admissions in the current window of one session.
#[derive(Debug, Clone, Copy, PartialEq, Eq, Structural)]
pub struct RateLimiter {
    /// The policy this limiter enforces.
    pub config: RateLimitConfig,
    /// When the current window opened, in milliseconds.
    pub window_start_ms: u64,
    /// Admissions granted in the current window.
    pub count: u64,
}

/// What one admission query does to the limiter, and whether it admits.
///
/// A query at `now_ms` first opens a fresh window if the current one has
/// elapsed, then admits exactly when the window still has room.
pub open spec fn spec_admit(l: RateLimiter, now_ms: u64) -> (RateLimiter, bool) {
    let fresh = now_ms - l.window_start_ms >= l.config.period_ms;
    let base = if fresh {
        RateLimiter { config: l.config, window_start_ms: now_ms, count: 0 }
    } else {
        l
    };
    if base.count < base.config.max_count {
        (
            RateLimiter {
                config: base.config,
                window_start_ms: base.window_start_ms,
                count: (base.count + 1) as u64,
            },
            true,
        )
    } else {
        (base, false)
    }
}

impl RateLimiter {
    /// A limiter is well formed when its window is meaningful and its count
    /// never exceeds the policy cap.
    pub open spec fn wf(&self) -> bool {
        self.config.period_ms > 0 && self.count <= self.config.max_count
    }

    /// A fresh limiter whose first window opens at `now_ms`.
    pub fn new(config: RateLimitConfig, now_ms: u64) -> (r: Self)
        requires
            config.period_ms > 0,
        ensures
            r.wf(),
            r.config == config,
            r.window_start_ms == now_ms,
            r.count == 0,
    {
        RateLimiter { config, window_start_ms: now_ms, count: 0 }
    }

    /// Ask to admit one application frame arriving at `now_ms`.
    ///
    /// Time is taken from a monotone clock, so `now_ms` never precedes the
    /// start of the current window.
    pub fn try_admit(&mut self, now_ms: u64) -> (admitted: bool)
        requires
            old(self).wf(),
            now_ms >= old(self).window_start_ms,
        ensures
            final(self).wf(),
            (*final(self), admitted) == spec_admit(*old(self), now_ms),
            final(self).config == old(self).config,
            final(self).window_start_ms >= old(self).window_start_ms,
    {
        if now_ms - self.window_start_ms >= self.config.period_ms {
            self.window_start_ms = now_ms;
            self.count = 0;
        }
        if self.count < self.config.max_count {
            self.count = self.count + 1;
            true
        } else {
            false
        }
    }
}

/// While a window lasts, an admission is granted exactly when the window
/// still has room; in particular the query at the cap is granted and the
/// one past the cap is denied, and a denial consumes nothing.
pub proof fn lemma_rate_limiter_cap(l: RateLimiter, now_ms: u64)
    requires
        l.wf(),
        now_ms >= l.window_start_ms,
        now_ms - l.window_start_ms < l.config.period_ms,
    ensures
        spec_admit(l, now_ms).1 == (l.count < l.config.max_count),
        l.count < l.config.max_count ==> spec_admit(l, now_ms).0.count == l.count + 1,
        l.count == l.config.max_count ==> spec_admit(l, now_ms).0 == l,
{
}

/// Once the window has elapsed, the next query opens a fresh window and is
/// granted whenever the policy admits anything at all.
pub proof fn lemma_rate_limiter_window_resets(l: RateLimiter, now_ms: u64)
    requires
        l.wf(),
        now_ms >= l.window_start_ms,
        now_ms - l.window_start_ms >= l.config.period_ms,
    ensures
        spec_admit(l, now_ms).1 == (l.config.max_count > 0),
        spec_admit(l, now_ms).0.window_start_ms == now_ms,
{
}

} // verus!
