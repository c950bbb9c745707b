//! The hardware watchdog model and the supervisor's feed cadence.
//!
//! The watchdog is a hardware timer: once started with a timeout, it
//! forces a full system reset unless it is fed again strictly within that
//! timeout, measured from the previous feed. It is the system's only
//! recovery path from a lockup. The supervisor task feeds it at a fixed
//! period set strictly below the timeout; the liveness lemma shows that
//! any feed schedule whose gaps stay below the timeout keeps the system
//! alive for the whole run.

use vstd::prelude::*;

verus! {

/// The configured hardware timeout, in milliseconds.
pub const WATCHDOG_TIMEOUT_MS: u64 = 100;

/// The supervisor's feed period, in milliseconds: a design margin of
/// about 80% of the timeout window.
pub const WATCHDOG_FEED_PERIOD_MS: u64 = 80;

/// The watchdog timer as the supervisor sees it: its timeout and the
/// monotonic time it was last fed (at start, the time it was armed).
pub struct Watchdog {
    timeout_ms: u64,
    last_feed_ms: u64,
}

impl Watchdog {
    /// A watchdog is configured with a positive timeout.
    pub open spec fn wf(self) -> bool {
        self.spec_timeout() > 0
    }

    /// The configured timeout.
    pub closed spec fn spec_timeout(self) -> u64 {
        self.timeout_ms
    }

    /// When the watchdog was last fed.
    pub closed spec fn spec_last_feed(self) -> u64 {
        self.last_feed_ms
    }

    /// Whether the hardware has forced a reset by time `now_ms`: the
    /// timeout elapsed since the last feed.
    pub open spec fn spec_expired(self, now_ms: u64) -> bool {
        now_ms - self.spec_last_feed() >= self.spec_timeout()
    }

    /// Arm the watchdog. This happens at the very start of
    /// initialization, before any operation that could block, so that
    /// initialization-time faults are caught too.
    pub fn start(now_ms: u64, timeout_ms: u64) -> (wd: Watchdog)
        requires
            timeout_ms > 0,
        ensures
            wd.wf(),
            wd.spec_timeout() == timeout_ms,
            wd.spec_last_feed() == now_ms,
            forall|t: u64| now_ms <= t < now_ms + timeout_ms ==> !wd.spec_expired(t),
    {
        Watchdog { timeout_ms, last_feed_ms: now_ms }
    }

    /// Feed the watchdog: the timeout window restarts at `now_ms`.
    pub fn feed(&mut self, now_ms: u64)
        requires
            old(self).wf(),
            now_ms >= old(self).spec_last_feed(),
        ensures
            final(self).wf(),
            final(self).spec_timeout() == old(self).spec_timeout(),
            final(self).spec_last_feed() == now_ms,
            forall|t: u64|
                now_ms <= t < now_ms + final(self).spec_timeout() ==> !final(self).spec_expired(t),
    {
        self.last_feed_ms = now_ms;
    }

    /// Whether the hardware would have reset the system by `now_ms`.
    pub fn is_expired(&self, now_ms: u64) -> (expired: bool)
        requires
            now_ms >= self.spec_last_feed(),
        ensures
            expired == self.spec_expired(now_ms),
    {
        now_ms - self.last_feed_ms >= self.timeout_ms
    }
}

/// One invocation of the supervisor task: feed the watchdog, then sleep
/// for the feed period. Returns the time of the next invocation. Because
/// the period is strictly below the timeout, the watchdog stays unexpired
/// through the whole interval up to and including the next invocation.
pub fn watchdog_step(wd: &mut Watchdog, now_ms: u64) -> (next_wake_ms: u64)
    requires
        old(wd).wf(),
        old(wd).spec_timeout() == WATCHDOG_TIMEOUT_MS,
        now_ms >= old(wd).spec_last_feed(),
        now_ms + WATCHDOG_FEED_PERIOD_MS <= u64::MAX,
    ensures
        final(wd).wf(),
        final(wd).spec_timeout() == WATCHDOG_TIMEOUT_MS,
        final(wd).spec_last_feed() == now_ms,
        next_wake_ms == now_ms + WATCHDOG_FEED_PERIOD_MS,
        forall|t: u64| now_ms <= t <= next_wake_ms ==> !final(wd).spec_expired(t),
{
    wd.feed(now_ms);
    now_ms + WATCHDOG_FEED_PERIOD_MS
}

/// A feed schedule: the times of successive feeds never move backwards
/// and consecutive feeds are strictly less than the timeout apart.
pub open spec fn spec_feed_times_ok(feeds: Seq<u64>, timeout_ms: u64) -> bool {
    forall|i: int|
        0 <= i < feeds.len() - 1 ==> #[trigger] feeds[i] <= feeds[i + 1] && feeds[i + 1] - feeds[i]
            < timeout_ms
}

/// Watchdog liveness: under any feed schedule whose gaps stay strictly
/// below the timeout, at every instant from the first feed until the
/// timeout would elapse after the last, some feed lies within the live
/// window — the watchdog never expires, so the hardware never resets.
pub proof fn lemma_watchdog_liveness(feeds: Seq<u64>, timeout_ms: u64, now_ms: u64)
    requires
        timeout_ms > 0,
        feeds.len() > 0,
        spec_feed_times_ok(feeds, timeout_ms),
        feeds[0] <= now_ms,
        now_ms < feeds[feeds.len() - 1] + timeout_ms,
    ensures
        exists|i: int|
            0 <= i < feeds.len() && feeds[i] <= now_ms && #[trigger] feeds[i] + timeout_ms
                > now_ms,
    decreases feeds.len(),
{
    let last = feeds.len() - 1;
    if feeds[last] <= now_ms {
        assert(feeds[last] + timeout_ms > now_ms);
    } else {
        let front = feeds.drop_last();
        assert(feeds[0] <= now_ms < feeds[last]);
        assert(front.len() == last);
        assert(last >= 1);
        assert(forall|i: int| 0 <= i < front.len() ==> front[i] == feeds[i]);
        assert(spec_feed_times_ok(front, timeout_ms)) by {
            assert(forall|i: int|
                0 <= i < front.len() - 1 ==> #[trigger] front[i] <= front[i + 1] && front[i + 1]
                    - front[i] < timeout_ms) by {
                assert(forall|i: int|
                    0 <= i < front.len() - 1 ==> #[trigger] feeds[i] <= feeds[i + 1] && feeds[i + 1]
                        - feeds[i] < timeout_ms);
            }
        }
        assert(feeds[last - 1] <= feeds[last] && feeds[last] - feeds[last - 1] < timeout_ms);
        assert(now_ms < front[front.len() - 1] + timeout_ms);
        lemma_watchdog_liveness(front, timeout_ms, now_ms);
        let i = choose|i: int|
            0 <= i < front.len() && front[i] <= now_ms && #[trigger] front[i] + timeout_ms > now_ms;
        assert(feeds[i] <= now_ms && feeds[i] + timeout_ms > now_ms);
    }
}

/// Withholding feeds beyond the timeout triggers a reset: at any instant
/// at or past the timeout after the last feed, the watchdog has expired.
pub proof fn lemma_watchdog_starvation(wd: Watchdog, now_ms: u64)
    requires
        wd.wf(),
        now_ms >= wd.spec_last_feed() + wd.spec_timeout(),
    ensures
        wd.spec_expired(now_ms),
{
}

/// The supervisor's design margin: its feed period is strictly below the
/// hardware timeout, so the schedule it produces is a live feed schedule.
pub proof fn lemma_feed_period_below_timeout()
    ensures
        WATCHDOG_FEED_PERIOD_MS < WATCHDOG_TIMEOUT_MS,
{
}

} // verus!
