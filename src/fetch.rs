//! The timing rules that every outbound request obeys: dispatches at least a
//! second apart, and failed requests retried after doubling delays.

use vstd::prelude::*;

verus! {

/// The least time between two dispatches, in milliseconds.
pub const SPACING_MILLIS: u64 = 1000;

/// The first delay before a retry, in seconds.
pub const FIRST_BACKOFF_SECS: u64 = 1;

/// The longest delay after which a retry is still made, in seconds.
pub const MAX_BACKOFF_SECS: u64 = 60;

/// When a request that is ready at `now` is dispatched, the previous one having
/// been dispatched at `last`.
pub open spec fn next_dispatch(last: int, now: int) -> int {
    if now >= last + SPACING_MILLIS {
        now
    } else {
        last + SPACING_MILLIS
    }
}

/// The shared record of when the last request was dispatched, on a clock of
/// milliseconds.
pub struct RateLimiter {
    pub last_dispatch_millis: u64,
}

impl RateLimiter {
    /// A limiter whose last dispatch was at `now`.
    pub fn new(now: u64) -> (r: RateLimiter)
        ensures
            r.last_dispatch_millis == now,
    {
        RateLimiter { last_dispatch_millis: now }
    }

    /// Takes the turn of a request that is ready at `now`: records its dispatch
    /// time and returns how long it must wait for it, in milliseconds.
    pub fn await_turn(&mut self, now: u64) -> (wait: u64)
        requires
            old(self).last_dispatch_millis <= u64::MAX - SPACING_MILLIS,
        ensures
            final(self).last_dispatch_millis == next_dispatch(
                old(self).last_dispatch_millis as int,
                now as int,
            ),
            now + wait == final(self).last_dispatch_millis,
    {
        let earliest = self.last_dispatch_millis + SPACING_MILLIS;
        let at = if now >= earliest {
            now
        } else {
            earliest
        };
        self.last_dispatch_millis = at;
        at - now
    }
}

/// The dispatch times of requests ready at the times `nows`, one after
/// another, the last dispatch before them having been at `last`.
pub open spec fn dispatches(last: int, nows: Seq<int>) -> Seq<int>
    decreases nows.len(),
{
    if nows.len() == 0 {
        Seq::empty()
    } else {
        let prev = dispatches(last, nows.drop_last());
        let before = if prev.len() == 0 {
            last
        } else {
            prev.last()
        };
        prev.push(next_dispatch(before, nows.last()))
    }
}

/// However many requests come and whenever they are ready, each dispatch
/// follows the one before it by at least the spacing, and none comes before
/// its request is ready.
pub proof fn lemma_dispatch_spacing(last: int, nows: Seq<int>)
    ensures
        dispatches(last, nows).len() == nows.len(),
        forall|i: int|
            0 <= i < nows.len() ==> #[trigger] dispatches(last, nows)[i] >= nows[i],
        nows.len() > 0 ==> dispatches(last, nows)[0] >= last + SPACING_MILLIS,
        forall|i: int|
            0 < i < nows.len() ==> #[trigger] dispatches(last, nows)[i] >= dispatches(last, nows)[i
                - 1] + SPACING_MILLIS,
    decreases nows.len(),
{
    if nows.len() > 0 {
        lemma_dispatch_spacing(last, nows.drop_last());
        let prev = dispatches(last, nows.drop_last());
        assert forall|i: int| 0 <= i < nows.len() - 1 implies #[trigger] nows.drop_last()[i]
            == nows[i] by {}
    }
}

/// After a failure met with a delay of `delay` seconds: `Some(delay)` to sleep
/// that long and retry, `None` to give up once the delay has passed the limit.
pub open spec fn retry_after(delay: u64) -> Option<u64> {
    if delay > MAX_BACKOFF_SECS {
        None
    } else {
        Some(delay)
    }
}

/// The delay that the next failure meets: twice the last one while retrying.
pub open spec fn delay_after(delay: u64) -> u64 {
    if delay > MAX_BACKOFF_SECS {
        delay
    } else {
        (delay * 2) as u64
    }
}

/// The delay before the next retry of a failing request.
pub struct Backoff {
    pub delay_secs: u64,
}

impl Backoff {
    /// The state before a request's first attempt.
    pub fn new() -> (r: Backoff)
        ensures
            r.delay_secs == FIRST_BACKOFF_SECS,
    {
        Backoff { delay_secs: FIRST_BACKOFF_SECS }
    }

    /// Decides what follows a failed attempt: `Some(secs)` to sleep that long
    /// and try again, the delay doubling for the next time; `None` to give up
    /// once the delay has passed the limit.
    pub fn on_failure(&mut self) -> (r: Option<u64>)
        ensures
            r == retry_after(old(self).delay_secs),
            final(self).delay_secs == delay_after(old(self).delay_secs),
    {
        if self.delay_secs > MAX_BACKOFF_SECS {
            None
        } else {
            let d = self.delay_secs;
            self.delay_secs = d * 2;
            Some(d)
        }
    }
}

/// How many attempts a request makes that fails every time, the delay being
/// `delay` when its first attempt fails.
pub open spec fn attempts(delay: u64) -> nat
    decreases 2 * MAX_BACKOFF_SECS + 1 - delay,
{
    if retry_after(delay) is None || delay == 0 {
        1
    } else {
        1 + attempts(delay_after(delay))
    }
}

/// A request that fails every time is attempted seven times: the first try and
/// retries after 1, 2, 4, 8, 16 and 32 seconds; the failure that meets a delay
/// of 64 seconds ends it.
pub proof fn lemma_bounded_attempts()
    ensures
        attempts(FIRST_BACKOFF_SECS) == 7,
{
    reveal_with_fuel(attempts, 8);
}

} // verus!
