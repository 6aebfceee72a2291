//! The rate-limiting primitive: a `RateLimit` remembers when its last
//! permitted action ran and decides whether a new one may run now, or how
//! long to wait first.

use vstd::prelude::*;

use crate::clock::Pause;
use crate::clock::duration_nanos;
use crate::clock::elapsed_since;
use crate::clock::instant_now;
use crate::producer::BoundedProducer;
use crate::producer::Producer;

verus! {

/// The sum of two spans of nanoseconds, held at `u128::MAX` where the exact
/// sum would not fit.
pub open spec fn sat_add(a: nat, b: nat) -> nat {
    if a + b > u128::MAX {
        u128::MAX as nat
    } else {
        a + b
    }
}

/// The saturating sum, executably.
fn sat_add_u128(a: u128, b: u128) -> (r: u128)
    ensures
        r == sat_add(a as nat, b as nat),
{
    if a > u128::MAX - b {
        u128::MAX
    } else {
        a + b
    }
}

/// A never-faster-than-the-interval rate limiter.
///
/// Time is measured on the monotonic clock, in nanoseconds since the
/// limiter's construction. The limiter keeps the instant from which the next
/// action on is permitted; construction puts that instant at zero, so the
/// first action is always permitted at once.
pub struct RateLimit {
    epoch: std::time::Instant,
    interval_ns: u128,
    deadline_ns: u128,
}

impl RateLimit {
    /// The least number of nanoseconds between two permitted actions.
    pub closed spec fn interval(&self) -> nat {
        self.interval_ns as nat
    }

    /// The instant, in nanoseconds after construction, from which the next
    /// action on is permitted.
    pub closed spec fn deadline(&self) -> nat {
        self.deadline_ns as nat
    }

    /// Initialize a rate limiter for the specified interval, given in
    /// nanoseconds. The first action is permitted at once.
    pub fn new(interval: u128) -> (r: Self)
        ensures
            r.interval() == interval,
            r.deadline() == 0,
    {
        RateLimit { epoch: instant_now(), interval_ns: interval, deadline_ns: 0 }
    }

    /// Attempt to run an action without blocking: if the interval has passed
    /// since the last permitted action, run it and return its result;
    /// otherwise do nothing and return `None`.
    ///
    /// Whether the action runs depends on the clock, so the contract speaks
    /// of both outcomes: on `Some` the action ran once and the deadline moved
    /// to one interval past the reading `now` of the clock, which was at or
    /// past the old deadline; on `None` the limiter is unchanged. On a fresh
    /// limiter the action always runs.
    pub fn try_act<T, F: FnOnce() -> T>(&mut self, f: F) -> (r: Option<T>)
        requires
            call_requires(f, ()),
        ensures
            final(self).interval() == old(self).interval(),
            (match r {
                Some(v) => call_ensures(f, (), v) && exists|now: nat|
                    now >= old(self).deadline() && final(self).deadline() == #[trigger] sat_add(
                        now,
                        old(self).interval(),
                    ),
                None => final(self).deadline() == old(self).deadline(),
            }),
            old(self).deadline() == 0 ==> r is Some,
    {
        let d = elapsed_since(&self.epoch);
        let now = duration_nanos(&d);
        if now >= self.deadline_ns {
            self.deadline_ns = sat_add_u128(now, self.interval_ns);
            proof {
                assert(now as nat >= old(self).deadline() && self.deadline() == sat_add(
                    now as nat,
                    old(self).interval(),
                ));
            }
            Some(f())
        } else {
            None
        }
    }

    /// Attempt to run an action for its side effect alone, skipping it if it
    /// comes before the interval has passed. On a fresh limiter the action
    /// always runs.
    pub fn act<F: FnOnce() -> ()>(&mut self, f: F)
        requires
            call_requires(f, ()),
        ensures
            final(self).interval() == old(self).interval(),
            final(self).deadline() == old(self).deadline() || exists|now: nat|
                now >= old(self).deadline() && final(self).deadline() == #[trigger] sat_add(
                    now,
                    old(self).interval(),
                ),
            old(self).deadline() == 0 ==> call_ensures(f, (), ()),
    {
        let r = self.try_act(f);
        let _ = r;
    }

    /// Run the action unconditionally, first pausing until the interval has
    /// passed since the last permitted action.
    ///
    /// After the pause the deadline advances by exactly one interval, not to
    /// the clock's reading: the limiter is a drift-free accumulator, so a
    /// slow caller does not push later permitted instants back.
    pub fn sleep_act<T, F: FnOnce() -> T, P: Pause>(&mut self, pauser: &mut P, f: F) -> (r: T)
        requires
            call_requires(f, ()),
        ensures
            call_ensures(f, (), r),
            final(self).interval() == old(self).interval(),
            final(self).deadline() == sat_add(old(self).deadline(), old(self).interval()),
    {
        let d = elapsed_since(&self.epoch);
        let now = duration_nanos(&d);
        if now < self.deadline_ns {
            pauser.pause(self.deadline_ns - now);
        }
        self.deadline_ns = sat_add_u128(self.deadline_ns, self.interval_ns);
        f()
    }
}

/// Wraps a producer and pauses before each yield that comes faster than the
/// interval; otherwise it is transparent. The values come through unchanged
/// and in order, and exhaustion is signalled at once, without a pause.
pub struct RateLimitIterator<I, P> {
    iter: I,
    ratelimit: RateLimit,
    pauser: P,
}

impl<I: Producer, P: Pause> RateLimitIterator<I, P> {
    /// The least number of nanoseconds between two yields.
    pub closed spec fn interval(&self) -> nat {
        self.ratelimit.interval()
    }

    /// The instant, in nanoseconds after construction, from which the next
    /// yield on comes without a pause.
    pub closed spec fn deadline(&self) -> nat {
        self.ratelimit.deadline()
    }

    /// Directly wrap a producer and rate limit it to one yield per `interval`
    /// nanoseconds, pausing through `pauser`. The first yield is never
    /// delayed.
    pub fn new(iter: I, interval: u128, pauser: P) -> (r: Self)
        ensures
            r.model() == iter.model(),
            r.interval() == interval,
            r.deadline() == 0,
    {
        RateLimitIterator { iter, ratelimit: RateLimit::new(interval), pauser }
    }

    /// One pull: the value, if any, comes through the limiter's pause
    /// unchanged, and each yield advances the deadline by exactly one
    /// interval — consecutive yields are spaced by the interval's drift-free
    /// cadence. Exhaustion leaves the limiter untouched, so it is never
    /// delayed.
    pub fn pull(&mut self) -> (r: Option<I::Item>)
        ensures
            final(self).interval() == old(self).interval(),
            (match r {
                Some(v) => old(self).model().len() > 0 && v == old(self).model()[0]
                    && final(self).model() == old(self).model().drop_first()
                    && final(self).deadline() == sat_add(
                    old(self).deadline(),
                    old(self).interval(),
                ),
                None => old(self).model().len() == 0 && final(self).model() == old(self).model()
                    && final(self).deadline() == old(self).deadline(),
            }),
    {
        match self.iter.next() {
            Some(v) => {
                let pass = (move || -> (out: I::Item)
                    ensures
                        out == v,
                    { v });
                Some(self.ratelimit.sleep_act(&mut self.pauser, pass))
            },
            None => None,
        }
    }
}

impl<I: Producer, P: Pause> Producer for RateLimitIterator<I, P> {
    type Item = I::Item;

    closed spec fn model(&self) -> Seq<I::Item> {
        self.iter.model()
    }

    fn next(&mut self) -> (r: Option<I::Item>) {
        self.pull()
    }
}

impl<I: BoundedProducer, P: Pause> BoundedProducer for RateLimitIterator<I, P> {
    fn remaining(&self) -> (n: usize) {
        self.iter.remaining()
    }
}

/// The deadline after `n` permitted yields from `d` on, each advancing it by
/// the interval `i`: `n` saturating additions.
pub open spec fn paced(d: nat, i: nat, n: nat) -> nat
    decreases n,
{
    if n == 0 {
        d
    } else {
        sat_add(paced(d, i, (n - 1) as nat), i)
    }
}

/// From a fresh limiter, `n` yields at interval `i` put the deadline at
/// exactly `n * i` nanoseconds, saturating only past `u128::MAX`: the
/// cadence is drift-free, so consecutive permitted instants lie exactly one
/// interval apart however slow or fast the caller was.
pub proof fn lemma_paced_from_zero(i: nat, n: nat)
    ensures
        paced(0, i, n) == if n * i > u128::MAX {
            u128::MAX as nat
        } else {
            n * i
        },
    decreases n,
{
    if n > 0 {
        lemma_paced_from_zero(i, (n - 1) as nat);
        assert(((n - 1) as nat) * i == n * i - i) by (nonlinear_arith)
            requires
                n >= 1,
        ;
        let prev = paced(0, i, (n - 1) as nat);
        if n * i - i > u128::MAX {
            assert(prev == u128::MAX as nat);
            assert(n * i > u128::MAX);
            assert(sat_add(prev, i) == u128::MAX as nat);
        } else {
            assert(prev == n * i - i);
            if n * i > u128::MAX {
                assert(sat_add(prev, i) == u128::MAX as nat);
            } else {
                assert(sat_add(prev, i) == n * i);
            }
        }
    } else {
        assert(n * i == 0) by (nonlinear_arith)
            requires
                n == 0,
        ;
    }
}

/// Pulls a throttled producer to exhaustion: everything it had comes out
/// unchanged and in order, and the limiter's deadline has advanced by
/// exactly one interval per value yielded — the whole drain was paced at
/// the drift-free cadence.
pub fn drain_throttled<I: Producer, P: Pause>(w: &mut RateLimitIterator<I, P>) -> (r: Vec<
    I::Item,
>)
    ensures
        r@ == old(w).model(),
        final(w).model().len() == 0,
        final(w).interval() == old(w).interval(),
        final(w).deadline() == paced(
            old(w).deadline(),
            old(w).interval(),
            old(w).model().len(),
        ),
{
    let ghost orig = w.model();
    let ghost d0 = w.deadline();
    let ghost iv = w.interval();
    let mut out: Vec<I::Item> = Vec::new();
    loop
        invariant_except_break
            out@ + w.model() == orig,
            w.interval() == iv,
            w.deadline() == paced(d0, iv, out@.len()),
        ensures
            out@ == orig,
            w.model().len() == 0,
            w.interval() == iv,
            w.deadline() == paced(d0, iv, out@.len()),
        decreases w.model().len(),
    {
        match w.pull() {
            Some(v) => {
                out.push(v);
                proof {
                    assert(out@ + w.model() =~= orig);
                }
            },
            None => {
                proof {
                    assert(out@ + w.model() =~= out@);
                }
                break ;
            },
        }
    }
    out
}

} // verus!
