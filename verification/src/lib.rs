//! Composable decorators over sequential-value producers: a rate limiter that
//! spaces actions at least one interval apart, a throttling wrapper that
//! spaces the values a producer yields, and a progress wrapper that renders a
//! percent-complete bar for producers whose remaining count is known.

use vstd::prelude::*;

mod clock;
mod percent;
mod producer;
mod ratelimit;

pub use crate::clock::NoPause;
pub use crate::clock::Pause;
pub use crate::percent::PercentIterator;
pub use crate::percent::RENDER_INTERVAL_NS;
pub use crate::percent::bar_cells;
pub use crate::percent::drain_percent;
pub use crate::percent::is_intermediate_render;
pub use crate::percent::digit;
pub use crate::percent::filled_cells;
pub use crate::percent::lemma_render_bounds;
pub use crate::percent::lemma_render_monotone;
pub use crate::percent::percent_tenths;
pub use crate::percent::percent_text;
pub use crate::percent::progress_line;
pub use crate::percent::render_line;
pub use crate::percent::spec_done;
pub use crate::producer::BoundedProducer;
pub use crate::producer::Producer;
pub use crate::producer::RangeProducer;
pub use crate::producer::collect_remaining;
pub use crate::producer::range_values;
pub use crate::ratelimit::RateLimit;
pub use crate::ratelimit::drain_throttled;
pub use crate::ratelimit::lemma_paced_from_zero;
pub use crate::ratelimit::paced;
pub use crate::ratelimit::RateLimitIterator;
pub use crate::ratelimit::sat_add;

verus! {

/// An extension trait for producers in general.
pub trait IteratorExt: Producer {
    /// Takes a producer and wraps it so that yields faster than one per
    /// `interval` nanoseconds first pause through `pauser`; otherwise the
    /// wrapper is transparent, and it only ever pauses when the producer
    /// yields a value.
    fn rate_limit<P: Pause>(self, interval: u128, pauser: P) -> (r: RateLimitIterator<Self, P>)
        ensures
            r.model() == self.model(),
            r.interval() == interval,
            r.deadline() == 0,
    ;
}

impl<I: Producer> IteratorExt for I {
    fn rate_limit<P: Pause>(self, interval: u128, pauser: P) -> (r: RateLimitIterator<Self, P>) {
        RateLimitIterator::new(self, interval, pauser)
    }
}

/// An extension trait for bounded producers.
pub trait ExactSizeIteratorExt: BoundedProducer {
    /// Takes a bounded producer and wraps it so that a progress bar is
    /// printed showing how much of it has been consumed.
    fn show_percent(self) -> (r: PercentIterator<Self>)
        ensures
            r.model() == self.model(),
            r.total() == self.model().len(),
            r.render_interval() == RENDER_INTERVAL_NS,
            r.lines() == Seq::<Seq<u8>>::empty(),
            !r.spec_render_failed(),
    ;
}

impl<I: BoundedProducer> ExactSizeIteratorExt for I {
    fn show_percent(self) -> (r: PercentIterator<Self>) {
        PercentIterator::new(self)
    }
}

/// Drains a producer through both decorators, the throttle inside and the
/// progress bar outside: everything the producer had comes out unchanged
/// and in order.
pub fn drain_percent_over_throttled<I: BoundedProducer, P: Pause>(
    iter: I,
    interval: u128,
    pauser: P,
) -> (r: Vec<I::Item>)
    ensures
        r@ == iter.model(),
{
    let mut wrapped = iter.rate_limit(interval, pauser).show_percent();
    collect_remaining(&mut wrapped)
}

/// Drains a producer through both decorators the other way round, the
/// progress bar inside and the throttle outside: the values and their order
/// are the same as with the other nesting, though the timing differs.
pub fn drain_throttled_over_percent<I: BoundedProducer, P: Pause>(
    iter: I,
    interval: u128,
    pauser: P,
) -> (r: Vec<I::Item>)
    ensures
        r@ == iter.model(),
{
    let mut wrapped = iter.show_percent().rate_limit(interval, pauser);
    collect_remaining(&mut wrapped)
}

} // verus!
