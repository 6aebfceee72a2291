use std::time::Duration;
use std::time::Instant;

use progress::IteratorExt;
use progress::NoPause;
use progress::Pause;
use progress::RangeProducer;
use progress::RateLimit;
use progress::RateLimitIterator;
use progress::collect_remaining;
use progress::drain_throttled;

/// A pause that burns the clock until the asked-for span has passed, so that
/// timing behaviour can be observed without putting the thread to sleep.
struct SpinPause;

impl Pause for SpinPause {
    fn pause(&mut self, nanos: u128) {
        let start = Instant::now();
        while start.elapsed().as_nanos() < nanos {}
    }
}

/// A pause that only records what it was asked for.
struct RecordingPause {
    calls: Vec<u128>,
}

impl Pause for RecordingPause {
    fn pause(&mut self, nanos: u128) {
        self.calls.push(nanos);
    }
}

#[test]
fn act_runs_first_and_skips_the_rest() {
    let mut limiter = RateLimit::new(5_000_000_000);
    let mut total = 0;
    for i in 3..10 {
        limiter.act(|| total += i);
    }
    assert_eq!(total, 3);
}

#[test]
fn try_act_reports_skips() {
    let mut limiter = RateLimit::new(5_000_000_000);
    let mut total = 0;
    let mut skipped = 0;
    for _ in 0..10 {
        match limiter.try_act(|| 100) {
            Some(v) => total += v,
            None => skipped += 1,
        }
    }
    assert_eq!(total, 100);
    assert_eq!(skipped, 9);
}

#[test]
fn try_act_zero_interval_always_succeeds() {
    let mut limiter = RateLimit::new(0);
    let mut ran = 0;
    for _ in 0..10 {
        if limiter.try_act(|| ()).is_some() {
            ran += 1;
        }
    }
    assert_eq!(ran, 10);
}

#[test]
fn sleep_act_spaces_ten_calls() {
    let mut limiter = RateLimit::new(10_000_000);
    let mut pauser = SpinPause;
    let now = Instant::now();
    for _ in 0..10 {
        limiter.sleep_act(&mut pauser, || ());
    }
    assert!(now.elapsed() > Duration::from_millis(90));
}

#[test]
fn sleep_act_zero_interval_never_pauses() {
    let mut limiter = RateLimit::new(0);
    let mut pauser = RecordingPause { calls: Vec::new() };
    for i in 0..10 {
        let v = limiter.sleep_act(&mut pauser, || i);
        assert_eq!(v, i);
    }
    assert!(pauser.calls.is_empty());
}

#[test]
fn sleep_act_passes_the_result_through() {
    let mut limiter = RateLimit::new(1_000_000);
    let mut pauser = SpinPause;
    let first = limiter.sleep_act(&mut pauser, || String::from("ready"));
    assert_eq!(first, "ready");
    let second = limiter.sleep_act(&mut pauser, || 27u64);
    assert_eq!(second, 27);
}

#[test]
fn rate_limited_range_keeps_values_and_spacing() {
    let producer = RangeProducer::new(0, 10);
    let now = Instant::now();
    let mut wrapped = producer.rate_limit(10_000_000, SpinPause);
    let values = collect_remaining(&mut wrapped);
    assert!(now.elapsed() > Duration::from_millis(90));
    assert_eq!(values, vec![0, 1, 2, 3, 4, 5, 6, 7, 8, 9]);
}

#[test]
fn rate_limit_iterator_new_wraps_directly() {
    let mut wrapped = RateLimitIterator::new(RangeProducer::new(4, 8), 0, NoPause);
    let values = collect_remaining(&mut wrapped);
    assert_eq!(values, vec![4, 5, 6, 7]);
    assert_eq!(collect_remaining(&mut wrapped), vec![]);
}

#[test]
fn drain_throttled_returns_everything_in_order() {
    let mut wrapped = RangeProducer::new(0, 6).rate_limit(0, NoPause);
    let values = drain_throttled(&mut wrapped);
    assert_eq!(values, vec![0, 1, 2, 3, 4, 5]);
    assert_eq!(drain_throttled(&mut wrapped), vec![]);
}

#[test]
fn exhaustion_is_not_delayed() {
    let producer = RangeProducer::new(0, 0);
    let mut wrapped = RateLimitIterator::new(producer, 5_000_000_000, SpinPause);
    let now = Instant::now();
    let values = collect_remaining(&mut wrapped);
    assert!(now.elapsed() < Duration::from_secs(1));
    assert_eq!(values, vec![]);
}
