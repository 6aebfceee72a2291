use progress::BoundedProducer;
use progress::ExactSizeIteratorExt;
use progress::IteratorExt;
use progress::NoPause;
use progress::PercentIterator;
use progress::RangeProducer;
use progress::collect_remaining;
use progress::drain_percent;
use progress::drain_percent_over_throttled;
use progress::drain_throttled_over_percent;
use progress::render_line;

#[test]
fn render_line_at_the_start() {
    let line = render_line(7, 7, false);
    let expected = format!("\r|{}|   0.0%", " ".repeat(50)).into_bytes();
    assert_eq!(line, expected);
}

#[test]
fn render_line_near_the_end() {
    let line = render_line(7, 1, false);
    let expected =
        format!("\r|{}{}| {:5.1}%", "#".repeat(42), " ".repeat(8), 85.7).into_bytes();
    assert_eq!(line, expected);
}

#[test]
fn render_line_completion_is_exact() {
    let line = render_line(7, 0, true);
    let expected =
        b"\r|##################################################| 100.0%\n".to_vec();
    assert_eq!(line, expected);
}

#[test]
fn render_line_rounds_to_one_decimal() {
    let line = render_line(1000, 999, false);
    let expected = format!("\r|{}|   0.1%", " ".repeat(50)).into_bytes();
    assert_eq!(line, expected);
    let halfway = render_line(1000, 427, false);
    let expected_halfway =
        format!("\r|{}{}| {:5.1}%", "#".repeat(28), " ".repeat(22), 57.3).into_bytes();
    assert_eq!(halfway, expected_halfway);
}

#[test]
fn render_line_zero_total_is_complete() {
    let line = render_line(0, 0, true);
    let expected =
        b"\r|##################################################| 100.0%\n".to_vec();
    assert_eq!(line, expected);
}

#[test]
fn percent_passes_seven_values_through() {
    let mut wrapped = PercentIterator::new(RangeProducer::new(0, 7));
    let values = collect_remaining(&mut wrapped);
    assert_eq!(values, vec![0, 1, 2, 3, 4, 5, 6]);
    assert!(!wrapped.render_failed());
}

#[test]
fn percent_over_empty_yields_nothing() {
    let mut wrapped = RangeProducer::new(0, 0).show_percent();
    let values = collect_remaining(&mut wrapped);
    assert_eq!(values, vec![]);
}

#[test]
fn drain_percent_returns_everything_in_order() {
    let mut wrapped = RangeProducer::new(2, 9).show_percent();
    let values = drain_percent(&mut wrapped);
    assert_eq!(values, vec![2, 3, 4, 5, 6, 7, 8]);
    assert!(!wrapped.render_failed());
}

#[test]
fn drain_percent_over_empty_completes_at_once() {
    let mut wrapped = RangeProducer::new(5, 5).show_percent();
    let values = drain_percent(&mut wrapped);
    assert_eq!(values, vec![]);
}

#[test]
fn composition_order_keeps_values_and_count() {
    let one_way = drain_percent_over_throttled(RangeProducer::new(0, 5), 0, NoPause);
    let other_way = drain_throttled_over_percent(RangeProducer::new(0, 5), 0, NoPause);
    assert_eq!(one_way, vec![0, 1, 2, 3, 4]);
    assert_eq!(other_way, vec![0, 1, 2, 3, 4]);
}

#[test]
fn remaining_count_passes_through_both_wrappers() {
    let throttled = RangeProducer::new(0, 9).rate_limit(0, NoPause);
    assert_eq!(throttled.remaining(), 9);
    let shown = RangeProducer::new(0, 9).show_percent();
    assert_eq!(shown.remaining(), 9);
}
