use speedprobe::handoff::{ChunkHandoff, Offer};
use speedprobe::outcome::Outcome;
use speedprobe::progress::{ChunkStep, ProgressAggregator};
use speedprobe::rate::compute_rate;

#[test]
fn rate_is_floor_of_bytes_times_thousand_over_millis() {
    assert_eq!(compute_rate(1_048_576, 500), Some(2_097_152));
    assert_eq!(compute_rate(1000, 3), Some(333_333));
    assert_eq!(compute_rate(0, 250), Some(0));
    assert_eq!(compute_rate(5 * 1_048_576, 1000), Some(5 * 1_048_576));
}

#[test]
fn rate_with_no_elapsed_time_is_unavailable() {
    assert_eq!(compute_rate(12345, 0), None);
    assert_eq!(compute_rate(0, 0), None);
}

#[test]
fn rate_saturates_at_largest_value() {
    assert_eq!(compute_rate(u64::MAX, 1), Some(u64::MAX));
    assert_eq!(compute_rate(u64::MAX, 1000), Some(u64::MAX));
}

#[test]
fn aggregator_counts_chunks_and_reports_rate() {
    let mut agg = ProgressAggregator::new(Some(1_048_576), 60_000);
    assert_eq!(agg.expected_total(), Some(1_048_576));
    for (i, t) in [125u64, 250, 375, 500].iter().enumerate() {
        assert_eq!(agg.on_chunk(262_144, *t), ChunkStep::Accepted(262_144 * (i as u64 + 1)));
    }
    assert_eq!(agg.bytes_received(), 1_048_576);
    assert_eq!(agg.finish(500), Outcome::Speed(2_097_152));
}

#[test]
fn aggregator_instant_delivery_is_unavailable() {
    let mut agg = ProgressAggregator::new(None, 60_000);
    assert_eq!(agg.on_chunk(100, 0), ChunkStep::Accepted(100));
    assert_eq!(agg.on_chunk(100, 0), ChunkStep::Accepted(200));
    assert_eq!(agg.finish(0), Outcome::RateUnavailable);
}

#[test]
fn aggregator_empty_body() {
    let agg = ProgressAggregator::new(Some(0), 60_000);
    assert_eq!(agg.bytes_received(), 0);
    assert_eq!(agg.finish(20), Outcome::Speed(0));
    assert_eq!(agg.finish(0), Outcome::RateUnavailable);
}

#[test]
fn aggregator_stops_counting_after_deadline() {
    let mut agg = ProgressAggregator::new(None, 60_000);
    assert_eq!(agg.on_chunk(10, 100), ChunkStep::Accepted(10));
    assert_eq!(agg.on_chunk(10, 60_000), ChunkStep::Accepted(20));
    assert_eq!(agg.on_chunk(5, 60_001), ChunkStep::DeadlineExceeded);
    assert!(agg.is_timed_out());
    assert_eq!(agg.bytes_received(), 20);
    assert_eq!(agg.on_chunk(7, 10), ChunkStep::DeadlineExceeded);
    assert_eq!(agg.bytes_received(), 20);
    assert_eq!(agg.finish(61_000), Outcome::TransferTimeout);
}

#[test]
fn aggregator_byte_count_saturates() {
    let mut agg = ProgressAggregator::new(None, 60_000);
    assert_eq!(agg.on_chunk(u64::MAX, 1), ChunkStep::Accepted(u64::MAX));
    assert_eq!(agg.on_chunk(1, 2), ChunkStep::Accepted(u64::MAX));
}

#[test]
fn handoff_holds_at_most_one_chunk() {
    let mut h = ChunkHandoff::new();
    assert!(!h.is_full());
    assert_eq!(h.take(), None);
    assert_eq!(h.offer(3), Offer::Accepted);
    assert!(h.is_full());
    assert_eq!(h.offer(4), Offer::Full);
    assert_eq!(h.take(), Some(3));
    assert_eq!(h.take(), None);
    assert_eq!(h.offer(4), Offer::Accepted);
    assert_eq!(h.take(), Some(4));
}

#[test]
fn handoff_refuses_offers_once_closed() {
    let mut h = ChunkHandoff::new();
    h.close();
    assert_eq!(h.offer(1), Offer::Closed);
    assert_eq!(h.take(), None);
}

#[test]
fn outcome_speed_only_for_measured_rate() {
    assert_eq!(Outcome::Speed(7).speed(), Some(7));
    assert_eq!(Outcome::RateUnavailable.speed(), None);
    assert_eq!(Outcome::BadStatus(404).speed(), None);
    assert_eq!(Outcome::TransportError("x".to_string()).speed(), None);
    assert!(Outcome::ConnectTimeout.is_failure());
    assert!(!Outcome::RateUnavailable.is_failure());
    assert_eq!(Outcome::TransportError("x".to_string()).duplicate(), Outcome::TransportError("x".to_string()));
}

#[test]
fn size_hint_is_never_checked_against_bytes() {
    let mut agg = ProgressAggregator::new(Some(10), 60_000);
    assert_eq!(agg.on_chunk(100, 10), ChunkStep::Accepted(100));
    assert_eq!(agg.expected_total(), Some(10));
    assert_eq!(agg.finish(100), Outcome::Speed(1000));
}
