use filehub::metrics::{calculate_percentiles, sort_ascending, ConversionMetrics};
use std::time::Duration;

#[test]
fn test_metrics_counting() {
    let mut m = ConversionMetrics::new();
    m.record_started();
    m.record_started();
    m.record_success(Duration::from_secs(5), 1000);
    m.record_failure();

    let snap = m.snapshot();
    assert_eq!(snap.conversions_started, 2);
    assert_eq!(snap.conversions_succeeded, 1);
    assert_eq!(snap.conversions_failed, 1);
    assert_eq!(snap.total_output_bytes, 1000);
}

#[test]
fn test_metrics_percentiles() {
    let mut m = ConversionMetrics::new();
    for i in 1..=100 {
        m.record_success(Duration::from_millis(i * 10), 100);
    }

    let snap = m.snapshot();
    assert!(snap.duration_p50.is_some());
    assert!(snap.duration_p95.is_some());
    assert!(snap.duration_p99.is_some());

    let p50 = snap.duration_p50.expect("p50");
    let p95 = snap.duration_p95.expect("p95");
    assert!(p95 > p50);
}

#[test]
fn test_metrics_empty_percentiles() {
    let m = ConversionMetrics::new();
    let snap = m.snapshot();
    assert!(snap.duration_p50.is_none());
    assert!(snap.duration_p95.is_none());
    assert!(snap.duration_p99.is_none());
}

#[test]
fn test_timeout_increments_both() {
    let mut m = ConversionMetrics::new();
    m.record_timeout();
    let snap = m.snapshot();
    assert_eq!(snap.conversions_timed_out, 1);
    assert_eq!(snap.conversions_failed, 1);
}

#[test]
fn percentiles_exact_values() {
    let samples: Vec<u128> = (1..=100u128).rev().map(|i| i * 10).collect();
    let (p50, p95, p99) = calculate_percentiles(&samples);
    assert_eq!(p50, Some(510));
    assert_eq!(p95, Some(960));
    assert_eq!(p99, Some(990));
}

#[test]
fn percentiles_of_two_samples() {
    let (p50, p95, p99) = calculate_percentiles(&vec![2, 1]);
    assert_eq!((p50, p95, p99), (Some(2), Some(2), Some(2)));
}

#[test]
fn percentiles_ignore_sample_order() {
    let a = vec![5u128, 1, 9, 3, 7];
    let b = vec![9u128, 7, 5, 3, 1];
    assert_eq!(calculate_percentiles(&a), calculate_percentiles(&b));
}

#[test]
fn sort_is_ascending_with_duplicates() {
    assert_eq!(sort_ascending(&vec![3, 1, 2, 1]), vec![1, 1, 2, 3]);
}

#[test]
fn window_keeps_latest_thousand() {
    let mut m = ConversionMetrics::new();
    for i in 0..1005u128 {
        m.record_success_nanos(i, 1);
    }
    let snap = m.snapshot();
    assert_eq!(snap.sample_count, 1000);
    assert_eq!(snap.conversions_succeeded, 1005);
    assert_eq!(snap.duration_p50, Some(505));
}

#[test]
fn vtfx_and_cancel_counters() {
    let mut m = ConversionMetrics::default();
    m.record_vtfx_passthrough(42);
    m.record_cancelled();
    let snap = m.snapshot();
    assert_eq!(snap.vtfx_passthrough_count, 1);
    assert_eq!(snap.total_output_bytes, 42);
    assert_eq!(snap.conversions_cancelled, 1);
    assert_eq!(snap.sample_count, 0);
}

#[test]
fn success_sample_is_duration_in_nanos() {
    let mut m = ConversionMetrics::new();
    m.record_success(Duration::from_millis(3), 0);
    assert_eq!(m.snapshot().duration_p50, Some(3_000_000));
}

#[test]
fn recorded_samples_are_the_durations() {
    let mut m = ConversionMetrics::new();
    for i in 1..=100u64 {
        m.record_success(Duration::from_millis(i * 10), 100);
    }
    let snap = m.snapshot();
    assert_eq!(snap.duration_p50, Some(Duration::from_millis(510).as_nanos()));
    assert_eq!(snap.duration_p95, Some(Duration::from_millis(960).as_nanos()));
    assert_eq!(snap.duration_p99, Some(Duration::from_millis(990).as_nanos()));
    assert_eq!(snap.sample_count, 100);
    assert_eq!(snap.conversions_succeeded, 100);
    assert_eq!(snap.total_output_bytes, 10000);
}
