use lp::PingStats;

#[test]
fn new_is_zeroed() {
    let s = PingStats::new();
    assert_eq!(s.total, 0);
    assert_eq!(s.total_dropped, 0);
    assert_eq!(s.total_sent, 0);
    assert_eq!(s.latency_min, 0);
    assert_eq!(s.latency_max, 0);
    assert_eq!(s.latency_sum, 0);
}

#[test]
fn total_partitions_after_each_call() {
    let mut s = PingStats::new();
    s.record(500);
    assert_eq!(s.total, s.total_sent + s.total_dropped);
    s.record_dropped();
    assert_eq!(s.total, s.total_sent + s.total_dropped);
    s.record(120);
    assert_eq!(s.total, s.total_sent + s.total_dropped);
    s.record_dropped();
    assert_eq!(s.total, s.total_sent + s.total_dropped);
    s.record_dropped();
    assert_eq!(s.total, s.total_sent + s.total_dropped);
    assert_eq!(s.total, 5);
    assert_eq!(s.total_sent, 2);
    assert_eq!(s.total_dropped, 3);
}

#[test]
fn mean_on_zero_successes_is_zero() {
    let s = PingStats::new();
    assert_eq!(s.mean(), 0);
    let mut dropped_only = PingStats::new();
    dropped_only.record_dropped();
    dropped_only.record_dropped();
    assert_eq!(dropped_only.mean(), 0);
}

#[test]
fn percentage_dropped_absent_on_zero_total() {
    let s = PingStats::new();
    assert_eq!(s.percentage_dropped(), None);
}

#[test]
fn two_records_update_min_max_mean() {
    let mut s = PingStats::new();
    s.record(500);
    s.record(300);
    assert_eq!(s.latency_min, 300);
    assert_eq!(s.latency_max, 500);
    assert_eq!(s.mean(), 400);
}

#[test]
fn first_success_sets_both_bounds() {
    let mut s = PingStats::new();
    s.record_dropped();
    s.record(250);
    assert_eq!(s.latency_min, 250);
    assert_eq!(s.latency_max, 250);
}

#[test]
fn larger_latency_moves_only_the_maximum() {
    let mut s = PingStats::new();
    s.record(250);
    s.record(900);
    assert_eq!(s.latency_min, 250);
    assert_eq!(s.latency_max, 900);
    assert_eq!(s.latency_sum, 1150);
}

#[test]
fn percentage_dropped_is_exact_on_even_split() {
    let mut s = PingStats::new();
    s.record(100);
    s.record_dropped();
    assert_eq!(s.percentage_dropped(), Some(5000));
}

#[test]
fn percentage_dropped_truncates() {
    let mut s = PingStats::new();
    s.record(100);
    s.record(100);
    s.record_dropped();
    assert_eq!(s.percentage_dropped(), Some(3333));
}

#[test]
fn render_with_observations_is_exact() {
    let mut s = PingStats::new();
    s.record(500);
    s.record(300);
    s.record_dropped();
    assert_eq!(
        s.render(),
        "  stats: attempted 3 pings, 2/3 OK, 1/3 (33.33%) dropped\nlatency: 4.00ms mean, 3.00ms min, 5.00ms max"
    );
}

#[test]
fn render_on_zero_observations_is_clean() {
    let s = PingStats::new();
    let r = s.render();
    assert!(!r.contains("NaN"));
    assert!(!r.contains("inf"));
    assert!(!r.contains('%'));
    assert_eq!(
        r,
        "  stats: attempted 0 pings, 0/0 OK, 0/0 dropped\nlatency: 0.00ms mean, 0.00ms min, 0.00ms max"
    );
}
