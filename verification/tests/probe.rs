use lp::probe::{record_and_echo, EchoReply};
use lp::report::final_report;
use lp::PingStats;

fn reply(hostname: &str, address: &str, latency: Option<u64>) -> EchoReply {
    EchoReply {
        hostname: hostname.to_string(),
        address: address.to_string(),
        latency,
    }
}

#[test]
fn error_outcome_is_dropped() {
    let mut s = PingStats::new();
    let line = record_and_echo("example.com", Err("host unreachable".to_string()), &mut s);
    assert_eq!(line, "  ERROR | example.com \u{25b8} host unreachable");
    assert_eq!(s.total, 1);
    assert_eq!(s.total_dropped, 1);
    assert_eq!(s.total_sent, 0);
}

#[test]
fn timeout_outcome_is_dropped() {
    let mut s = PingStats::new();
    let line = record_and_echo("example.com", Ok(reply("example.com", "example.com", None)), &mut s);
    assert_eq!(line, "  ERROR | example.com \u{25b8} timed out");
    assert_eq!(s.total, 1);
    assert_eq!(s.total_dropped, 1);
    assert_eq!(s.total_sent, 0);
}

#[test]
fn success_outcome_is_recorded_and_numbered() {
    let mut s = PingStats::new();
    let line = record_and_echo("8.8.8.8", Ok(reply("dns.google", "8.8.8.8", Some(2345))), &mut s);
    assert_eq!(line, "      1 | dns.google (8.8.8.8) \u{25b8} 23.45ms");
    assert_eq!(s.total, 1);
    assert_eq!(s.total_sent, 1);
    assert_eq!(s.latency_min, 2345);
    assert_eq!(s.latency_max, 2345);
}

#[test]
fn success_with_matching_names_shows_user_target() {
    let mut s = PingStats::new();
    let line = record_and_echo("localhost", Ok(reply("127.0.0.1", "127.0.0.1", Some(8))), &mut s);
    assert_eq!(line, "      1 | localhost \u{25b8} 0.08ms");
}

#[test]
fn sequence_number_counts_only_successes() {
    let mut s = PingStats::new();
    record_and_echo("h", Ok(reply("h", "h", Some(100))), &mut s);
    record_and_echo("h", Err("network is down".to_string()), &mut s);
    let line = record_and_echo("h", Ok(reply("h", "h", Some(200))), &mut s);
    assert_eq!(line, "      2 | h \u{25b8} 2.00ms");
    assert_eq!(s.total, 3);
    assert_eq!(s.total_sent, 2);
    assert_eq!(s.total_dropped, 1);
}

#[test]
fn final_report_appends_elapsed_line() {
    let mut s = PingStats::new();
    s.record(500);
    s.record(300);
    let report = final_report(&s, 90, "2024-01-02 03:04:05");
    assert_eq!(
        report,
        "  stats: attempted 2 pings, 2/2 OK, 0/2 (0.00%) dropped\nlatency: 4.00ms mean, 3.00ms min, 5.00ms max\n   time: pinged for 1m, 30s (began 2024-01-02 03:04:05)"
    );
}

#[test]
fn final_report_on_zero_observations() {
    let s = PingStats::new();
    let report = final_report(&s, 5, "2024-01-02 03:04:05");
    assert_eq!(
        report,
        "  stats: attempted 0 pings, 0/0 OK, 0/0 dropped\nlatency: 0.00ms mean, 0.00ms min, 0.00ms max\n   time: pinged for 5s (began 2024-01-02 03:04:05)"
    );
}
