use loadtest::accumulator::StatsAccumulator;
use loadtest::config::{
    auth_header_value, parse_count, request_headers, resolve_count, resolve_text, ConfigError,
    RunConfig, SettingSource,
};
use loadtest::outcome::{Classification, Reply};
use loadtest::report::compute_result;
use loadtest::stats::{Stats, NO_MIN};
use loadtest::worker::{Step, Worker};

/// Runs `workers` workers of `quota` requests each, one after another,
/// answering every request with `reply` and a duration of `duration_ns`.
fn run_all(workers: usize, quota: usize, reply: Reply, duration_ns: u64) -> Stats {
    let acc = StatsAccumulator::new();
    for _ in 0..workers {
        let mut w = Worker::new(quota);
        let mut expected_number = 1;
        while let Step::Send(n) = w.next_step() {
            assert_eq!(n, expected_number);
            expected_number += 1;
            w.complete(&acc, reply, duration_ns);
        }
        assert_eq!(w.completed, quota);
    }
    acc.snapshot()
}

fn config(workers: usize, per_worker: usize) -> RunConfig {
    RunConfig::new(workers, per_worker, "http://localhost:3000/api/foo".to_string(), String::new(), vec![])
        .unwrap()
}

#[test]
fn all_ok_target_counts_every_success() {
    let c = config(3, 10);
    let s = run_all(3, 10, Reply::Status(200), 1_000);
    assert_eq!(s.success_count, 30);
    assert_eq!(s.failure_count, 0);
    assert_eq!(c.total_requests(), 30);
    let r = compute_result(c.total_requests(), &s, 1_000_000_000);
    assert_eq!(r.total_requests, 30);
    assert_eq!(r.success_count, 30);
}

#[test]
fn server_error_target_counts_every_failure() {
    let s = run_all(4, 7, Reply::Status(500), 2_000);
    assert_eq!(s.success_count, 0);
    assert_eq!(s.failure_count, 28);
}

#[test]
fn unreachable_target_counts_transport_failures() {
    let s = run_all(2, 5, Reply::TransportError, 500);
    assert_eq!(s.success_count, 0);
    assert_eq!(s.failure_count, 10);
    assert_eq!(s.total_duration_ns, 5_000);
}

#[test]
fn worker_steps_and_classifies() {
    let acc = StatsAccumulator::new();
    let mut w = Worker::new(2);
    assert_eq!(w.next_step(), Step::Send(1));
    let o = w.complete(&acc, Reply::Status(201), 40);
    assert_eq!(o.classification, Classification::Success(201));
    assert_eq!(w.next_step(), Step::Send(2));
    let o = w.complete(&acc, Reply::Status(503), 60);
    assert_eq!(o.classification, Classification::Failure);
    assert_eq!(w.next_step(), Step::Finished);
    let s = acc.snapshot();
    assert_eq!((s.success_count, s.failure_count, s.min_duration_ns, s.max_duration_ns), (1, 1, 40, 60));
}

#[test]
fn empty_quota_reports_zeros() {
    let c = config(5, 0);
    assert_eq!(c.total_requests(), 0);
    let s = run_all(5, 0, Reply::Status(200), 1);
    assert_eq!(s.min_duration_ns, NO_MIN);
    let r = compute_result(c.total_requests(), &s, 3_000_000);
    assert_eq!(r.total_requests, 0);
    assert_eq!(r.requests_per_second_milli, 0);
    assert_eq!(r.average_latency_ns, 0);
    assert_eq!(r.min_latency_ns, 0);
    assert_eq!(r.max_latency_ns, 0);
}

#[test]
fn rate_from_two_seconds_and_one_hundred_requests() {
    let r = compute_result(100, &Stats::new(), 2_000_000_000);
    assert_eq!(r.requests_per_second_milli, 50_000);
    assert_eq!(r.requests_per_second_milli as f64 / 1000.0, 50.0);
}

#[test]
fn average_latency_from_total_duration() {
    let mut s = Stats::new();
    s.total_duration_ns = 300_000_000;
    s.min_duration_ns = 1_000_000;
    s.max_duration_ns = 9_000_000;
    let r = compute_result(100, &s, 1_000_000_000);
    assert_eq!(r.average_latency_ns, 3_000_000);
    assert_eq!(r.average_latency_ns as f64 / 1_000_000.0, 3.0);
    assert_eq!(r.min_latency_ns, 1_000_000);
    assert_eq!(r.max_latency_ns, 9_000_000);
}

#[test]
fn zero_wall_clock_gives_zero_rate() {
    let r = compute_result(10, &Stats::new(), 0);
    assert_eq!(r.requests_per_second_milli, 0);
}

#[test]
fn rate_rounds_down() {
    let r = compute_result(1, &Stats::new(), 3_000_000_000);
    assert_eq!(r.requests_per_second_milli, 333);
    let r = compute_result(u64::MAX, &Stats::new(), 1);
    assert_eq!(r.requests_per_second_milli, u64::MAX as u128 * 1_000_000_000_000);
}

#[test]
fn parse_count_accepts_digits() {
    assert_eq!(parse_count("42"), Some(42));
    assert_eq!(parse_count("+7"), Some(7));
    assert_eq!(parse_count("007"), Some(7));
    assert_eq!(parse_count("0"), Some(0));
    assert_eq!(parse_count(&usize::MAX.to_string()), Some(usize::MAX));
}

#[test]
fn parse_count_rejects_other_text() {
    assert_eq!(parse_count(""), None);
    assert_eq!(parse_count("+"), None);
    assert_eq!(parse_count("-1"), None);
    assert_eq!(parse_count(" 1"), None);
    assert_eq!(parse_count("1 "), None);
    assert_eq!(parse_count("1_000"), None);
    assert_eq!(parse_count("ten"), None);
    assert_eq!(parse_count("18446744073709551616"), None);
    assert_eq!(parse_count("99999999999999999999x"), None);
}

#[test]
fn parse_count_agrees_with_std() {
    for t in ["12", "+3", "", "-0", "4a", "18446744073709551615", "018446744073709551615"] {
        assert_eq!(parse_count(t), t.parse::<usize>().ok(), "{}", t);
    }
}

#[test]
fn resolve_count_sources() {
    assert_eq!(resolve_count(None, 20), (20, SettingSource::Default));
    assert_eq!(resolve_count(Some("8"), 20), (8, SettingSource::Given));
    assert_eq!(resolve_count(Some("eight"), 20), (20, SettingSource::DefaultForInvalid));
}

#[test]
fn resolve_text_sources() {
    assert_eq!(resolve_text(None, "http://x"), ("http://x".to_string(), SettingSource::Default));
    assert_eq!(resolve_text(Some(""), "d"), ("d".to_string(), SettingSource::Default));
    assert_eq!(resolve_text(Some("v"), "d"), ("v".to_string(), SettingSource::Given));
}

#[test]
fn config_rejects_empty_target() {
    let r = RunConfig::new(1, 1, String::new(), String::new(), vec![]);
    assert_eq!(r.err(), Some(ConfigError::MissingTargetUrl));
}

#[test]
fn config_rejects_unrepresentable_total() {
    let r = RunConfig::new(usize::MAX, 2, "http://h".to_string(), String::new(), vec![]);
    assert_eq!(r.err(), Some(ConfigError::TooManyRequests));
}

#[test]
fn config_keeps_its_fields() {
    let c = RunConfig::new(20, 50, "http://h/a".to_string(), "tok".to_string(), vec![1, 2, 3]).unwrap();
    assert_eq!(c.worker_count, 20);
    assert_eq!(c.requests_per_worker, 50);
    assert_eq!(c.target_url, "http://h/a");
    assert_eq!(c.auth_token, "tok");
    assert_eq!(c.payload, vec![1, 2, 3]);
    assert_eq!(c.total_requests(), 1000);
}

#[test]
fn auth_header_is_bearer_token() {
    assert_eq!(auth_header_value("abc123"), Some("Bearer abc123".to_string()));
    assert_eq!(auth_header_value(""), None);
}

#[test]
fn headers_with_token() {
    let h = request_headers("t0k3n");
    assert_eq!(
        h,
        vec![
            ("Content-Type".to_string(), "application/json".to_string()),
            ("Authorization".to_string(), "Bearer t0k3n".to_string()),
        ]
    );
}

#[test]
fn headers_without_token() {
    let h = request_headers("");
    assert_eq!(h, vec![("Content-Type".to_string(), "application/json".to_string())]);
    let c = config(1, 1);
    assert_eq!(c.request_headers(), h);
}
