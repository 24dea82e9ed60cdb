use reso::database::models::activity_log::ActivityLog;
use reso::database::models::client_metrics::GenericMetrics;
use reso::database::models::domain_metrics::DomainMetrics;
use reso::metrics::aggregate::{bucket_start_of, try_aggregate_batch};
use reso::metrics::event::{ErrorLogEvent, QueryLogEvent};
use reso::metrics::service::{LiveStats, LoopControl, MetricsMessage, MetricsRecorder};
use reso::metrics::task::{compression_cutoffs, TruncationSchedule};

fn create_test_query_event() -> QueryLogEvent {
    QueryLogEvent {
        ts_ms: 1000,
        transport: 0,
        client: "127.0.0.1".to_string(),
        qname: "example.com.".to_string(),
        qtype: 1,
        rcode: 0,
        dur_ms: 50,
        cache_hit: false,
        blocked: false,
        rate_limited: false,
        upstream_protocol: None,
    }
}

fn create_test_error_event() -> ErrorLogEvent {
    ErrorLogEvent {
        ts_ms: 2000,
        transport: 1,
        client: "192.168.1.1".to_string(),
        message: "Test error".to_string(),
        error_type: 1,
        dur_ms: 100,
        qname: Some("fail.example.com".to_string()),
        qtype: Some(1),
        upstream_protocol: None,
    }
}

fn zero_stats() -> LiveStats {
    LiveStats { total: 0, blocked: 0, cached: 0, errors: 0, sum_duration: 0, live_since: 0 }
}

#[test]
fn test_live_stats_apply_event() {
    let mut stats = zero_stats();
    let event = create_test_query_event();
    stats.apply_event(&event);

    assert_eq!(stats.total, 1);
    assert_eq!(stats.blocked, 0);
    assert_eq!(stats.cached, 0);
    assert_eq!(stats.errors, 0);
    assert_eq!(stats.sum_duration, 50);
}

#[test]
fn test_live_stats_apply_blocked_event() {
    let mut stats = zero_stats();
    let mut event = create_test_query_event();
    event.blocked = true;
    stats.apply_event(&event);

    assert_eq!(stats.total, 1);
    assert_eq!(stats.blocked, 1);
    assert_eq!(stats.cached, 0);
}

#[test]
fn test_live_stats_apply_cached_event() {
    let mut stats = zero_stats();
    let mut event = create_test_query_event();
    event.cache_hit = true;
    stats.apply_event(&event);

    assert_eq!(stats.total, 1);
    assert_eq!(stats.blocked, 0);
    assert_eq!(stats.cached, 1);
}

#[test]
fn test_live_stats_apply_error() {
    let mut stats = zero_stats();
    let error = create_test_error_event();
    stats.apply_error(&error);

    assert_eq!(stats.total, 1);
    assert_eq!(stats.errors, 1);
    assert_eq!(stats.sum_duration, 100);
}

#[test]
fn test_live_stats_multiple_events() {
    let mut stats = zero_stats();
    for i in 0..10 {
        let mut event = create_test_query_event();
        event.dur_ms = i * 10;
        event.blocked = i % 2 == 0;
        event.cache_hit = i % 3 == 0;
        stats.apply_event(&event);
    }

    assert_eq!(stats.total, 10);
    assert_eq!(stats.blocked, 5);
    assert_eq!(stats.cached, 4);
    assert_eq!(stats.sum_duration, 450);
}

#[test]
fn test_live_stats_mixed_events_and_errors() {
    let mut stats = zero_stats();
    stats.apply_event(&create_test_query_event());
    stats.apply_error(&create_test_error_event());

    assert_eq!(stats.total, 2);
    assert_eq!(stats.errors, 1);
    assert_eq!(stats.sum_duration, 150);
}

#[test]
fn test_live_stats_clone() {
    let stats1 = LiveStats { total: 10, blocked: 2, cached: 3, errors: 1, sum_duration: 500, live_since: 123456 };

    let stats2 = stats1.clone();

    assert_eq!(stats1.total, stats2.total);
    assert_eq!(stats1.blocked, stats2.blocked);
    assert_eq!(stats1.cached, stats2.cached);
    assert_eq!(stats1.errors, stats2.errors);
    assert_eq!(stats1.sum_duration, stats2.sum_duration);
    assert_eq!(stats1.live_since, stats2.live_since);
}

#[test]
fn test_live_stats_both_blocked_and_cached() {
    let mut stats = zero_stats();
    let mut event = create_test_query_event();
    event.blocked = true;
    event.cache_hit = true;
    stats.apply_event(&event);

    assert_eq!(stats.total, 1);
    assert_eq!(stats.blocked, 1);
    assert_eq!(stats.cached, 1);
}

#[test]
fn test_live_stats_duration_accumulation() {
    let mut stats = zero_stats();
    let mut event = create_test_query_event();
    event.dur_ms = 100;
    stats.apply_event(&event);
    event.dur_ms = 200;
    stats.apply_event(&event);
    stats.apply_error(&create_test_error_event());

    assert_eq!(stats.sum_duration, 400);
}

#[test]
fn live_stats_refuse_an_overflowing_event() {
    let mut stats = zero_stats();
    stats.total = usize::MAX;
    assert!(!stats.can_apply_event(&create_test_query_event()));
    assert!(!stats.can_apply_error(&create_test_error_event()));
    assert!(zero_stats().can_apply_event(&create_test_query_event()));
}

#[test]
fn live_stats_seeded_from_stored_totals() {
    let m = GenericMetrics { total_count: 7, blocked_count: -2, cached_count: 3, error_count: 1, sum_duration: 90 };
    let s = LiveStats::from_totals(&m, 42);
    assert_eq!((s.total, s.blocked, s.cached, s.errors, s.sum_duration, s.live_since), (7, 0, 3, 1, 90, 42));
}

#[test]
fn recorder_counts_and_queues_then_stops() {
    let mut rec = MetricsRecorder::new(zero_stats());
    let q = Some(MetricsMessage::Query(create_test_query_event()));
    assert!(rec.accepts(&q));
    assert_eq!(rec.handle(q), LoopControl::Continue);
    assert_eq!(rec.handle(Some(MetricsMessage::Error(create_test_error_event()))), LoopControl::Continue);
    assert_eq!(rec.live.total, 2);
    assert_eq!(rec.live.errors, 1);
    assert_eq!(rec.handle(Some(MetricsMessage::Shutdown)), LoopControl::Stop);
    assert_eq!(rec.handle(None), LoopControl::Stop);
    let rows = rec.take_batch();
    assert_eq!(rows.len(), 2);
    assert_eq!(rows[0].kind, "query");
    assert_eq!(rows[1].kind, "error");
    assert!(rec.batch.is_empty());
}

fn row(ts_ms: i64, client: &str, qname: Option<&str>, kind: &str, blocked: bool, dur_ms: i64) -> ActivityLog {
    ActivityLog {
        ts_ms,
        kind: kind.to_string(),
        id: 0,
        transport: 0,
        client: client.to_string(),
        qname: qname.map(|q| q.to_string()),
        qtype: Some(1),
        rcode: if kind == "query" { Some(0) } else { None },
        blocked: if kind == "query" { Some(blocked) } else { None },
        cache_hit: if kind == "query" { Some(false) } else { None },
        rate_limited: None,
        dur_ms,
        error_type: if kind == "error" { Some(1) } else { None },
        error_message: if kind == "error" { Some("e".to_string()) } else { None },
    }
}

#[test]
fn aggregate_batch_buckets_by_minute_and_client() {
    let batch = vec![
        row(1_000, "a", Some("x.com"), "query", true, 10),
        row(59_999, "a", Some("x.com"), "query", false, 20),
        row(60_000, "a", Some("y.com"), "error", false, 30),
        row(2_000, "b", Some("x.com"), "query", false, 5),
    ];
    let (clients, domains) = try_aggregate_batch(&batch).unwrap();
    assert_eq!(clients.len(), 3);
    assert_eq!((clients[0].bucket_ts, clients[0].client.as_str()), (0, "a"));
    assert_eq!(
        (clients[0].total_count, clients[0].blocked_count, clients[0].error_count, clients[0].sum_duration),
        (2, 1, 0, 30)
    );
    assert_eq!((clients[1].bucket_ts, clients[1].error_count, clients[1].sum_duration), (60_000, 1, 30));
    assert_eq!((clients[2].client.as_str(), clients[2].total_count), ("b", 1));
    let total: i64 = clients.iter().map(|c| c.total_count).sum();
    assert_eq!(total, 4);
    let x: Vec<&DomainMetrics> = domains.iter().filter(|d| d.qname == "x.com" && d.bucket_ts == 0).collect();
    assert_eq!(x.len(), 1);
    assert_eq!((x[0].total_count, x[0].blocked_count), (3, 1));
}

#[test]
fn aggregate_batch_sums_negative_durations() {
    let batch = vec![
        row(1_000, "a", Some("x.com"), "query", false, -5),
        row(2_000, "a", Some("x.com"), "query", false, 3),
    ];
    let (clients, _) = try_aggregate_batch(&batch).unwrap();
    assert_eq!(clients.len(), 1);
    assert_eq!((clients[0].total_count, clients[0].sum_duration), (2, -2));
}

#[test]
fn aggregate_batch_refuses_only_a_bucket_overflow() {
    let overflowing = vec![
        row(1_000, "a", Some("x.com"), "query", false, i64::MAX),
        row(2_000, "a", Some("x.com"), "query", false, 1),
    ];
    assert!(try_aggregate_batch(&overflowing).is_none());
    let separate = vec![
        row(1_000, "a", Some("x.com"), "query", false, i64::MAX),
        row(2_000, "b", Some("x.com"), "query", false, 1),
    ];
    let (clients, _) = try_aggregate_batch(&separate).unwrap();
    assert_eq!((clients[0].sum_duration, clients[1].sum_duration), (i64::MAX, 1));
    let back_in_range = vec![
        row(1_000, "a", None, "query", false, i64::MAX),
        row(2_000, "a", None, "query", false, -10),
        row(3_000, "a", None, "query", false, 5),
    ];
    assert_eq!(try_aggregate_batch(&back_in_range).unwrap().0[0].sum_duration, i64::MAX - 5);
}

#[test]
fn bucket_start_truncates_to_the_minute() {
    assert_eq!(bucket_start_of(0), 0);
    assert_eq!(bucket_start_of(59_999), 0);
    assert_eq!(bucket_start_of(60_000), 60_000);
    assert_eq!(bucket_start_of(125_000), 120_000);
    assert_eq!(bucket_start_of(-1), 0);
    assert_eq!(bucket_start_of(-60_001), -60_000);
}

#[test]
fn domain_metrics_merge_adds_counts() {
    let mut a = DomainMetrics::empty(60_000, "x.com".to_string());
    a.total_count = 2;
    let mut b = DomainMetrics::empty(60_000, "x.com".to_string());
    b.total_count = 3;
    b.blocked_count = 1;
    a.merge(&b);
    assert_eq!((a.total_count, a.blocked_count, a.bucket_ts), (5, 1, 60_000));
}

#[test]
fn truncation_schedule_never_runs_more_than_once_a_minute() {
    let s = TruncationSchedule::from_config(true, 3600, 5);
    assert_eq!(s.interval_secs, 60);
    let s = TruncationSchedule::from_config(true, 3600, 600);
    assert_eq!(s.interval_secs, 600);
}

#[test]
fn truncation_schedule_tick_gives_the_cutoff() {
    let s = TruncationSchedule::from_config(true, 10, 60);
    assert!(s.cutoff_in_range(100_000));
    assert_eq!(s.on_tick(100_000), Some(90_000));
    let off = TruncationSchedule::from_config(false, 10, 60);
    assert_eq!(off.on_tick(100_000), None);
    assert!(!s.cutoff_in_range(i64::MIN));
}

#[test]
fn truncation_schedule_reports_what_changed() {
    let mut s = TruncationSchedule::from_config(true, 100, 60);
    let c = s.apply_config(true, 0, 30);
    assert!(!c.enabled_changed);
    assert!(!c.interval_changed);
    assert!(c.retention_changed);
    assert_eq!(s.retention_secs, 1);
    let c = s.apply_config(false, 1, 120);
    assert!(c.enabled_changed && c.interval_changed && !c.retention_changed);
    assert_eq!((s.enabled, s.interval_secs), (false, 120));
}

#[test]
fn compression_cutoffs_are_a_day_and_a_month_back() {
    let (hour, day) = compression_cutoffs(10_000_000_000);
    assert_eq!(hour, 10_000_000_000 - 86_400_000);
    assert_eq!(day, 10_000_000_000 - 2_678_400_000);
}
