use reso::api::activity::{Activity, ActivityConversionError, ActivityKind};
use reso::api::domain_rules::activities_from_rows;
use reso::database::models::activity_log::ActivityLog;
use reso::metrics::event::{ErrorLogEvent, QueryLogEvent};

fn query_row(rcode: Option<i64>) -> ActivityLog {
    ActivityLog {
        ts_ms: 1000,
        kind: "query".to_string(),
        id: 1,
        transport: 0,
        client: "127.0.0.1".to_string(),
        qname: Some("example.com".to_string()),
        qtype: Some(1),
        rcode,
        blocked: Some(false),
        cache_hit: Some(true),
        rate_limited: None,
        dur_ms: 10,
        error_type: None,
        error_message: None,
    }
}

#[test]
fn test_activity_from_query_log() {
    let log = ActivityLog {
        ts_ms: 1234567890,
        kind: "query".to_string(),
        id: 1,
        transport: 0,
        client: "192.168.1.1".to_string(),
        qname: Some("example.com".to_string()),
        qtype: Some(1),
        rcode: Some(0),
        blocked: Some(false),
        cache_hit: Some(true),
        rate_limited: None,
        dur_ms: 42,
        error_type: None,
        error_message: None,
    };

    let activity = Activity::try_from(log).expect("conversion failed");

    assert_eq!(activity.timestamp, 1234567890);
    assert_eq!(activity.transport, 0);
    assert_eq!(activity.client, Some("192.168.1.1".to_string()));
    assert_eq!(activity.duration, 42);
    assert_eq!(activity.qname, Some("example.com".to_string()));
    assert_eq!(activity.qtype, Some(1));

    match activity.kind {
        ActivityKind::Query(query) => {
            assert_eq!(query.source_id, 1);
            assert_eq!(query.rcode, 0);
            assert!(!query.blocked);
            assert!(query.cache_hit);
        }
        _ => panic!("Expected Query kind"),
    }
}

#[test]
fn test_activity_from_error_log() {
    let log = ActivityLog {
        ts_ms: 9876543210,
        kind: "error".to_string(),
        id: 2,
        transport: 1,
        client: "10.0.0.1".to_string(),
        qname: Some("fail.example.com".to_string()),
        qtype: Some(28),
        rcode: None,
        blocked: None,
        cache_hit: None,
        rate_limited: None,
        dur_ms: 5000,
        error_type: Some(1),
        error_message: Some("Connection timeout".to_string()),
    };

    let activity = Activity::try_from(log).expect("conversion failed");

    assert_eq!(activity.timestamp, 9876543210);
    assert_eq!(activity.transport, 1);
    assert_eq!(activity.client, Some("10.0.0.1".to_string()));
    assert_eq!(activity.duration, 5000);

    match activity.kind {
        ActivityKind::Error(error) => {
            assert_eq!(error.source_id, 2);
            assert_eq!(error.error_type, 1);
            assert_eq!(error.message, "Connection timeout");
        }
        _ => panic!("Expected Error kind"),
    }
}

#[test]
fn test_activity_from_blocked_query() {
    let log = ActivityLog {
        ts_ms: 1111111111,
        kind: "query".to_string(),
        id: 3,
        transport: 0,
        client: "172.16.0.1".to_string(),
        qname: Some("blocked.com".to_string()),
        qtype: Some(1),
        rcode: Some(3),
        blocked: Some(true),
        cache_hit: Some(false),
        rate_limited: None,
        dur_ms: 1,
        error_type: None,
        error_message: None,
    };

    let activity = Activity::try_from(log).expect("conversion failed");

    match activity.kind {
        ActivityKind::Query(query) => {
            assert!(query.blocked);
            assert!(!query.cache_hit);
            assert_eq!(query.rcode, 3);
        }
        _ => panic!("Expected Query kind"),
    }
}

#[test]
fn test_activity_invalid_kind() {
    let log = ActivityLog {
        ts_ms: 1000,
        kind: "invalid".to_string(),
        id: 1,
        transport: 0,
        client: "127.0.0.1".to_string(),
        qname: None,
        qtype: None,
        rcode: None,
        blocked: None,
        cache_hit: None,
        rate_limited: None,
        dur_ms: 0,
        error_type: None,
        error_message: None,
    };

    let result = Activity::try_from(log);
    assert!(result.is_err());
}

#[test]
fn test_activity_query_missing_rcode() {
    let result = Activity::try_from(query_row(None));
    assert!(result.is_err());
}

#[test]
fn test_activity_error_missing_message() {
    let log = ActivityLog {
        ts_ms: 2000,
        kind: "error".to_string(),
        id: 2,
        transport: 1,
        client: "192.168.1.1".to_string(),
        qname: None,
        qtype: None,
        rcode: None,
        blocked: None,
        cache_hit: None,
        rate_limited: None,
        dur_ms: 100,
        error_type: Some(1),
        error_message: None,
    };

    let result = Activity::try_from(log);
    assert!(result.is_err());
}

#[test]
fn test_activity_transport_out_of_range() {
    let mut log = query_row(Some(0));
    log.transport = 256;
    let result = Activity::try_from(log);
    assert!(result.is_err());
}

#[test]
fn test_activity_various_rcodes() {
    for rcode in 0..6 {
        let activity = Activity::try_from(query_row(Some(rcode))).expect("conversion failed");
        match activity.kind {
            ActivityKind::Query(query) => {
                assert_eq!(query.rcode, rcode as u16);
            }
            _ => panic!("Expected Query kind"),
        }
    }
}

#[test]
fn conversion_errors_name_the_missing_part() {
    let mut log = query_row(Some(0));
    log.transport = -1;
    assert_eq!(Activity::try_from(log).unwrap_err(), ActivityConversionError::TransportOutOfRange(-1));
    assert_eq!(Activity::try_from(query_row(None)).unwrap_err(), ActivityConversionError::QueryMissingRcode);
    let mut log = query_row(Some(0));
    log.blocked = None;
    assert_eq!(Activity::try_from(log).unwrap_err(), ActivityConversionError::QueryMissingBlocked);
    let mut log = query_row(Some(0));
    log.cache_hit = None;
    assert_eq!(Activity::try_from(log).unwrap_err(), ActivityConversionError::QueryMissingCacheHit);
    let mut log = query_row(None);
    log.kind = "error".to_string();
    log.error_message = Some("x".to_string());
    assert_eq!(Activity::try_from(log).unwrap_err(), ActivityConversionError::ErrorMissingType);
    let mut log = query_row(None);
    log.kind = "other".to_string();
    assert_eq!(
        Activity::try_from(log).unwrap_err(),
        ActivityConversionError::UnknownKind("other".to_string())
    );
}

#[test]
fn recorded_query_shows_in_the_feed_unchanged() {
    let ev = QueryLogEvent {
        ts_ms: 77,
        transport: 2,
        client: "10.1.1.1".to_string(),
        qname: "a.example.".to_string(),
        qtype: 28,
        rcode: 3,
        dur_ms: u64::MAX,
        cache_hit: true,
        blocked: false,
        rate_limited: false,
        upstream_protocol: None,
    };
    let activity = Activity::try_from(ev.into_db_model()).unwrap();
    assert_eq!(activity.timestamp, 77);
    assert_eq!(activity.transport, 2);
    assert_eq!(activity.duration, u64::MAX);
    assert_eq!(activity.qtype, Some(28));
    assert_eq!(activity.client.as_deref(), Some("10.1.1.1"));
    match activity.kind {
        ActivityKind::Query(q) => {
            assert_eq!((q.source_id, q.rcode, q.blocked, q.cache_hit), (0, 3, false, true));
        }
        _ => panic!("expected a query"),
    }
}

#[test]
fn recorded_error_shows_in_the_feed_unchanged() {
    let ev = ErrorLogEvent {
        ts_ms: 5,
        transport: 1,
        client: "10.0.0.9".to_string(),
        message: "timeout".to_string(),
        error_type: 4,
        dur_ms: 1500,
        qname: None,
        qtype: None,
        upstream_protocol: Some(1),
    };
    let activity = Activity::try_from(ev.into_db_model()).unwrap();
    assert_eq!((activity.timestamp, activity.transport, activity.duration), (5, 1, 1500));
    match activity.kind {
        ActivityKind::Error(e) => {
            assert_eq!(e.error_type, 4);
            assert_eq!(e.message, "timeout");
        }
        _ => panic!("expected an error"),
    }
}

#[test]
fn activities_from_rows_keeps_order_and_stops_at_the_first_bad_row() {
    let rows = vec![query_row(Some(1)), query_row(Some(2))];
    let acts = activities_from_rows(rows).unwrap();
    assert_eq!(acts.len(), 2);
    assert!(matches!(&acts[1].kind, ActivityKind::Query(q) if q.rcode == 2));

    let mut bad = query_row(Some(0));
    bad.transport = 300;
    let rows = vec![query_row(Some(1)), bad, query_row(None)];
    assert_eq!(activities_from_rows(rows).unwrap_err(), ActivityConversionError::TransportOutOfRange(300));
}
