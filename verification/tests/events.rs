use reso::metrics::event::{ErrorLogEvent, QueryLogEvent};

const UDP: u8 = 0;
const TCP: u8 = 1;
const A: u16 = 1;
const AAAA: u16 = 28;
const CNAME: u16 = 5;
const MX: u16 = 15;
const TXT: u16 = 16;
const NO_ERROR: u16 = 0;
const FORM_ERR: u16 = 1;
const SERV_FAIL: u16 = 2;
const NX_DOMAIN: u16 = 3;
const NOT_IMP: u16 = 4;
const REFUSED: u16 = 5;
const TIMEOUT: i64 = 1;
const PARSE: i64 = 2;

fn query(ts_ms: i64, transport: u8, client: &str, qname: &str, qtype: u16, rcode: u16, dur_ms: u64) -> QueryLogEvent {
    QueryLogEvent {
        ts_ms,
        transport,
        client: client.to_string(),
        qname: qname.to_string(),
        qtype,
        rcode,
        dur_ms,
        cache_hit: false,
        blocked: false,
        rate_limited: false,
        upstream_protocol: None,
    }
}

#[test]
fn test_query_log_event_to_db_model() {
    let mut event = query(1234567890, UDP, "192.168.1.1", "example.com.", A, NO_ERROR, 42);
    event.cache_hit = true;

    let db_model = event.into_db_model();

    assert_eq!(db_model.ts_ms, 1234567890);
    assert_eq!(db_model.transport, UDP as i64);
    assert_eq!(db_model.client, "192.168.1.1");
    assert_eq!(db_model.qname.as_deref(), Some("example.com."));
    assert_eq!(db_model.qtype, Some(A as i64));
    assert_eq!(db_model.rcode, Some(NO_ERROR as i64));
    assert_eq!(db_model.dur_ms, 42);
    assert_eq!(db_model.cache_hit, Some(true));
    assert_eq!(db_model.blocked, Some(false));
}

#[test]
fn test_query_log_event_blocked() {
    let mut event = query(1234567890, TCP, "10.0.0.1", "blocked.com.", AAAA, NX_DOMAIN, 1);
    event.blocked = true;

    let db_model = event.into_db_model();

    assert_eq!(db_model.blocked, Some(true));
    assert_eq!(db_model.cache_hit, Some(false));
    assert_eq!(db_model.rcode, Some(NX_DOMAIN as i64));
}

#[test]
fn test_error_log_event_to_db_model() {
    let event = ErrorLogEvent {
        ts_ms: 9876543210,
        transport: UDP,
        client: "192.168.1.100".to_string(),
        message: "Connection timeout".to_string(),
        error_type: TIMEOUT,
        dur_ms: 5000,
        qname: Some("timeout.example.com".to_string()),
        qtype: Some(A as i64),
        upstream_protocol: None,
    };

    let db_model = event.into_db_model();

    assert_eq!(db_model.ts_ms, 9876543210);
    assert_eq!(db_model.transport, UDP as i64);
    assert_eq!(db_model.client, "192.168.1.100");
    assert_eq!(db_model.error_message.as_deref(), Some("Connection timeout"));
    assert_eq!(db_model.error_type, Some(TIMEOUT));
    assert_eq!(db_model.dur_ms, 5000);
    assert_eq!(db_model.qname, Some("timeout.example.com".to_string()));
    assert_eq!(db_model.qtype, Some(A as i64));
}

#[test]
fn test_error_log_event_without_query_info() {
    let event = ErrorLogEvent {
        ts_ms: 1111111111,
        transport: TCP,
        client: "172.16.0.1".to_string(),
        message: "Parse error".to_string(),
        error_type: PARSE,
        dur_ms: 0,
        qname: None,
        qtype: None,
        upstream_protocol: None,
    };

    let db_model = event.into_db_model();

    assert_eq!(db_model.error_message.as_deref(), Some("Parse error"));
    assert_eq!(db_model.error_type, Some(PARSE));
    assert!(db_model.qname.is_none());
    assert!(db_model.qtype.is_none());
}

#[test]
fn test_query_log_event_various_record_types() {
    for qtype in [A, AAAA, CNAME, MX, TXT] {
        let db_model = query(1000, UDP, "127.0.0.1", "test.com.", qtype, NO_ERROR, 10).into_db_model();
        assert_eq!(db_model.qtype, Some(qtype as i64));
    }
}

#[test]
fn test_query_log_event_various_response_codes() {
    for rcode in [NO_ERROR, FORM_ERR, SERV_FAIL, NX_DOMAIN, NOT_IMP, REFUSED] {
        let db_model = query(2000, UDP, "127.0.0.1", "test.com.", A, rcode, 5).into_db_model();
        assert_eq!(db_model.rcode, Some(rcode as i64));
    }
}

#[test]
fn test_transport_types() {
    for transport in [UDP, TCP] {
        let db_model = query(3000, transport, "127.0.0.1", "test.com.", A, NO_ERROR, 15).into_db_model();
        assert_eq!(db_model.transport, transport as i64);
    }
}
