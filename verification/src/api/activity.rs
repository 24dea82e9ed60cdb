//! The activity feed: stored query and error rows as the API shows them.

use vstd::prelude::*;
use vstd::string::*;

use crate::database::models::activity_log::ActivityLog;
use crate::metrics::event::{error_row_matches, query_row_matches, ErrorLogEvent, QueryLogEvent};
use crate::text::str_eq;

verus! {

/// What a query row adds to an activity entry.
#[derive(Debug, Clone, PartialEq, Eq)]
pub struct ActivityQuery {
    pub source_id: i64,
    pub rcode: u16,
    pub blocked: bool,
    pub cache_hit: bool,
}

/// What an error row adds to an activity entry.
#[derive(Debug, Clone, PartialEq, Eq)]
pub struct ActivityError {
    pub source_id: i64,
    pub error_type: i64,
    pub message: String,
}

/// Whether an entry was an answered query or a failed one.
#[derive(Debug, Clone, PartialEq, Eq)]
pub enum ActivityKind {
    Query(ActivityQuery),
    Error(ActivityError),
}

/// One entry of the activity feed.
#[derive(Debug, Clone, PartialEq, Eq)]
pub struct Activity {
    pub timestamp: i64,
    pub transport: u8,
    pub client: Option<String>,
    pub duration: u64,
    pub qname: Option<String>,
    pub qtype: Option<i64>,
    pub kind: ActivityKind,
}

/// Why a stored row could not be shown as an activity entry.
#[derive(Debug, Clone, PartialEq, Eq)]
pub enum ActivityConversionError {
    /// The transport does not fit in a byte.
    TransportOutOfRange(i64),
    /// A query row without a response code.
    QueryMissingRcode,
    /// A query row without the blocked flag.
    QueryMissingBlocked,
    /// A query row without the cache flag.
    QueryMissingCacheHit,
    /// An error row without an error type.
    ErrorMissingType,
    /// An error row without a message.
    ErrorMissingMessage,
    /// A row of neither kind; holds the kind it has.
    UnknownKind(String),
}

/// The activity entry for a stored row, or why there is none. The transport
/// must fit in a byte; a query row must have its response code and both flags,
/// an error row its type and message; these are checked in this order.
pub open spec fn activity_of(log: ActivityLog) -> Result<Activity, ActivityConversionError> {
    if !(0 <= log.transport <= 255) {
        Err(ActivityConversionError::TransportOutOfRange(log.transport))
    } else if log.kind@ == "query"@ {
        if log.rcode is None {
            Err(ActivityConversionError::QueryMissingRcode)
        } else if log.blocked is None {
            Err(ActivityConversionError::QueryMissingBlocked)
        } else if log.cache_hit is None {
            Err(ActivityConversionError::QueryMissingCacheHit)
        } else {
            Ok(
                Activity {
                    timestamp: log.ts_ms,
                    transport: log.transport as u8,
                    client: Some(log.client),
                    duration: log.dur_ms as u64,
                    qname: log.qname,
                    qtype: log.qtype,
                    kind: ActivityKind::Query(
                        ActivityQuery {
                            source_id: log.id,
                            rcode: log.rcode->0 as u16,
                            blocked: log.blocked->0,
                            cache_hit: log.cache_hit->0,
                        },
                    ),
                },
            )
        }
    } else if log.kind@ == "error"@ {
        if log.error_type is None {
            Err(ActivityConversionError::ErrorMissingType)
        } else if log.error_message is None {
            Err(ActivityConversionError::ErrorMissingMessage)
        } else {
            Ok(
                Activity {
                    timestamp: log.ts_ms,
                    transport: log.transport as u8,
                    client: Some(log.client),
                    duration: log.dur_ms as u64,
                    qname: log.qname,
                    qtype: log.qtype,
                    kind: ActivityKind::Error(
                        ActivityError {
                            source_id: log.id,
                            error_type: log.error_type->0,
                            message: log.error_message->0,
                        },
                    ),
                },
            )
        }
    } else {
        Err(ActivityConversionError::UnknownKind(log.kind))
    }
}

impl Activity {
    /// The activity entry for a stored row (see [`activity_of`]).
    pub fn try_from(log: ActivityLog) -> (r: Result<Activity, ActivityConversionError>)
        ensures
            r == activity_of(log),
    {
        if log.transport < 0 || log.transport > 255 {
            return Err(ActivityConversionError::TransportOutOfRange(log.transport));
        }
        let transport = log.transport as u8;
        let is_query = str_eq(log.kind.as_str(), "query");
        let is_error = str_eq(log.kind.as_str(), "error");
        let ActivityLog {
            ts_ms,
            kind,
            id,
            transport: _,
            client,
            qname,
            qtype,
            rcode,
            blocked,
            cache_hit,
            rate_limited: _,
            dur_ms,
            error_type,
            error_message,
        } = log;
        if is_query {
            let rcode = match rcode {
                Some(v) => v,
                None => return Err(ActivityConversionError::QueryMissingRcode),
            };
            let blocked = match blocked {
                Some(v) => v,
                None => return Err(ActivityConversionError::QueryMissingBlocked),
            };
            let cache_hit = match cache_hit {
                Some(v) => v,
                None => return Err(ActivityConversionError::QueryMissingCacheHit),
            };
            Ok(Activity {
                timestamp: ts_ms,
                transport,
                client: Some(client),
                duration: dur_ms as u64,
                qname,
                qtype,
                kind: ActivityKind::Query(
                    ActivityQuery { source_id: id, rcode: rcode as u16, blocked, cache_hit },
                ),
            })
        } else if is_error {
            let error_type = match error_type {
                Some(v) => v,
                None => return Err(ActivityConversionError::ErrorMissingType),
            };
            let message = match error_message {
                Some(v) => v,
                None => return Err(ActivityConversionError::ErrorMissingMessage),
            };
            Ok(Activity {
                timestamp: ts_ms,
                transport,
                client: Some(client),
                duration: dur_ms as u64,
                qname,
                qtype,
                kind: ActivityKind::Error(ActivityError { source_id: id, error_type, message }),
            })
        } else {
            Err(ActivityConversionError::UnknownKind(kind))
        }
    }
}

/// A recorded query shows in the activity feed as the same query: its time,
/// transport, client, duration, name, type, response code and flags.
pub proof fn lemma_query_event_in_feed(ev: QueryLogEvent, row: ActivityLog)
    requires
        query_row_matches(ev, row),
    ensures
        activity_of(row) is Ok,
        activity_of(row) matches Ok(a) && a.timestamp == ev.ts_ms && a.transport == ev.transport
            && a.duration == ev.dur_ms && a.client == Some(row.client) && row.client@ == ev.client@
            && a.qname == row.qname && a.qtype == Some(ev.qtype as i64) && a.kind == ActivityKind::Query(
            ActivityQuery { source_id: 0, rcode: ev.rcode, blocked: ev.blocked, cache_hit: ev.cache_hit },
        ),
{
    let d = ev.dur_ms;
    assert(((d as i64) as u64) == d) by (bit_vector);
    let c = ev.rcode;
    assert(((c as i64) as u16) == c) by (bit_vector);
    let t = ev.transport;
    assert(((t as i64) as u8) == t) by (bit_vector);
}

/// A recorded failure shows in the activity feed as the same failure: its
/// time, transport, client, duration, name, type, kind of error and message.
pub proof fn lemma_error_event_in_feed(ev: ErrorLogEvent, row: ActivityLog)
    requires
        error_row_matches(ev, row),
    ensures
        activity_of(row) is Ok,
        match activity_of(row) {
            Ok(a) => a.timestamp == ev.ts_ms && a.transport == ev.transport && a.duration == ev.dur_ms
                && a.client == Some(row.client) && row.client@ == ev.client@ && a.qname == ev.qname
                && a.qtype == ev.qtype && match a.kind {
                ActivityKind::Error(e) => e.source_id == 0 && e.error_type == ev.error_type && e.message@
                    == ev.message@,
                ActivityKind::Query(_) => false,
            },
            Err(_) => false,
        },
{
    reveal_strlit("error");
    reveal_strlit("query");
    assert(row.kind@[0] == 'e');
    assert("query"@[0] == 'q');
    assert(row.kind@ != "query"@);
    let d = ev.dur_ms;
    assert(((d as i64) as u64) == d) by (bit_vector);
    let t = ev.transport;
    assert(((t as i64) as u8) == t) by (bit_vector);
}

} // verus!
