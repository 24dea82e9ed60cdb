//! Events recorded for every answered query and every failed request.

use vstd::prelude::*;

use crate::database::models::activity_log::ActivityLog;
use crate::metrics::aggregate::is_error_row;

verus! {

/// A DNS query that was answered. Protocol, record type and response code are
/// carried as their numeric codes.
#[derive(Debug, Clone)]
pub struct QueryLogEvent {
    pub ts_ms: i64,
    /// Numeric code of the transport the query came in on.
    pub transport: u8,
    pub client: String,
    /// The queried name, as written in the activity log.
    pub qname: String,
    /// Numeric record type.
    pub qtype: u16,
    /// Numeric response code.
    pub rcode: u16,
    pub dur_ms: u64,
    pub cache_hit: bool,
    pub blocked: bool,
    pub rate_limited: bool,
    /// Numeric code of the protocol used upstream, if the query went upstream.
    pub upstream_protocol: Option<u8>,
}

/// The activity-log row for an answered query.
pub open spec fn query_row_matches(ev: QueryLogEvent, row: ActivityLog) -> bool {
    &&& row.ts_ms == ev.ts_ms
    &&& row.kind@ == "query"@
    &&& row.id == 0
    &&& row.transport == ev.transport as i64
    &&& row.client@ == ev.client@
    &&& row.qname matches Some(q) && q@ == ev.qname@
    &&& row.qtype == Some(ev.qtype as i64)
    &&& row.dur_ms == ev.dur_ms as i64
    &&& row.rcode == Some(ev.rcode as i64)
    &&& row.blocked == Some(ev.blocked)
    &&& row.cache_hit == Some(ev.cache_hit)
    &&& row.rate_limited == Some(ev.rate_limited)
    &&& row.error_type is None
    &&& row.error_message is None
}

/// The row of a query event carries the event's own flags: whether it was
/// blocked, answered from cache and rate limited. So two events that differ in
/// one of these flags give rows that differ in it.
pub proof fn lemma_query_row_keeps_flags(
    ev1: QueryLogEvent,
    row1: ActivityLog,
    ev2: QueryLogEvent,
    row2: ActivityLog,
)
    requires
        query_row_matches(ev1, row1),
        query_row_matches(ev2, row2),
    ensures
        row1.blocked == Some(ev1.blocked),
        row1.cache_hit == Some(ev1.cache_hit),
        row1.rate_limited == Some(ev1.rate_limited),
        ev1.blocked != ev2.blocked ==> row1.blocked != row2.blocked,
        ev1.cache_hit != ev2.cache_hit ==> row1.cache_hit != row2.cache_hit,
        ev1.rate_limited != ev2.rate_limited ==> row1.rate_limited != row2.rate_limited,
{
}

impl QueryLogEvent {
    /// The activity-log row recording this query.
    pub fn into_db_model(self) -> (row: ActivityLog)
        ensures
            query_row_matches(self, row),
            row.blocked == Some(self.blocked),
            row.cache_hit == Some(self.cache_hit),
            row.rate_limited == Some(self.rate_limited),
    {
        ActivityLog {
            ts_ms: self.ts_ms,
            kind: "query".to_owned(),
            id: 0,
            transport: self.transport as i64,
            client: self.client,
            qname: Some(self.qname),
            qtype: Some(self.qtype as i64),
            dur_ms: self.dur_ms as i64,
            rcode: Some(self.rcode as i64),
            blocked: Some(self.blocked),
            cache_hit: Some(self.cache_hit),
            rate_limited: Some(self.rate_limited),
            error_type: None,
            error_message: None,
        }
    }
}

/// A DNS request that failed.
#[derive(Debug, Clone)]
pub struct ErrorLogEvent {
    pub ts_ms: i64,
    /// Numeric code of the transport the request came in on.
    pub transport: u8,
    pub client: String,
    pub message: String,
    /// Numeric code of the kind of failure.
    pub error_type: i64,
    pub dur_ms: u64,
    pub qname: Option<String>,
    pub qtype: Option<i64>,
    /// Numeric code of the protocol used upstream, if the request went upstream.
    pub upstream_protocol: Option<u8>,
}

/// The activity-log row for a failed request.
pub open spec fn error_row_matches(ev: ErrorLogEvent, row: ActivityLog) -> bool {
    &&& row.ts_ms == ev.ts_ms
    &&& row.kind@ == "error"@
    &&& row.id == 0
    &&& row.transport == ev.transport as i64
    &&& row.client@ == ev.client@
    &&& row.qname == ev.qname
    &&& row.qtype == ev.qtype
    &&& row.dur_ms == ev.dur_ms as i64
    &&& row.rcode is None
    &&& row.blocked is None
    &&& row.cache_hit is None
    &&& row.rate_limited is None
    &&& row.error_type == Some(ev.error_type)
    &&& row.error_message matches Some(m) && m@ == ev.message@
}

/// A failed request is logged as an error row and an answered query never
/// is: the error row keeps the kind of failure and carries none of the query
/// flags, the query row carries no kind of failure.
pub proof fn lemma_error_and_query_rows_differ(
    qe: QueryLogEvent,
    qrow: ActivityLog,
    ee: ErrorLogEvent,
    erow: ActivityLog,
)
    requires
        query_row_matches(qe, qrow),
        error_row_matches(ee, erow),
    ensures
        is_error_row(erow),
        !is_error_row(qrow),
        erow.error_type == Some(ee.error_type),
        qrow.error_type is None,
        erow.blocked is None && erow.cache_hit is None && erow.rate_limited is None,
{
    reveal_strlit("error");
    reveal_strlit("query");
    assert("error"@[0] != "query"@[0]);
}

impl ErrorLogEvent {
    /// The activity-log row recording this failure.
    pub fn into_db_model(self) -> (row: ActivityLog)
        ensures
            error_row_matches(self, row),
            row.kind@ == "error"@,
            row.error_type == Some(self.error_type),
            row.blocked is None && row.cache_hit is None && row.rate_limited is None,
    {
        ActivityLog {
            ts_ms: self.ts_ms,
            kind: "error".to_owned(),
            id: 0,
            transport: self.transport as i64,
            client: self.client,
            qname: self.qname,
            qtype: self.qtype,
            dur_ms: self.dur_ms as i64,
            rcode: None,
            blocked: None,
            cache_hit: None,
            rate_limited: None,
            error_type: Some(self.error_type),
            error_message: Some(self.message),
        }
    }
}

} // verus!
