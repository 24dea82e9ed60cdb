//! Aggregation of a batch of activity-log rows into per-client and per-domain
//! metric buckets of one minute.

use vstd::prelude::*;
use vstd::string::*;

use crate::database::models::activity_log::ActivityLog;
use crate::database::models::client_metrics::ClientMetrics;
use crate::database::models::domain_metrics::DomainMetrics;
use crate::metrics::service::one_if;
use crate::text::str_eq;

verus! {

/// Width of a metrics bucket in milliseconds: one minute.
pub const BUCKET_INTERVAL_MS: i64 = 60_000;

/// Division rounding toward zero, as Rust's `/` does.
pub open spec fn trunc_div(x: int, d: int) -> int {
    if x >= 0 {
        x / d
    } else {
        -((-x) / d)
    }
}

/// The start of the bucket holding timestamp `ts` (`(ts / 60000) * 60000`).
pub open spec fn bucket_start(ts: i64) -> int {
    trunc_div(ts as int, 60000) * 60000
}

/// Counts of a client bucket: total, blocked, cached, errors, summed duration.
pub type ClientTotals = (int, int, int, int, int);

/// Counts of a domain bucket: total and blocked.
pub type DomainTotals = (int, int);

/// Whether a row records a failed request.
pub open spec fn is_error_row(e: ActivityLog) -> bool {
    e.kind@ == "error"@
}

/// What one row adds to its client bucket.
pub open spec fn client_weight(e: ActivityLog) -> ClientTotals {
    (
        1,
        one_if(e.blocked == Some(true)),
        one_if(e.cache_hit == Some(true)),
        one_if(is_error_row(e)),
        e.dur_ms as int,
    )
}

/// Componentwise sum.
pub open spec fn add_client_totals(a: ClientTotals, b: ClientTotals) -> ClientTotals {
    (a.0 + b.0, a.1 + b.1, a.2 + b.2, a.3 + b.3, a.4 + b.4)
}

/// Whether row `e` falls into the bucket of client `c` starting at `b`.
pub open spec fn has_client_key(e: ActivityLog, b: int, c: Seq<char>) -> bool {
    bucket_start(e.ts_ms) == b && e.client@ == c
}

/// The counts of the bucket of client `c` starting at `b`, over `batch`.
pub open spec fn client_totals(batch: Seq<ActivityLog>, b: int, c: Seq<char>) -> ClientTotals
    decreases batch.len(),
{
    if batch.len() == 0 {
        (0, 0, 0, 0, 0)
    } else {
        let rest = client_totals(batch.drop_last(), b, c);
        if has_client_key(batch.last(), b, c) {
            add_client_totals(rest, client_weight(batch.last()))
        } else {
            rest
        }
    }
}

/// The counts a client bucket holds.
pub open spec fn client_metrics_totals(m: ClientMetrics) -> ClientTotals {
    (
        m.total_count as int,
        m.blocked_count as int,
        m.cached_count as int,
        m.error_count as int,
        m.sum_duration as int,
    )
}

/// `out` holds exactly the client buckets of `batch`: one per (bucket, client)
/// that occurs, each with the counts of its rows.
pub open spec fn client_buckets_exact(out: Seq<ClientMetrics>, batch: Seq<ActivityLog>) -> bool {
    &&& forall|i: int, j: int|
        0 <= i < j < out.len() ==> !(out[i].bucket_ts == out[j].bucket_ts && out[i].client@
            == out[j].client@)
    &&& forall|i: int|
        0 <= i < out.len() ==> client_metrics_totals(#[trigger] out[i]) == client_totals(
            batch,
            out[i].bucket_ts as int,
            out[i].client@,
        )
    &&& forall|i: int| 0 <= i < out.len() ==> (#[trigger] out[i]).total_count >= 1
    &&& forall|k: int|
        0 <= k < batch.len() ==> exists|i: int|
            0 <= i < out.len() && has_client_key(#[trigger] batch[k], out[i].bucket_ts as int, out[i].client@)
}

/// Whether row `e` falls into the bucket of domain `q` starting at `b`.
pub open spec fn has_domain_key(e: ActivityLog, b: int, q: Seq<char>) -> bool {
    &&& bucket_start(e.ts_ms) == b
    &&& e.qname matches Some(n) && n@ == q
}

/// The counts of the bucket of domain `q` starting at `b`, over `batch`.
pub open spec fn domain_totals(batch: Seq<ActivityLog>, b: int, q: Seq<char>) -> DomainTotals
    decreases batch.len(),
{
    if batch.len() == 0 {
        (0, 0)
    } else {
        let rest = domain_totals(batch.drop_last(), b, q);
        if has_domain_key(batch.last(), b, q) {
            (rest.0 + 1, rest.1 + one_if(batch.last().blocked == Some(true)))
        } else {
            rest
        }
    }
}

/// `out` holds exactly the domain buckets of `batch`: one per (bucket, qname)
/// that occurs among rows with a qname, each with the counts of its rows.
pub open spec fn domain_buckets_exact(out: Seq<DomainMetrics>, batch: Seq<ActivityLog>) -> bool {
    &&& forall|i: int, j: int|
        0 <= i < j < out.len() ==> !(out[i].bucket_ts == out[j].bucket_ts && out[i].qname@
            == out[j].qname@)
    &&& forall|i: int|
        0 <= i < out.len() ==> ((#[trigger] out[i]).total_count as int, out[i].blocked_count as int)
            == domain_totals(batch, out[i].bucket_ts as int, out[i].qname@)
    &&& forall|i: int| 0 <= i < out.len() ==> (#[trigger] out[i]).total_count >= 1
    &&& forall|k: int|
        0 <= k < batch.len() && (#[trigger] batch[k]).qname is Some ==> exists|i: int|
            0 <= i < out.len() && has_domain_key(batch[k], out[i].bucket_ts as int, out[i].qname@)
}

/// The summed duration of the bucket of row `k` of `batch` once that row has
/// been added to it.
pub open spec fn running_duration(batch: Seq<ActivityLog>, k: int) -> int {
    client_totals(batch.take(k + 1), bucket_start(batch[k].ts_ms), batch[k].client@).4
}

/// Rows that can be aggregated without overflow: adding each row to its
/// bucket keeps that bucket's summed duration within an `i64`. Durations may
/// be negative.
pub open spec fn aggregatable(batch: Seq<ActivityLog>) -> bool {
    &&& batch.len() <= i64::MAX
    &&& forall|k: int|
        0 <= k < batch.len() ==> i64::MIN <= #[trigger] running_duration(batch, k) <= i64::MAX
}

proof fn lemma_bucket_start_bounds(ts: i64)
    ensures
        i64::MIN <= bucket_start(ts) <= i64::MAX,
        bucket_start(ts) == trunc_div(ts as int, 60000) * 60000,
{
    let x = ts as int;
    if x >= 0 {
        assert(0 <= (x / 60000) * 60000 <= x) by (nonlinear_arith)
            requires
                x >= 0,
        ;
    } else {
        let y = -x;
        assert(0 <= (y / 60000) * 60000 <= y) by (nonlinear_arith)
            requires
                y >= 0,
        ;
        assert(-((y / 60000)) * 60000 == -((y / 60000) * 60000)) by (nonlinear_arith);
    }
}

/// The start of the bucket holding `ts`.
pub fn bucket_start_of(ts: i64) -> (b: i64)
    ensures
        b == bucket_start(ts),
{
    proof {
        lemma_bucket_start_bounds(ts);
    }
    let q = ts / BUCKET_INTERVAL_MS;
    assert(q == trunc_div(ts as int, 60000));
    q * BUCKET_INTERVAL_MS
}

proof fn lemma_client_totals_bounds(batch: Seq<ActivityLog>, b: int, c: Seq<char>)
    ensures
        0 <= client_totals(batch, b, c).0 <= batch.len(),
        0 <= client_totals(batch, b, c).1 <= batch.len(),
        0 <= client_totals(batch, b, c).2 <= batch.len(),
        0 <= client_totals(batch, b, c).3 <= batch.len(),
    decreases batch.len(),
{
    if batch.len() > 0 {
        lemma_client_totals_bounds(batch.drop_last(), b, c);
    }
}

proof fn lemma_domain_totals_bounds(batch: Seq<ActivityLog>, b: int, q: Seq<char>)
    ensures
        0 <= domain_totals(batch, b, q).0 <= batch.len(),
        0 <= domain_totals(batch, b, q).1 <= batch.len(),
    decreases batch.len(),
{
    if batch.len() > 0 {
        lemma_domain_totals_bounds(batch.drop_last(), b, q);
    }
}

proof fn lemma_client_totals_absent(batch: Seq<ActivityLog>, b: int, c: Seq<char>)
    requires
        forall|k: int| 0 <= k < batch.len() ==> !has_client_key(#[trigger] batch[k], b, c),
    ensures
        client_totals(batch, b, c) == (0int, 0int, 0int, 0int, 0int),
    decreases batch.len(),
{
    if batch.len() > 0 {
        assert(!has_client_key(batch[batch.len() - 1], b, c));
        lemma_client_totals_absent(batch.drop_last(), b, c);
    }
}

proof fn lemma_domain_totals_absent(batch: Seq<ActivityLog>, b: int, q: Seq<char>)
    requires
        forall|k: int| 0 <= k < batch.len() ==> !has_domain_key(#[trigger] batch[k], b, q),
    ensures
        domain_totals(batch, b, q) == (0int, 0int),
    decreases batch.len(),
{
    if batch.len() > 0 {
        assert(!has_domain_key(batch[batch.len() - 1], b, q));
        lemma_domain_totals_absent(batch.drop_last(), b, q);
    }
}

/// The rows of `batch` that fall into the bucket of client `c` starting at `b`.
pub open spec fn client_bucket_rows(batch: Seq<ActivityLog>, b: int, c: Seq<char>) -> Seq<ActivityLog> {
    batch.filter(|e: ActivityLog| has_client_key(e, b, c))
}

/// Those of them that were blocked.
pub open spec fn client_bucket_blocked_rows(batch: Seq<ActivityLog>, b: int, c: Seq<char>) -> Seq<
    ActivityLog,
> {
    batch.filter(|e: ActivityLog| has_client_key(e, b, c) && e.blocked == Some(true))
}

/// Those of them that were answered from cache.
pub open spec fn client_bucket_cached_rows(batch: Seq<ActivityLog>, b: int, c: Seq<char>) -> Seq<
    ActivityLog,
> {
    batch.filter(|e: ActivityLog| has_client_key(e, b, c) && e.cache_hit == Some(true))
}

/// Those of them that record a failed request.
pub open spec fn client_bucket_error_rows(batch: Seq<ActivityLog>, b: int, c: Seq<char>) -> Seq<
    ActivityLog,
> {
    batch.filter(|e: ActivityLog| has_client_key(e, b, c) && e.kind@ == "error"@)
}

/// The counts of a client bucket count its rows: the total is the number of
/// rows in the bucket, `blocked` those with `blocked == Some(true)`, `cached`
/// those with `cache_hit == Some(true)` (whatever their other flags) and
/// `errors` those of kind `"error"`; the summed duration is that of its rows.
pub proof fn lemma_client_totals_count_rows(batch: Seq<ActivityLog>, b: int, c: Seq<char>)
    ensures
        client_totals(batch, b, c).0 == client_bucket_rows(batch, b, c).len(),
        client_totals(batch, b, c).1 == client_bucket_blocked_rows(batch, b, c).len(),
        client_totals(batch, b, c).2 == client_bucket_cached_rows(batch, b, c).len(),
        client_totals(batch, b, c).3 == client_bucket_error_rows(batch, b, c).len(),
        client_totals(batch, b, c).4 == total_duration(client_bucket_rows(batch, b, c)),
    decreases batch.len(),
{
    reveal(Seq::filter);
    if batch.len() > 0 {
        lemma_client_totals_count_rows(batch.drop_last(), b, c);
        let rows = client_bucket_rows(batch.drop_last(), b, c);
        assert(rows.push(batch.last()).drop_last() =~= rows);
    }
}

/// The summed duration of `rows`.
pub open spec fn total_duration(rows: Seq<ActivityLog>) -> int
    decreases rows.len(),
{
    if rows.len() == 0 {
        0
    } else {
        total_duration(rows.drop_last()) + rows.last().dur_ms
    }
}

/// The rows of `batch` that fall into the bucket of domain `q` starting at `b`.
pub open spec fn domain_bucket_rows(batch: Seq<ActivityLog>, b: int, q: Seq<char>) -> Seq<ActivityLog> {
    batch.filter(|e: ActivityLog| has_domain_key(e, b, q))
}

/// Those of them that were blocked.
pub open spec fn domain_bucket_blocked_rows(batch: Seq<ActivityLog>, b: int, q: Seq<char>) -> Seq<
    ActivityLog,
> {
    batch.filter(|e: ActivityLog| has_domain_key(e, b, q) && e.blocked == Some(true))
}

/// The counts of a domain bucket count its rows: the total is the number of
/// rows for that name in the bucket, `blocked` those with `blocked == Some(true)`.
pub proof fn lemma_domain_totals_count_rows(batch: Seq<ActivityLog>, b: int, q: Seq<char>)
    ensures
        domain_totals(batch, b, q).0 == domain_bucket_rows(batch, b, q).len(),
        domain_totals(batch, b, q).1 == domain_bucket_blocked_rows(batch, b, q).len(),
    decreases batch.len(),
{
    reveal(Seq::filter);
    if batch.len() > 0 {
        lemma_domain_totals_count_rows(batch.drop_last(), b, q);
    }
}

/// Each domain bucket that aggregation produces counts the rows of the batch
/// for that name that fall into it, and the blocked ones among them.
pub proof fn lemma_domain_bucket_counts(out: Seq<DomainMetrics>, batch: Seq<ActivityLog>, i: int)
    requires
        domain_buckets_exact(out, batch),
        0 <= i < out.len(),
    ensures
        out[i].total_count == domain_bucket_rows(batch, out[i].bucket_ts as int, out[i].qname@).len(),
        out[i].blocked_count == domain_bucket_blocked_rows(
            batch,
            out[i].bucket_ts as int,
            out[i].qname@,
        ).len(),
{
    lemma_domain_totals_count_rows(batch, out[i].bucket_ts as int, out[i].qname@);
    assert(((out[i]).total_count as int, out[i].blocked_count as int) == domain_totals(
        batch,
        out[i].bucket_ts as int,
        out[i].qname@,
    ));
}

/// Each client bucket that aggregation produces counts the rows of the batch
/// that fall into it: all of them, the blocked ones, the ones answered from
/// cache and the failed ones; its summed duration is that of its rows.
pub proof fn lemma_client_bucket_counts(out: Seq<ClientMetrics>, batch: Seq<ActivityLog>, i: int)
    requires
        client_buckets_exact(out, batch),
        0 <= i < out.len(),
    ensures
        out[i].total_count == client_bucket_rows(batch, out[i].bucket_ts as int, out[i].client@).len(),
        out[i].blocked_count == client_bucket_blocked_rows(
            batch,
            out[i].bucket_ts as int,
            out[i].client@,
        ).len(),
        out[i].cached_count == client_bucket_cached_rows(
            batch,
            out[i].bucket_ts as int,
            out[i].client@,
        ).len(),
        out[i].error_count == client_bucket_error_rows(
            batch,
            out[i].bucket_ts as int,
            out[i].client@,
        ).len(),
        out[i].sum_duration == total_duration(
            client_bucket_rows(batch, out[i].bucket_ts as int, out[i].client@),
        ),
{
    lemma_client_totals_count_rows(batch, out[i].bucket_ts as int, out[i].client@);
    assert(client_metrics_totals(out[i]) == client_totals(
        batch,
        out[i].bucket_ts as int,
        out[i].client@,
    ));
}

/// Whether `e` is a row recording a failed request.
fn row_is_error(e: &ActivityLog) -> (r: bool)
    ensures
        r == is_error_row(*e),
{
    str_eq(e.kind.as_str(), "error")
}

/// Whether an optional flag is set to `true`.
fn is_true(v: Option<bool>) -> (r: bool)
    ensures
        r == (v == Some(true)),
{
    match v {
        Some(b) => b,
        None => false,
    }
}

/// The position of the bucket of `client` starting at `b`, if there is one.
fn find_client_bucket(clients: &Vec<ClientMetrics>, b: i64, client: &str) -> (r: Option<usize>)
    ensures
        r matches Some(j) ==> j < clients@.len() && clients@[j as int].bucket_ts == b
            && clients@[j as int].client@ == client@,
        r is None ==> forall|i: int|
            0 <= i < clients@.len() ==> !((#[trigger] clients@[i]).bucket_ts == b && clients@[i].client@
                == client@),
{
    let n = clients.len();
    let mut j: usize = 0;
    while j < n
        invariant
            n == clients@.len(),
            j <= n,
            forall|i: int|
                0 <= i < j ==> !((#[trigger] clients@[i]).bucket_ts == b && clients@[i].client@
                    == client@),
        decreases n - j,
    {
        if clients[j].bucket_ts == b && str_eq(clients[j].client.as_str(), client) {
            return Some(j);
        }
        j = j + 1;
    }
    None
}

/// Adds row `e` to the client buckets of the rows before it.
fn add_client_row(
    clients: &mut Vec<ClientMetrics>,
    e: &ActivityLog,
    Ghost(prefix): Ghost<Seq<ActivityLog>>,
)
    requires
        client_buckets_exact(old(clients)@, prefix),
        prefix.len() + 1 <= i64::MAX,
        i64::MIN <= client_totals(prefix, bucket_start(e.ts_ms), e.client@).4 + e.dur_ms <= i64::MAX,
    ensures
        client_buckets_exact(final(clients)@, prefix.push(*e)),
{
    let ghost p2 = prefix.push(*e);
    assert(p2.drop_last() =~= prefix);
    assert(p2.last() == *e);
    let b = bucket_start_of(e.ts_ms);
    let n = clients.len();
    let found = find_client_bucket(clients, b, e.client.as_str());
    let j: usize = match found {
        Some(j) => j,
        None => n,
    };
    let ghost old_out = clients@;
    if j < n {
        // The row falls into an existing bucket: add its weights.
        let cur = &clients[j];
        proof {
            lemma_client_totals_bounds(prefix, cur.bucket_ts as int, cur.client@);
            assert(has_client_key(*e, cur.bucket_ts as int, cur.client@));
            assert(client_metrics_totals(old_out[j as int]) == client_totals(
                prefix,
                old_out[j as int].bucket_ts as int,
                old_out[j as int].client@,
            ));
        }
        let updated = ClientMetrics {
            bucket_ts: cur.bucket_ts,
            client: cur.client.clone(),
            total_count: cur.total_count + 1,
            blocked_count: cur.blocked_count + if is_true(e.blocked) {
                1
            } else {
                0
            },
            cached_count: cur.cached_count + if is_true(e.cache_hit) {
                1
            } else {
                0
            },
            error_count: cur.error_count + if row_is_error(e) {
                1
            } else {
                0
            },
            sum_duration: cur.sum_duration + e.dur_ms,
        };
        clients.set(j, updated);
        proof {
            let out = clients@;
            assert forall|i: int| 0 <= i < out.len() implies client_metrics_totals(#[trigger] out[i])
                == client_totals(p2, out[i].bucket_ts as int, out[i].client@) by {
                if i != j {
                    assert(out[i] == old_out[i]);
                    assert(!has_client_key(*e, out[i].bucket_ts as int, out[i].client@));
                }
            }
            assert forall|k: int| 0 <= k < p2.len() implies exists|i: int|
                0 <= i < out.len() && has_client_key(#[trigger] p2[k], out[i].bucket_ts as int, out[i].client@) by {
                if k < prefix.len() {
                    assert(p2[k] == prefix[k]);
                    let i = choose|i: int|
                        0 <= i < old_out.len() && has_client_key(prefix[k], old_out[i].bucket_ts as int, old_out[i].client@);
                    assert(out[i].bucket_ts == old_out[i].bucket_ts && out[i].client@ == old_out[i].client@);
                } else {
                    assert(has_client_key(p2[k], out[j as int].bucket_ts as int, out[j as int].client@));
                }
            }
            assert forall|i: int, i2: int| 0 <= i < i2 < out.len() implies !(out[i].bucket_ts
                == out[i2].bucket_ts && out[i].client@ == out[i2].client@) by {
                assert(out[i].bucket_ts == old_out[i].bucket_ts && out[i].client@ == old_out[i].client@);
                assert(out[i2].bucket_ts == old_out[i2].bucket_ts && out[i2].client@ == old_out[i2].client@);
            }
        }
    } else {
        // The row opens a new bucket.
        proof {
            assert forall|k: int| 0 <= k < prefix.len() implies !has_client_key(
                #[trigger] prefix[k],
                b as int,
                e.client@,
            ) by {
                let i = choose|i: int|
                    0 <= i < old_out.len() && has_client_key(prefix[k], old_out[i].bucket_ts as int, old_out[i].client@);
                assert(!(old_out[i].bucket_ts == b && old_out[i].client@ == e.client@));
            }
            lemma_client_totals_absent(prefix, b as int, e.client@);
        }
        let fresh = ClientMetrics {
            bucket_ts: b,
            client: e.client.clone(),
            total_count: 1,
            blocked_count: if is_true(e.blocked) {
                1
            } else {
                0
            },
            cached_count: if is_true(e.cache_hit) {
                1
            } else {
                0
            },
            error_count: if row_is_error(e) {
                1
            } else {
                0
            },
            sum_duration: e.dur_ms,
        };
        clients.push(fresh);
        proof {
            let out = clients@;
            assert forall|i: int| 0 <= i < out.len() implies client_metrics_totals(#[trigger] out[i])
                == client_totals(p2, out[i].bucket_ts as int, out[i].client@) by {
                if i < old_out.len() {
                    assert(out[i] == old_out[i]);
                    assert(!has_client_key(*e, out[i].bucket_ts as int, out[i].client@));
                }
            }
            assert forall|k: int| 0 <= k < p2.len() implies exists|i: int|
                0 <= i < out.len() && has_client_key(#[trigger] p2[k], out[i].bucket_ts as int, out[i].client@) by {
                if k < prefix.len() {
                    assert(p2[k] == prefix[k]);
                    let i = choose|i: int|
                        0 <= i < old_out.len() && has_client_key(prefix[k], old_out[i].bucket_ts as int, old_out[i].client@);
                    assert(out[i] == old_out[i]);
                } else {
                    assert(has_client_key(p2[k], out[n as int].bucket_ts as int, out[n as int].client@));
                }
            }
            assert forall|i: int, i2: int| 0 <= i < i2 < out.len() implies !(out[i].bucket_ts
                == out[i2].bucket_ts && out[i].client@ == out[i2].client@) by {
                if i2 == n {
                    assert(out[i] == old_out[i]);
                    assert(!has_client_key(*e, old_out[i].bucket_ts as int, old_out[i].client@));
                } else {
                    assert(out[i] == old_out[i]);
                    assert(out[i2] == old_out[i2]);
                }
            }
        }
    }
}

/// The position of the bucket of `qname` starting at `b`, if there is one.
fn find_domain_bucket(domains: &Vec<DomainMetrics>, b: i64, qname: &str) -> (r: Option<usize>)
    ensures
        r matches Some(j) ==> j < domains@.len() && domains@[j as int].bucket_ts == b
            && domains@[j as int].qname@ == qname@,
        r is None ==> forall|i: int|
            0 <= i < domains@.len() ==> !((#[trigger] domains@[i]).bucket_ts == b && domains@[i].qname@
                == qname@),
{
    let n = domains.len();
    let mut j: usize = 0;
    while j < n
        invariant
            n == domains@.len(),
            j <= n,
            forall|i: int|
                0 <= i < j ==> !((#[trigger] domains@[i]).bucket_ts == b && domains@[i].qname@
                    == qname@),
        decreases n - j,
    {
        if domains[j].bucket_ts == b && str_eq(domains[j].qname.as_str(), qname) {
            return Some(j);
        }
        j = j + 1;
    }
    None
}

/// Adds row `e` to the domain buckets of the rows before it.
fn add_domain_row(domains: &mut Vec<DomainMetrics>, e: &ActivityLog, Ghost(prefix): Ghost<Seq<ActivityLog>>)
    requires
        domain_buckets_exact(old(domains)@, prefix),
        prefix.len() + 1 <= i64::MAX,
    ensures
        domain_buckets_exact(final(domains)@, prefix.push(*e)),
{
    let ghost p2 = prefix.push(*e);
    assert(p2.drop_last() =~= prefix);
    assert(p2.last() == *e);
    let ghost old_out = domains@;
    match &e.qname {
        None => {
            proof {
                let out = domains@;
                assert forall|i: int| 0 <= i < out.len() implies ((#[trigger] out[i]).total_count as int,
                    out[i].blocked_count as int) == domain_totals(p2, out[i].bucket_ts as int, out[i].qname@) by {
                    assert(!has_domain_key(*e, out[i].bucket_ts as int, out[i].qname@));
                }
                assert forall|k: int| 0 <= k < p2.len() && (#[trigger] p2[k]).qname is Some implies exists|i: int|
                    0 <= i < out.len() && has_domain_key(p2[k], out[i].bucket_ts as int, out[i].qname@) by {
                    assert(p2[k] == prefix[k]);
                }
            }
        },
        Some(qname) => {
            let b = bucket_start_of(e.ts_ms);
            let n = domains.len();
            let found = find_domain_bucket(domains, b, qname.as_str());
            match found {
                Some(j) => {
                    let cur = &domains[j];
                    proof {
                        lemma_domain_totals_bounds(prefix, cur.bucket_ts as int, cur.qname@);
                        assert(has_domain_key(*e, cur.bucket_ts as int, cur.qname@));
                    }
                    let updated = DomainMetrics {
                        bucket_ts: cur.bucket_ts,
                        qname: cur.qname.clone(),
                        total_count: cur.total_count + 1,
                        blocked_count: cur.blocked_count + if is_true(e.blocked) {
                            1
                        } else {
                            0
                        },
                    };
                    domains.set(j, updated);
                    proof {
                        let out = domains@;
                        assert forall|i: int| 0 <= i < out.len() implies ((#[trigger] out[i]).total_count as int,
                            out[i].blocked_count as int) == domain_totals(p2, out[i].bucket_ts as int, out[i].qname@) by {
                            if i != j {
                                assert(out[i] == old_out[i]);
                                assert(!has_domain_key(*e, out[i].bucket_ts as int, out[i].qname@));
                            }
                        }
                        assert forall|k: int| 0 <= k < p2.len() && (#[trigger] p2[k]).qname is Some implies exists|i: int|
                            0 <= i < out.len() && has_domain_key(p2[k], out[i].bucket_ts as int, out[i].qname@) by {
                            if k < prefix.len() {
                                assert(p2[k] == prefix[k]);
                                let i = choose|i: int|
                                    0 <= i < old_out.len() && has_domain_key(prefix[k], old_out[i].bucket_ts as int, old_out[i].qname@);
                                assert(out[i].bucket_ts == old_out[i].bucket_ts && out[i].qname@ == old_out[i].qname@);
                            } else {
                                assert(has_domain_key(p2[k], out[j as int].bucket_ts as int, out[j as int].qname@));
                            }
                        }
                        assert forall|i: int, i2: int| 0 <= i < i2 < out.len() implies !(out[i].bucket_ts
                            == out[i2].bucket_ts && out[i].qname@ == out[i2].qname@) by {
                            assert(out[i].bucket_ts == old_out[i].bucket_ts && out[i].qname@ == old_out[i].qname@);
                            assert(out[i2].bucket_ts == old_out[i2].bucket_ts && out[i2].qname@ == old_out[i2].qname@);
                        }
                    }
                },
                None => {
                    proof {
                        assert forall|k: int| 0 <= k < prefix.len() implies !has_domain_key(
                            #[trigger] prefix[k],
                            b as int,
                            qname@,
                        ) by {
                            if has_domain_key(prefix[k], b as int, qname@) {
                                let i = choose|i: int|
                                    0 <= i < old_out.len() && has_domain_key(prefix[k], old_out[i].bucket_ts as int, old_out[i].qname@);
                                assert(!(old_out[i].bucket_ts == b && old_out[i].qname@ == qname@));
                            }
                        }
                        lemma_domain_totals_absent(prefix, b as int, qname@);
                    }
                    let fresh = DomainMetrics {
                        bucket_ts: b,
                        qname: qname.clone(),
                        total_count: 1,
                        blocked_count: if is_true(e.blocked) {
                            1
                        } else {
                            0
                        },
                    };
                    domains.push(fresh);
                    proof {
                        let out = domains@;
                        assert forall|i: int| 0 <= i < out.len() implies ((#[trigger] out[i]).total_count as int,
                            out[i].blocked_count as int) == domain_totals(p2, out[i].bucket_ts as int, out[i].qname@) by {
                            if i < old_out.len() {
                                assert(out[i] == old_out[i]);
                                assert(!has_domain_key(*e, out[i].bucket_ts as int, out[i].qname@));
                            }
                        }
                        assert forall|k: int| 0 <= k < p2.len() && (#[trigger] p2[k]).qname is Some implies exists|i: int|
                            0 <= i < out.len() && has_domain_key(p2[k], out[i].bucket_ts as int, out[i].qname@) by {
                            if k < prefix.len() {
                                assert(p2[k] == prefix[k]);
                                let i = choose|i: int|
                                    0 <= i < old_out.len() && has_domain_key(prefix[k], old_out[i].bucket_ts as int, old_out[i].qname@);
                                assert(out[i] == old_out[i]);
                            } else {
                                assert(has_domain_key(p2[k], out[n as int].bucket_ts as int, out[n as int].qname@));
                            }
                        }
                        assert forall|i: int, i2: int| 0 <= i < i2 < out.len() implies !(out[i].bucket_ts
                            == out[i2].bucket_ts && out[i].qname@ == out[i2].qname@) by {
                            if i2 == n {
                                assert(out[i] == old_out[i]);
                            } else {
                                assert(out[i] == old_out[i]);
                                assert(out[i2] == old_out[i2]);
                            }
                        }
                    }
                },
            }
        },
    }
}

/// A bucket that no row's key names holds nothing.
proof fn lemma_missing_bucket_empty(out: Seq<ClientMetrics>, prefix: Seq<ActivityLog>, b: int, c: Seq<char>)
    requires
        client_buckets_exact(out, prefix),
        forall|i: int| 0 <= i < out.len() ==> !((#[trigger] out[i]).bucket_ts == b && out[i].client@ == c),
    ensures
        client_totals(prefix, b, c) == (0int, 0int, 0int, 0int, 0int),
{
    assert forall|k: int| 0 <= k < prefix.len() implies !has_client_key(#[trigger] prefix[k], b, c) by {
        let i = choose|i: int|
            0 <= i < out.len() && has_client_key(prefix[k], out[i].bucket_ts as int, out[i].client@);
        assert(!(out[i].bucket_ts == b && out[i].client@ == c));
    }
    lemma_client_totals_absent(prefix, b, c);
}

/// The per-client and per-domain buckets of a batch of rows: one bucket per
/// one-minute slot and client (and per slot and query name), each holding the
/// counts of the rows that fall into it; or `None` when adding some row to
/// its client bucket would take the bucket's summed duration out of the
/// range of an `i64`. Buckets come in the order their first row comes in the
/// batch.
pub fn try_aggregate_batch(batch: &Vec<ActivityLog>) -> (r: Option<(Vec<ClientMetrics>, Vec<DomainMetrics>)>)
    ensures
        r is Some <==> aggregatable(batch@),
        r matches Some(buckets) ==> client_buckets_exact(buckets.0@, batch@)
            && domain_buckets_exact(buckets.1@, batch@),
{
    let n = batch.len();
    if n as u64 > i64::MAX as u64 {
        return None;
    }
    let mut clients: Vec<ClientMetrics> = Vec::new();
    let mut domains: Vec<DomainMetrics> = Vec::new();
    let mut k: usize = 0;
    assert(batch@.take(0) =~= Seq::<ActivityLog>::empty());
    while k < n
        invariant
            n == batch@.len(),
            n <= i64::MAX,
            k <= n,
            forall|i: int| 0 <= i < k ==> i64::MIN <= #[trigger] running_duration(batch@, i) <= i64::MAX,
            client_buckets_exact(clients@, batch@.take(k as int)),
            domain_buckets_exact(domains@, batch@.take(k as int)),
        decreases n - k,
    {
        let ghost prefix = batch@.take(k as int);
        let e = &batch[k];
        let b = bucket_start_of(e.ts_ms);
        let current: i64 = match find_client_bucket(&clients, b, e.client.as_str()) {
            Some(j) => {
                proof {
                    assert(client_metrics_totals(clients@[j as int]) == client_totals(
                        prefix,
                        clients@[j as int].bucket_ts as int,
                        clients@[j as int].client@,
                    ));
                }
                clients[j].sum_duration
            },
            None => {
                proof {
                    lemma_missing_bucket_empty(clients@, prefix, b as int, e.client@);
                }
                0
            },
        };
        proof {
            assert(batch@.take(k + 1).drop_last() =~= prefix);
            assert(batch@.take(k + 1).last() == batch@[k as int]);
            assert(has_client_key(batch@[k as int], b as int, e.client@));
            assert(running_duration(batch@, k as int) == current + e.dur_ms);
        }
        if current.checked_add(e.dur_ms).is_none() {
            return None;
        }
        add_client_row(&mut clients, e, Ghost(prefix));
        add_domain_row(&mut domains, e, Ghost(prefix));
        assert(prefix.push(*e) =~= batch@.take(k + 1));
        k = k + 1;
    }
    assert(batch@.take(n as int) =~= batch@);
    Some((clients, domains))
}

/// The buckets of a batch of rows that can be aggregated (see
/// [`try_aggregate_batch`]).
pub fn aggregate_batch(batch: &Vec<ActivityLog>) -> (r: (Vec<ClientMetrics>, Vec<DomainMetrics>))
    requires
        aggregatable(batch@),
    ensures
        client_buckets_exact(r.0@, batch@),
        domain_buckets_exact(r.1@, batch@),
{
    try_aggregate_batch(batch).unwrap()
}

/// Whether the rows can be aggregated without overflow.
pub fn is_aggregatable(batch: &Vec<ActivityLog>) -> (r: bool)
    ensures
        r == aggregatable(batch@),
{
    try_aggregate_batch(batch).is_some()
}

} // verus!
