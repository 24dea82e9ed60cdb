//! The activity log: one row per answered query or per failed request.

use vstd::prelude::*;

use crate::database::query::{eq_clause, WhereBuilder};
use crate::database::{bool_as_int, bool_to_int, SqlValue, SqlValueView};
use crate::text::join_with;

verus! {

/// A row of the activity log. Query rows carry `rcode`, `blocked`,
/// `cache_hit` and `rate_limited`; error rows carry `error_type` and
/// `error_message`.
#[derive(Debug, Clone)]
pub struct ActivityLog {
    pub ts_ms: i64,
    /// `"query"` or `"error"`.
    pub kind: String,
    /// Assigned by the database on insert.
    pub id: i64,
    pub transport: i64,
    pub client: String,
    pub qname: Option<String>,
    pub qtype: Option<i64>,
    pub rcode: Option<i64>,
    pub blocked: Option<bool>,
    pub cache_hit: Option<bool>,
    pub rate_limited: Option<bool>,
    pub dur_ms: i64,
    pub error_type: Option<i64>,
    pub error_message: Option<String>,
}

/// Optional equality filters on the activity log.
#[derive(Debug, Default)]
pub struct ListFilter {
    pub client: Option<String>,
    pub qname: Option<String>,
    pub qtype: Option<i64>,
    pub blocked: Option<bool>,
    pub cache_hit: Option<bool>,
    pub rate_limited: Option<bool>,
    pub error_only: bool,
}

/// One equality term: a column and the value it must equal.
pub type FilterTerm = (Seq<char>, SqlValueView);

/// The term for an optional text column, if it is set.
pub open spec fn text_term(col: Seq<char>, v: Option<String>) -> Seq<FilterTerm> {
    match v {
        Some(s) => seq![(col, SqlValueView::Text(s@))],
        None => Seq::empty(),
    }
}

/// The term for an optional integer column, if it is set.
pub open spec fn int_term(col: Seq<char>, v: Option<i64>) -> Seq<FilterTerm> {
    match v {
        Some(i) => seq![(col, SqlValueView::Integer(i))],
        None => Seq::empty(),
    }
}

/// The term for an optional boolean column (stored as 0 or 1), if it is set.
pub open spec fn bool_term(col: Seq<char>, v: Option<bool>) -> Seq<FilterTerm> {
    match v {
        Some(b) => seq![(col, SqlValueView::Integer(bool_as_int(b)))],
        None => Seq::empty(),
    }
}

/// The equality terms a filter sets, in the order client, qname, qtype,
/// blocked, cache_hit, rate_limited.
pub open spec fn filter_terms(f: &ListFilter) -> Seq<FilterTerm> {
    text_term("client"@, f.client) + text_term("qname"@, f.qname) + int_term("qtype"@, f.qtype)
        + bool_term("blocked"@, f.blocked) + bool_term("cache_hit"@, f.cache_hit) + bool_term(
        "rate_limited"@,
        f.rate_limited,
    )
}

/// The clauses for `terms`, the `i`-th binding placeholder `offset + i + 1`.
pub open spec fn term_clauses(terms: Seq<FilterTerm>, offset: nat) -> Seq<Seq<char>> {
    Seq::new(terms.len(), |i: int| eq_clause(terms[i].0, (offset + i + 1) as nat))
}

/// The values bound by `terms`, in order.
pub open spec fn term_values(terms: Seq<FilterTerm>) -> Seq<SqlValueView> {
    Seq::new(terms.len(), |i: int| terms[i].1)
}

/// The column named by each of `terms`.
pub open spec fn term_columns(terms: Seq<FilterTerm>) -> Seq<Seq<char>> {
    Seq::new(terms.len(), |i: int| terms[i].0)
}

/// The column of an optional filter, if it is set.
pub open spec fn column_if(col: Seq<char>, set: bool) -> Seq<Seq<char>> {
    if set {
        seq![col]
    } else {
        Seq::empty()
    }
}

/// The columns a filter compares, in order.
pub open spec fn filter_columns(f: &ListFilter) -> Seq<Seq<char>> {
    column_if("client"@, f.client is Some) + column_if("qname"@, f.qname is Some) + column_if(
        "qtype"@,
        f.qtype is Some,
    ) + column_if("blocked"@, f.blocked is Some) + column_if("cache_hit"@, f.cache_hit is Some)
        + column_if("rate_limited"@, f.rate_limited is Some)
}

proof fn lemma_filter_columns(f: &ListFilter)
    ensures
        term_columns(filter_terms(f)) == filter_columns(f),
{
    let a = text_term("client"@, f.client);
    let b = text_term("qname"@, f.qname);
    let c = int_term("qtype"@, f.qtype);
    let d = bool_term("blocked"@, f.blocked);
    let e = bool_term("cache_hit"@, f.cache_hit);
    let g = bool_term("rate_limited"@, f.rate_limited);
    assert(term_columns(a) =~= column_if("client"@, f.client is Some));
    assert(term_columns(b) =~= column_if("qname"@, f.qname is Some));
    assert(term_columns(c) =~= column_if("qtype"@, f.qtype is Some));
    assert(term_columns(d) =~= column_if("blocked"@, f.blocked is Some));
    assert(term_columns(e) =~= column_if("cache_hit"@, f.cache_hit is Some));
    assert(term_columns(g) =~= column_if("rate_limited"@, f.rate_limited is Some));
    lemma_term_columns_concat(a, b);
    lemma_term_columns_concat(a + b, c);
    lemma_term_columns_concat(a + b + c, d);
    lemma_term_columns_concat(a + b + c + d, e);
    lemma_term_columns_concat(a + b + c + d + e, g);
}

/// The clauses of two filters are the same text whenever the same filters
/// are set: the values a filter compares with never enter the SQL text, they
/// are only bound as parameters.
pub proof fn lemma_filter_text_ignores_values(f: ListFilter, g: ListFilter, offset: nat)
    requires
        f.client is Some == g.client is Some,
        f.qname is Some == g.qname is Some,
        f.qtype is Some == g.qtype is Some,
        f.blocked is Some == g.blocked is Some,
        f.cache_hit is Some == g.cache_hit is Some,
        f.rate_limited is Some == g.rate_limited is Some,
        f.error_only == g.error_only,
    ensures
        filter_clauses(&f, offset) == filter_clauses(&g, offset),
{
    lemma_filter_columns(&f);
    lemma_filter_columns(&g);
    let tf = filter_terms(&f);
    let tg = filter_terms(&g);
    assert(term_columns(tf) == term_columns(tg));
    assert(term_clauses(tf, offset) =~= term_clauses(tg, offset)) by {
        assert(tf.len() == term_columns(tf).len());
        assert forall|i: int| 0 <= i < tf.len() implies tf[i].0 == tg[i].0 by {
            assert(term_columns(tf)[i] == term_columns(tg)[i]);
        }
    }
}

/// Whether equality term `t` is the one that field of filter `f` sets: its
/// column names a set field, and it compares with that field's value.
pub open spec fn term_of_field(f: &ListFilter, t: FilterTerm) -> bool {
    ||| t.0 == "client"@ && f.client is Some && t.1 == SqlValueView::Text(f.client->0@)
    ||| t.0 == "qname"@ && f.qname is Some && t.1 == SqlValueView::Text(f.qname->0@)
    ||| t.0 == "qtype"@ && f.qtype is Some && t.1 == SqlValueView::Integer(f.qtype->0)
    ||| t.0 == "blocked"@ && f.blocked is Some && t.1 == SqlValueView::Integer(
        bool_as_int(f.blocked->0),
    )
    ||| t.0 == "cache_hit"@ && f.cache_hit is Some && t.1 == SqlValueView::Integer(
        bool_as_int(f.cache_hit->0),
    )
    ||| t.0 == "rate_limited"@ && f.rate_limited is Some && t.1 == SqlValueView::Integer(
        bool_as_int(f.rate_limited->0),
    )
}

proof fn lemma_concat_all_of_field(f: &ListFilter, a: Seq<FilterTerm>, b: Seq<FilterTerm>)
    requires
        forall|i: int| 0 <= i < a.len() ==> term_of_field(f, #[trigger] a[i]),
        forall|i: int| 0 <= i < b.len() ==> term_of_field(f, #[trigger] b[i]),
    ensures
        forall|i: int| 0 <= i < (a + b).len() ==> term_of_field(f, #[trigger] (a + b)[i]),
{
    assert forall|i: int| 0 <= i < (a + b).len() implies term_of_field(f, #[trigger] (a + b)[i]) by {
        if i < a.len() {
            assert((a + b)[i] == a[i]);
        } else {
            assert((a + b)[i] == b[i - a.len()]);
        }
    }
}

proof fn lemma_concat_contains(a: Seq<FilterTerm>, b: Seq<FilterTerm>, t: FilterTerm)
    ensures
        a.contains(t) ==> (a + b).contains(t),
        b.contains(t) ==> (a + b).contains(t),
{
    if a.contains(t) {
        let i = choose|i: int| 0 <= i < a.len() && a[i] == t;
        assert((a + b)[i] == t);
    }
    if b.contains(t) {
        let i = choose|i: int| 0 <= i < b.len() && b[i] == t;
        assert((a + b)[a.len() + i] == t);
    }
}

/// Each set field of a filter compares the column of the same name with its
/// own value, and every comparison comes from such a field: a term on the
/// `client` column exists exactly when the client filter is set, and binds the
/// client, and so on for `qname`, `qtype`, `blocked`, `cache_hit` and
/// `rate_limited`. So a filter with only `qname` set never compares `client`.
pub proof fn lemma_filter_terms_follow_fields(f: &ListFilter)
    ensures
        forall|i: int|
            0 <= i < filter_terms(f).len() ==> term_of_field(f, #[trigger] filter_terms(f)[i]),
        forall|i: int|
            0 <= i < filter_terms(f).len() && (#[trigger] filter_terms(f)[i]).0 == "client"@
                ==> f.client is Some && filter_terms(f)[i].1 == SqlValueView::Text(f.client->0@),
        forall|i: int|
            0 <= i < filter_terms(f).len() && (#[trigger] filter_terms(f)[i]).0 == "qname"@
                ==> f.qname is Some && filter_terms(f)[i].1 == SqlValueView::Text(f.qname->0@),
        forall|i: int|
            0 <= i < filter_terms(f).len() && (#[trigger] filter_terms(f)[i]).0 == "qtype"@
                ==> f.qtype is Some && filter_terms(f)[i].1 == SqlValueView::Integer(f.qtype->0),
        forall|i: int|
            0 <= i < filter_terms(f).len() && (#[trigger] filter_terms(f)[i]).0 == "blocked"@
                ==> f.blocked is Some && filter_terms(f)[i].1 == SqlValueView::Integer(
                bool_as_int(f.blocked->0),
            ),
        forall|i: int|
            0 <= i < filter_terms(f).len() && (#[trigger] filter_terms(f)[i]).0 == "cache_hit"@
                ==> f.cache_hit is Some && filter_terms(f)[i].1 == SqlValueView::Integer(
                bool_as_int(f.cache_hit->0),
            ),
        forall|i: int|
            0 <= i < filter_terms(f).len() && (#[trigger] filter_terms(f)[i]).0 == "rate_limited"@
                ==> f.rate_limited is Some && filter_terms(f)[i].1 == SqlValueView::Integer(
                bool_as_int(f.rate_limited->0),
            ),
        f.client is Some ==> filter_terms(f).contains(
            ("client"@, SqlValueView::Text(f.client->0@)),
        ),
        f.qname is Some ==> filter_terms(f).contains(("qname"@, SqlValueView::Text(f.qname->0@))),
        f.qtype is Some ==> filter_terms(f).contains(("qtype"@, SqlValueView::Integer(f.qtype->0))),
        f.blocked is Some ==> filter_terms(f).contains(
            ("blocked"@, SqlValueView::Integer(bool_as_int(f.blocked->0))),
        ),
        f.cache_hit is Some ==> filter_terms(f).contains(
            ("cache_hit"@, SqlValueView::Integer(bool_as_int(f.cache_hit->0))),
        ),
        f.rate_limited is Some ==> filter_terms(f).contains(
            ("rate_limited"@, SqlValueView::Integer(bool_as_int(f.rate_limited->0))),
        ),
{
    reveal_strlit("client");
    reveal_strlit("qname");
    reveal_strlit("qtype");
    reveal_strlit("blocked");
    reveal_strlit("cache_hit");
    reveal_strlit("rate_limited");
    assert("client"@.len() == 6 && "qname"@.len() == 5 && "qtype"@.len() == 5);
    assert("blocked"@.len() == 7 && "cache_hit"@.len() == 9 && "rate_limited"@.len() == 12);
    assert("qname"@[1] != "qtype"@[1]);
    let a = text_term("client"@, f.client);
    let b = text_term("qname"@, f.qname);
    let c = int_term("qtype"@, f.qtype);
    let d = bool_term("blocked"@, f.blocked);
    let e = bool_term("cache_hit"@, f.cache_hit);
    let g = bool_term("rate_limited"@, f.rate_limited);
    lemma_concat_all_of_field(f, a, b);
    lemma_concat_all_of_field(f, a + b, c);
    lemma_concat_all_of_field(f, a + b + c, d);
    lemma_concat_all_of_field(f, a + b + c + d, e);
    lemma_concat_all_of_field(f, a + b + c + d + e, g);
    let all = filter_terms(f);
    assert(all == a + b + c + d + e + g);
    if f.client is Some {
        let t = ("client"@, SqlValueView::Text(f.client->0@));
        assert(a[0] == t);
        lemma_concat_contains(a, b, t);
        lemma_concat_contains(a + b, c, t);
        lemma_concat_contains(a + b + c, d, t);
        lemma_concat_contains(a + b + c + d, e, t);
        lemma_concat_contains(a + b + c + d + e, g, t);
    }
    if f.qname is Some {
        let t = ("qname"@, SqlValueView::Text(f.qname->0@));
        assert(b[0] == t);
        lemma_concat_contains(a, b, t);
        lemma_concat_contains(a + b, c, t);
        lemma_concat_contains(a + b + c, d, t);
        lemma_concat_contains(a + b + c + d, e, t);
        lemma_concat_contains(a + b + c + d + e, g, t);
    }
    if f.qtype is Some {
        let t = ("qtype"@, SqlValueView::Integer(f.qtype->0));
        assert(c[0] == t);
        lemma_concat_contains(a + b, c, t);
        lemma_concat_contains(a + b + c, d, t);
        lemma_concat_contains(a + b + c + d, e, t);
        lemma_concat_contains(a + b + c + d + e, g, t);
    }
    if f.blocked is Some {
        let t = ("blocked"@, SqlValueView::Integer(bool_as_int(f.blocked->0)));
        assert(d[0] == t);
        lemma_concat_contains(a + b + c, d, t);
        lemma_concat_contains(a + b + c + d, e, t);
        lemma_concat_contains(a + b + c + d + e, g, t);
    }
    if f.cache_hit is Some {
        let t = ("cache_hit"@, SqlValueView::Integer(bool_as_int(f.cache_hit->0)));
        assert(e[0] == t);
        lemma_concat_contains(a + b + c + d, e, t);
        lemma_concat_contains(a + b + c + d + e, g, t);
    }
    if f.rate_limited is Some {
        let t = ("rate_limited"@, SqlValueView::Integer(bool_as_int(f.rate_limited->0)));
        assert(g[0] == t);
        lemma_concat_contains(a + b + c + d + e, g, t);
    }
}

/// The columns of concatenated terms are the columns of each in turn.
proof fn lemma_term_columns_concat(a: Seq<FilterTerm>, b: Seq<FilterTerm>)
    ensures
        term_columns(a + b) == term_columns(a) + term_columns(b),
{
    assert(term_columns(a + b) =~= term_columns(a) + term_columns(b));
}

/// All clauses of a filter: its equality terms, then the error-only restriction.
pub open spec fn filter_clauses(f: &ListFilter, offset: nat) -> Seq<Seq<char>> {
    let eqs = term_clauses(filter_terms(f), offset);
    if f.error_only {
        eqs.push("AND kind = 'error'"@)
    } else {
        eqs
    }
}

/// Adds one equality term to a builder that holds the clauses of `terms`.
fn add_term(b: &mut WhereBuilder, col: &str, val: SqlValue, Ghost(terms): Ghost<Seq<FilterTerm>>)
    requires
        old(b).clauses_view() == term_clauses(terms, old(b).offset()),
        old(b).params_view() == term_values(terms),
        old(b).offset() + terms.len() + 1 <= usize::MAX,
    ensures
        final(b).offset() == old(b).offset(),
        final(b).clauses_view() == term_clauses(terms.push((col@, val@)), old(b).offset()),
        final(b).params_view() == term_values(terms.push((col@, val@))),
{
    let ghost v = val@;
    b.eq(col, val);
    proof {
        assert(b.clauses_view() =~= term_clauses(terms.push((col@, v)), old(b).offset()));
        assert(b.params_view() =~= term_values(terms.push((col@, v))));
    }
}

/// Whether a builder holds exactly the clauses and parameters of `terms`.
pub open spec fn holds_terms(b: &WhereBuilder, terms: Seq<FilterTerm>) -> bool {
    &&& b.clauses_view() == term_clauses(terms, b.offset())
    &&& b.params_view() == term_values(terms)
}

/// Adds the term for an optional text column.
fn add_text_term(b: &mut WhereBuilder, col: &str, v: &Option<String>, Ghost(terms): Ghost<Seq<FilterTerm>>)
    requires
        holds_terms(old(b), terms),
        old(b).offset() + terms.len() + 2 <= usize::MAX,
    ensures
        final(b).offset() == old(b).offset(),
        holds_terms(final(b), terms + text_term(col@, *v)),
{
    if let Some(s) = v {
        add_term(b, col, SqlValue::Text(s.clone()), Ghost(terms));
        assert(terms.push((col@, SqlValueView::Text(s@))) =~= terms + text_term(col@, *v));
    } else {
        assert(terms =~= terms + text_term(col@, *v));
    }
}

/// Adds the term for an optional integer column.
fn add_int_term(b: &mut WhereBuilder, col: &str, v: Option<i64>, Ghost(terms): Ghost<Seq<FilterTerm>>)
    requires
        holds_terms(old(b), terms),
        old(b).offset() + terms.len() + 2 <= usize::MAX,
    ensures
        final(b).offset() == old(b).offset(),
        holds_terms(final(b), terms + int_term(col@, v)),
{
    if let Some(i) = v {
        add_term(b, col, SqlValue::Integer(i), Ghost(terms));
        assert(terms.push((col@, SqlValueView::Integer(i))) =~= terms + int_term(col@, v));
    } else {
        assert(terms =~= terms + int_term(col@, v));
    }
}

/// Adds the term for an optional boolean column.
fn add_bool_term(b: &mut WhereBuilder, col: &str, v: Option<bool>, Ghost(terms): Ghost<Seq<FilterTerm>>)
    requires
        holds_terms(old(b), terms),
        old(b).offset() + terms.len() + 2 <= usize::MAX,
    ensures
        final(b).offset() == old(b).offset(),
        holds_terms(final(b), terms + bool_term(col@, v)),
{
    if let Some(x) = v {
        add_term(b, col, SqlValue::Integer(bool_to_int(x)), Ghost(terms));
        assert(terms.push((col@, SqlValueView::Integer(bool_as_int(x)))) =~= terms + bool_term(
            col@,
            v,
        ));
    } else {
        assert(terms =~= terms + bool_term(col@, v));
    }
}

impl ListFilter {
    /// The `WHERE` clauses for this filter (each starting with `AND`, joined by
    /// spaces) and the values they bind, numbered from `param_offset + 1`.
    pub fn build_where(&self, param_offset: usize) -> (r: (String, Vec<SqlValue>))
        requires
            param_offset + 8 <= usize::MAX,
        ensures
            r.0@ == join_with(filter_clauses(self, param_offset as nat), " "@),
            r.1@.map_values(|v: SqlValue| v@) == term_values(filter_terms(self)),
    {
        let mut b = WhereBuilder::new(param_offset);
        let ghost t0: Seq<FilterTerm> = Seq::empty();
        proof {
            assert(b.clauses_view() =~= term_clauses(t0, param_offset as nat));
            assert(b.params_view() =~= term_values(t0));
        }
        add_text_term(&mut b, "client", &self.client, Ghost(t0));
        let ghost t1 = t0 + text_term("client"@, self.client);
        add_text_term(&mut b, "qname", &self.qname, Ghost(t1));
        let ghost t2 = t1 + text_term("qname"@, self.qname);
        add_int_term(&mut b, "qtype", self.qtype, Ghost(t2));
        let ghost t3 = t2 + int_term("qtype"@, self.qtype);
        add_bool_term(&mut b, "blocked", self.blocked, Ghost(t3));
        let ghost t4 = t3 + bool_term("blocked"@, self.blocked);
        add_bool_term(&mut b, "cache_hit", self.cache_hit, Ghost(t4));
        let ghost t5 = t4 + bool_term("cache_hit"@, self.cache_hit);
        add_bool_term(&mut b, "rate_limited", self.rate_limited, Ghost(t5));
        let ghost t6 = t5 + bool_term("rate_limited"@, self.rate_limited);
        assert(t6 =~= filter_terms(self));
        if self.error_only {
            b.raw("AND kind = 'error'");
        }
        b.build()
    }
}

/// A column the activity log can be sorted by.
#[derive(Debug, Clone, Copy, PartialEq, Eq, Structural)]
pub enum SortColumn {
    Timestamp,
    Client,
    Qname,
    Duration,
}

/// The column name a sort column stands for.
pub open spec fn sort_column_text(c: SortColumn) -> Seq<char> {
    match c {
        SortColumn::Timestamp => "ts_ms"@,
        SortColumn::Client => "client"@,
        SortColumn::Qname => "qname"@,
        SortColumn::Duration => "dur_ms"@,
    }
}

/// Each sort column orders by the activity-log column it names (timestamp by
/// `ts_ms`, client by `client`, qname by `qname`, duration by `dur_ms`), and
/// two different sort columns never order by the same column.
pub proof fn lemma_sort_columns_name_their_column(a: SortColumn, b: SortColumn)
    ensures
        sort_column_text(SortColumn::Timestamp) == "ts_ms"@,
        sort_column_text(SortColumn::Client) == "client"@,
        sort_column_text(SortColumn::Qname) == "qname"@,
        sort_column_text(SortColumn::Duration) == "dur_ms"@,
        a != b ==> sort_column_text(a) != sort_column_text(b),
{
    reveal_strlit("ts_ms");
    reveal_strlit("client");
    reveal_strlit("qname");
    reveal_strlit("dur_ms");
    if a != b {
        let x = sort_column_text(a);
        let y = sort_column_text(b);
        if x.len() == y.len() {
            assert(x[0] != y[0] || x[1] != y[1]);
        }
    }
}

impl SortColumn {
    /// The column name to order by.
    pub fn as_sql(&self) -> (s: &'static str)
        ensures
            s@ == sort_column_text(*self),
            *self == SortColumn::Timestamp ==> s@ == "ts_ms"@,
            *self == SortColumn::Client ==> s@ == "client"@,
            *self == SortColumn::Qname ==> s@ == "qname"@,
            *self == SortColumn::Duration ==> s@ == "dur_ms"@,
    {
        match self {
            SortColumn::Timestamp => "ts_ms",
            SortColumn::Client => "client",
            SortColumn::Qname => "qname",
            SortColumn::Duration => "dur_ms",
        }
    }
}

/// A sort direction.
#[derive(Debug, Clone, Copy, PartialEq, Eq, Structural)]
pub enum SortDir {
    Asc,
    Desc,
}

/// The SQL keyword a sort direction stands for.
pub open spec fn sort_dir_text(d: SortDir) -> Seq<char> {
    match d {
        SortDir::Asc => "ASC"@,
        SortDir::Desc => "DESC"@,
    }
}

/// Ascending order is written `ASC` and descending `DESC`, so the two
/// directions never give the same keyword.
pub proof fn lemma_sort_dirs_differ()
    ensures
        sort_dir_text(SortDir::Asc) == "ASC"@,
        sort_dir_text(SortDir::Desc) == "DESC"@,
        sort_dir_text(SortDir::Asc) != sort_dir_text(SortDir::Desc),
{
    reveal_strlit("ASC");
    reveal_strlit("DESC");
    assert("ASC"@.len() != "DESC"@.len());
}

impl SortDir {
    /// The SQL keyword for this direction.
    pub fn as_sql(&self) -> (s: &'static str)
        ensures
            s@ == sort_dir_text(*self),
            *self == SortDir::Asc ==> s@ == "ASC"@,
            *self == SortDir::Desc ==> s@ == "DESC"@,
    {
        match self {
            SortDir::Asc => "ASC",
            SortDir::Desc => "DESC",
        }
    }
}

/// Totals over the whole activity log.
#[derive(Debug, Clone, Copy, PartialEq, Eq)]
pub struct Stats {
    pub total: i64,
    pub blocked: i64,
    pub cached: i64,
    pub errors: i64,
    pub sum_duration: i64,
}

} // verus!
