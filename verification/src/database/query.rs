//! A builder for SQL `WHERE` clauses whose values are bound as parameters.

use vstd::prelude::*;
use vstd::string::*;

use super::{SqlValue, SqlValueView};
use crate::text::{decimal, join_with, join_strings, push_decimal};

verus! {

/// What escaping one character for a `LIKE` pattern gives: the escape
/// character and the two wildcards are preceded by a backslash.
pub open spec fn escape_like_char(c: char) -> Seq<char> {
    if c == '\\' {
        seq!['\\', '\\']
    } else if c == '%' {
        seq!['\\', '%']
    } else if c == '_' {
        seq!['\\', '_']
    } else {
        seq![c]
    }
}

/// `s` with every backslash, `%` and `_` escaped by a backslash.
pub open spec fn escape_like_spec(s: Seq<char>) -> Seq<char>
    decreases s.len(),
{
    if s.len() == 0 {
        Seq::empty()
    } else {
        escape_like_spec(s.drop_last()) + escape_like_char(s.last())
    }
}

/// The clause `AND {col} LIKE ?{n} ESCAPE '\'`.
pub open spec fn like_clause(col: Seq<char>, n: nat) -> Seq<char> {
    "AND "@ + col + " LIKE ?"@ + decimal(n) + " ESCAPE '\\'"@
}

/// The clause `AND {col} = ?{n}`.
pub open spec fn eq_clause(col: Seq<char>, n: nat) -> Seq<char> {
    "AND "@ + col + " = ?"@ + decimal(n)
}

/// The pattern that matches any text containing `val` literally.
pub open spec fn contains_pattern(val: Seq<char>) -> Seq<char> {
    "%"@ + escape_like_spec(val) + "%"@
}

/// Escapes backslashes, `%` and `_` so that `s` matches itself in a `LIKE` pattern.
pub fn escape_like(s: &str) -> (r: String)
    ensures
        r@ == escape_like_spec(s@),
{
    let n = s.unicode_len();
    let mut out = String::new();
    let mut i: usize = 0;
    while i < n
        invariant
            n == s@.len(),
            i <= n,
            out@ == escape_like_spec(s@.subrange(0, i as int)),
        decreases n - i,
    {
        let c = s.get_char(i);
        proof {
            reveal_strlit("\\\\");
            reveal_strlit("\\%");
            reveal_strlit("\\_");
        }
        if c == '\\' {
            out.append("\\\\");
        } else if c == '%' {
            out.append("\\%");
        } else if c == '_' {
            out.append("\\_");
        } else {
            out.append(s.substring_char(i, i + 1));
        }
        assert(s@.subrange(0, i + 1).drop_last() =~= s@.subrange(0, i as int));
        assert(s@.subrange(0, i + 1).last() == c);
        assert("\\\\"@ =~= seq!['\\', '\\']);
        assert("\\%"@ =~= seq!['\\', '%']);
        assert("\\_"@ =~= seq!['\\', '_']);
        assert(s@.subrange(i as int, i + 1) =~= seq![c]);
        i = i + 1;
    }
    assert(s@.subrange(0, n as int) =~= s@);
    out
}

/// Accumulates `AND ...` clauses and the parameters they bind. Parameter
/// placeholders are numbered from `param_offset + 1` upwards.
pub struct WhereBuilder {
    /// Offset for parameter indices.
    param_offset: usize,
    /// Accumulated clauses (e.g. "AND col = ?1").
    clauses: Vec<String>,
    /// Parameters corresponding to the clauses.
    params: Vec<SqlValue>,
}

impl WhereBuilder {
    /// The offset added to every placeholder number.
    pub closed spec fn offset(&self) -> nat {
        self.param_offset as nat
    }

    /// The clauses added so far, in order.
    pub closed spec fn clauses_view(&self) -> Seq<Seq<char>> {
        self.clauses@.map_values(|c: String| c@)
    }

    /// The parameters bound so far, in order.
    pub closed spec fn params_view(&self) -> Seq<SqlValueView> {
        self.params@.map_values(|v: SqlValue| v@)
    }

    /// An empty builder whose placeholders start after `param_offset`.
    pub fn new(param_offset: usize) -> (b: Self)
        ensures
            b.offset() == param_offset,
            b.clauses_view() == Seq::<Seq<char>>::empty(),
            b.params_view() == Seq::<SqlValueView>::empty(),
    {
        let b = Self { param_offset, clauses: Vec::new(), params: Vec::new() };
        assert(b.clauses_view() =~= Seq::<Seq<char>>::empty());
        assert(b.params_view() =~= Seq::<SqlValueView>::empty());
        b
    }

    /// Adds `AND {col} LIKE ?n ESCAPE '\'`, binding a pattern that matches any
    /// value containing `val` literally.
    pub fn like(&mut self, col: &str, val: &str)
        requires
            old(self).offset() + old(self).params_view().len() + 1 <= usize::MAX,
        ensures
            final(self).offset() == old(self).offset(),
            final(self).params_view() == old(self).params_view().push(
                SqlValueView::Text(contains_pattern(val@)),
            ),
            final(self).clauses_view() == old(self).clauses_view().push(
                like_clause(col@, old(self).offset() + old(self).params_view().len() + 1),
            ),
    {
        proof {
            assert(self.params@.len() == self.params_view().len());
        }
        let mut pattern = String::new();
        pattern.append("%");
        let escaped = escape_like(val);
        pattern.append(escaped.as_str());
        pattern.append("%");
        self.params.push(SqlValue::Text(pattern));
        let n = self.param_offset + self.params.len();
        let mut clause = String::new();
        clause.append("AND ");
        clause.append(col);
        clause.append(" LIKE ?");
        push_decimal(&mut clause, n);
        clause.append(" ESCAPE '\\'");
        self.clauses.push(clause);
        proof {
            assert(self.params_view() =~= old(self).params_view().push(
                SqlValueView::Text(contains_pattern(val@)),
            ));
            assert(self.clauses_view() =~= old(self).clauses_view().push(
                like_clause(col@, old(self).offset() + old(self).params_view().len() + 1),
            ));
        }
    }

    /// Adds `AND {col} = ?n`, binding `val`.
    pub fn eq(&mut self, col: &str, val: SqlValue)
        requires
            old(self).offset() + old(self).params_view().len() + 1 <= usize::MAX,
        ensures
            final(self).offset() == old(self).offset(),
            final(self).params_view() == old(self).params_view().push(val@),
            final(self).clauses_view() == old(self).clauses_view().push(
                eq_clause(col@, old(self).offset() + old(self).params_view().len() + 1),
            ),
    {
        proof {
            assert(self.params@.len() == self.params_view().len());
        }
        let ghost v = val@;
        self.params.push(val);
        let n = self.param_offset + self.params.len();
        let mut clause = String::new();
        clause.append("AND ");
        clause.append(col);
        clause.append(" = ?");
        push_decimal(&mut clause, n);
        self.clauses.push(clause);
        proof {
            assert(self.params_view() =~= old(self).params_view().push(v));
            assert(self.clauses_view() =~= old(self).clauses_view().push(
                eq_clause(col@, old(self).offset() + old(self).params_view().len() + 1),
            ));
        }
    }

    /// Adds a clause as written, binding nothing.
    pub fn raw(&mut self, clause: &str)
        ensures
            final(self).offset() == old(self).offset(),
            final(self).params_view() == old(self).params_view(),
            final(self).clauses_view() == old(self).clauses_view().push(clause@),
    {
        self.clauses.push(clause.to_owned());
        proof {
            assert(self.clauses_view() =~= old(self).clauses_view().push(clause@));
        }
    }

    /// The clauses joined by single spaces, and the parameters in binding order.
    pub fn build(self) -> (r: (String, Vec<SqlValue>))
        ensures
            r.0@ == join_with(self.clauses_view(), " "@),
            r.1@.map_values(|v: SqlValue| v@) == self.params_view(),
    {
        let joined = join_strings(&self.clauses, " ");
        (joined, self.params)
    }
}

/// The filter of a searchable list: a `LIKE` clause on `column` matching any
/// value that contains `search` literally, numbered after the `LIMIT` and
/// `OFFSET` placeholders `?1` and `?2`; nothing without a search.
pub fn search_where(column: &str, search: Option<&str>) -> (r: (String, Vec<SqlValue>))
    ensures
        search is None ==> r.0@ == Seq::<char>::empty() && r.1@.len() == 0,
        search matches Some(t) ==> r.0@ == like_clause(column@, 3) && r.1@.map_values(|v: SqlValue| v@)
            == seq![SqlValueView::Text(contains_pattern(t@))],
{
    let mut b = WhereBuilder::new(2);
    if let Some(t) = search {
        b.like(column, t);
    }
    let ghost clauses = b.clauses_view();
    let r = b.build();
    proof {
        assert(r.1@.map_values(|v: SqlValue| v@).len() == r.1@.len());
        if search is None {
            assert(join_with(clauses, " "@) =~= Seq::<char>::empty());
        } else {
            assert(clauses.len() == 1);
        }
    }
    r
}

/// The parameters of a paged list: the `LIMIT` and `OFFSET` values, bound to
/// `?1` and `?2`, followed by the filter's values.
pub fn page_params(limit: i64, offset: i64, filter: Vec<SqlValue>) -> (r: Vec<SqlValue>)
    ensures
        r@.map_values(|v: SqlValue| v@) == seq![SqlValueView::Integer(limit), SqlValueView::Integer(offset)]
            + filter@.map_values(|v: SqlValue| v@),
{
    let mut out: Vec<SqlValue> = Vec::new();
    out.push(SqlValue::Integer(limit));
    out.push(SqlValue::Integer(offset));
    let mut rest = filter;
    let ghost orig = rest@;
    let mut tail: Vec<SqlValue> = Vec::new();
    while rest.len() > 0
        invariant
            rest@.len() + tail@.len() == orig.len(),
            rest@ == orig.subrange(0, rest@.len() as int),
            forall|k: int| 0 <= k < tail@.len() ==> tail@[k] == orig[orig.len() - 1 - k],
        decreases rest@.len(),
    {
        let v = rest.pop().unwrap();
        tail.push(v);
    }
    let ghost head = out@;
    while tail.len() > 0
        invariant
            out@.len() >= 2,
            out@.subrange(0, 2) == head,
            out@.len() - 2 + tail@.len() == orig.len(),
            forall|k: int| 0 <= k < tail@.len() ==> tail@[k] == orig[orig.len() - 1 - k],
            forall|k: int| 2 <= k < out@.len() ==> out@[k] == orig[k - 2],
        decreases tail@.len(),
    {
        let v = tail.pop().unwrap();
        out.push(v);
    }
    proof {
        let want = seq![SqlValueView::Integer(limit), SqlValueView::Integer(offset)] + orig.map_values(
            |v: SqlValue| v@,
        );
        let got = out@.map_values(|v: SqlValue| v@);
        assert(got.len() == want.len());
        assert forall|k: int| 0 <= k < got.len() implies got[k] == want[k] by {
            if k < 2 {
                assert(out@[k] == head[k]);
            } else {
                assert(out@[k] == orig[k - 2]);
            }
        }
        assert(got =~= want);
    }
    out
}

} // verus!
