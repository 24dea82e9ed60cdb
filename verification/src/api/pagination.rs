//! Offset pagination of list endpoints.

use vstd::prelude::*;

use super::error::{bad_request_error, ApiError};

verus! {

/// The page size used when a request names none.
pub const DEFAULT_TOP: u64 = 25;

/// The largest page a request may ask for.
pub const MAX_TOP: u64 = 1000;

/// The `skip` and `top` query parameters of a list request.
#[derive(Debug, Clone, Copy, PartialEq, Eq)]
pub struct PagedQuery {
    pub skip: Option<u64>,
    pub top: Option<u64>,
}

/// How many items a request skips: none unless it says.
pub open spec fn query_skip(q: PagedQuery) -> u64 {
    match q.skip {
        Some(s) => s,
        None => 0,
    }
}

/// How many items a request asks for: the default page size unless it says,
/// and never more than the largest page.
pub open spec fn query_top(q: PagedQuery) -> u64 {
    let asked = match q.top {
        Some(t) => t,
        None => DEFAULT_TOP,
    };
    if asked < MAX_TOP {
        asked
    } else {
        MAX_TOP
    }
}

/// The page size of a request is the smaller of what it asks for (25 when it
/// asks for nothing) and 1000: a page size up to 1000 is taken as asked, and
/// asking for more than that never gives more.
pub proof fn lemma_page_size_is_capped_request(q: PagedQuery)
    ensures
        q.top is None ==> query_top(q) == 25,
        q.top is Some && q.top->0 <= 1000 ==> query_top(q) == q.top->0,
        q.top is Some && q.top->0 > 1000 ==> query_top(q) == 1000,
        query_top(q) <= 1000,
{
}

impl PagedQuery {
    /// The number of items to skip.
    pub fn skip(&self) -> (s: u64)
        ensures
            s == query_skip(*self),
    {
        match self.skip {
            Some(s) => s,
            None => 0,
        }
    }

    /// The page size: the requested size (25 when none is given), capped at
    /// 1000.
    pub fn top(&self) -> (t: u64)
        ensures
            t == query_top(*self),
            t <= MAX_TOP,
            self.top is None ==> t == 25,
            self.top is Some && self.top->0 <= 1000 ==> t == self.top->0,
            self.top is Some && self.top->0 > 1000 ==> t == 1000,
    {
        let asked = match self.top {
            Some(t) => t,
            None => DEFAULT_TOP,
        };
        if asked < MAX_TOP {
            asked
        } else {
            MAX_TOP
        }
    }

    /// The page window as the database takes it (`LIMIT`, `OFFSET`), or a bad
    /// request when the offset does not fit a signed 64-bit integer.
    pub fn db_window(&self) -> (r: Result<(i64, i64), ApiError>)
        ensures
            r is Ok <==> query_skip(*self) <= i64::MAX,
            r matches Ok((limit, offset)) ==> limit == query_top(*self) && offset == query_skip(*self),
            r matches Err(e) ==> e@ == bad_request_error(),
    {
        let top = self.top();
        let skip = self.skip();
        if skip > (i64::MAX as u64) {
            return Err(ApiError::bad_request());
        }
        Ok((top as i64, skip as i64))
    }
}

/// The offset just past the items of a page: `skip + len`, saturating.
pub open spec fn next_offset_of(skip: u64, len: nat) -> u64 {
    if skip + len > u64::MAX {
        u64::MAX
    } else {
        (skip + len) as u64
    }
}

/// One page of a list, with where the next page starts and whether there is one.
#[derive(Debug, Clone, PartialEq, Eq)]
pub struct PagedResponse<T> {
    pub items: Vec<T>,
    pub total: u64,
    pub top: u64,
    pub skip: u64,
    pub has_more: bool,
    pub next_offset: u64,
}

impl<T> PagedResponse<T> {
    /// The page holding `items`, taken at offset `skip` with page size `top`
    /// out of `total` items. More items follow exactly when the next offset is
    /// still below the total.
    pub fn new(items: Vec<T>, total: u64, top: u64, skip: u64) -> (r: Self)
        ensures
            r.items@ == items@,
            r.total == total,
            r.top == top,
            r.skip == skip,
            r.next_offset == next_offset_of(skip, items@.len()),
            r.has_more == (r.next_offset < total),
    {
        let len = items.len() as u64;
        let next_offset = if skip > u64::MAX - len {
            u64::MAX
        } else {
            skip + len
        };
        let has_more = next_offset < total;
        PagedResponse { items, total, top, skip, has_more, next_offset }
    }
}

} // verus!
