//! Paging of listings: untrusted page and limit input becomes a bounded plan,
//! and a result set becomes a page envelope.

use vstd::prelude::*;

verus! {

/// The page served when the caller names none.
pub const DEFAULT_PAGE: i64 = 1;

/// The page size used when the caller names none.
pub const DEFAULT_PAGE_SIZE: i64 = 20;

/// The smallest page size ever served.
pub const MIN_PAGE_SIZE: i64 = 1;

/// The largest page size ever served.
pub const MAX_PAGE_SIZE: i64 = 100;

pub fn default_page() -> (page: i64)
    ensures
        page == DEFAULT_PAGE,
{
    DEFAULT_PAGE
}

pub fn default_limit() -> (limit: i64)
    ensures
        limit == DEFAULT_PAGE_SIZE,
{
    DEFAULT_PAGE_SIZE
}

/// Page and limit as the caller sent them, with an optional name filter.
#[derive(Debug)]
pub struct QueryParams {
    pub page: i64,
    pub limit: i64,
    pub username: Option<String>,
}

/// A page number and a page size that are safe to query with.
#[derive(Clone, Copy, Debug, PartialEq, Eq, Structural)]
pub struct PagePlan {
    pub page: i64,
    pub limit: i64,
}

/// What a listing reports about the page it returns.
#[derive(Clone, Copy, Debug, PartialEq, Eq, Structural)]
pub struct PaginationMeta {
    pub total_in_page: usize,
    pub total: i64,
    pub total_pages: i64,
    pub current_page: i64,
    pub page_size: i64,
}

/// The page that is served for a requested page: never below 1.
pub open spec fn floor_page(raw_page: int) -> int {
    if raw_page < 1 {
        1
    } else {
        raw_page
    }
}

/// The limit that is served for a requested limit: the nearest value within
/// `MIN_PAGE_SIZE ..= MAX_PAGE_SIZE`.
pub open spec fn clamp_limit(raw_limit: int) -> int {
    if raw_limit < MIN_PAGE_SIZE {
        MIN_PAGE_SIZE as int
    } else if raw_limit > MAX_PAGE_SIZE {
        MAX_PAGE_SIZE as int
    } else {
        raw_limit
    }
}

/// The number of rows that lie before a page, without regard to machine limits.
pub open spec fn rows_before(page: int, limit: int) -> int {
    (page - 1) * limit
}

/// The number of pages that `total` rows fill at `limit` rows a page; an
/// empty listing still has one page.
pub open spec fn page_count(total: int, limit: int) -> int {
    if total <= 0 {
        1
    } else {
        (total + limit - 1) / limit
    }
}

impl PagePlan {
    /// A plan is well formed when its page is positive and its limit is within bounds.
    pub open spec fn wf(self) -> bool {
        &&& self.page >= 1
        &&& MIN_PAGE_SIZE <= self.limit <= MAX_PAGE_SIZE
    }
}

/// Turns untrusted input into a plan: the page is raised to 1 where it is
/// lower, the limit is clamped into `MIN_PAGE_SIZE ..= MAX_PAGE_SIZE`.
pub fn plan(raw_page: i64, raw_limit: i64) -> (p: PagePlan)
    ensures
        p.page == floor_page(raw_page as int),
        p.limit == clamp_limit(raw_limit as int),
        p.wf(),
{
    let page: i64 = if raw_page < 1 { 1 } else { raw_page };
    let limit: i64 = if raw_limit < MIN_PAGE_SIZE {
        MIN_PAGE_SIZE
    } else if raw_limit > MAX_PAGE_SIZE {
        MAX_PAGE_SIZE
    } else {
        raw_limit
    };
    PagePlan { page, limit }
}

/// The offset of a page's first row: `(page - 1) * limit`, held at
/// `i64::MAX` where the product does not fit.
pub fn offset(page: i64, limit: i64) -> (o: i64)
    requires
        page >= 1,
        limit >= 1,
    ensures
        rows_before(page as int, limit as int) <= i64::MAX ==> o == rows_before(
            page as int,
            limit as int,
        ),
        rows_before(page as int, limit as int) > i64::MAX ==> o == i64::MAX,
{
    match (page - 1).checked_mul(limit) {
        Some(o) => o,
        None => {
            assert((page - 1) * limit >= 0) by (nonlinear_arith)
                requires
                    page >= 1,
                    limit >= 1,
            ;
            i64::MAX
        },
    }
}

/// The number of pages of a listing: `ceil(total / limit)`, and 1 for an
/// empty listing.
pub fn total_pages(total: i64, limit: i64) -> (n: i64)
    requires
        limit >= 1,
    ensures
        n == page_count(total as int, limit as int),
        n >= 1,
{
    if total <= 0 {
        1
    } else {
        let whole: i64 = total / limit;
        let rest: i64 = total % limit;
        proof {
            lemma_ceil_div(total as int, limit as int);
        }
        if rest == 0 {
            whole
        } else {
            whole + 1
        }
    }
}

/// For positive `total` and `limit`, rounding the quotient up is adding one
/// to it exactly where a remainder is left.
pub proof fn lemma_ceil_div(total: int, limit: int)
    requires
        total > 0,
        limit >= 1,
    ensures
        (total + limit - 1) / limit == total / limit + (if total % limit == 0 {
            0int
        } else {
            1int
        }),
        (total + limit - 1) / limit >= 1,
        total / limit <= total,
        total % limit != 0 ==> total / limit < total,
{
    let q = total / limit;
    let r = total % limit;
    assert(total == q * limit + r && 0 <= r < limit) by (nonlinear_arith)
        requires
            q == total / limit,
            r == total % limit,
            limit >= 1,
    ;
    if r == 0 {
        assert((q * limit + limit - 1) / limit == q) by (nonlinear_arith)
            requires
                limit >= 1,
        ;
    } else {
        assert((q * limit + r + limit - 1) / limit == q + 1) by (nonlinear_arith)
            requires
                limit >= 1,
                0 < r < limit,
        ;
    }
    assert(q >= 0 && q <= total && (r == 0 ==> q >= 1) && (r != 0 ==> q < total)) by (nonlinear_arith)
        requires
            total == q * limit + r,
            0 <= r < limit,
            limit >= 1,
            total > 0,
    ;
}

/// The envelope of one page: how many rows the page holds, how many rows and
/// pages the listing has, and the plan the page was fetched with.
pub fn envelope<T>(items: &Vec<T>, total_count: i64, page: i64, limit: i64) -> (meta:
    PaginationMeta)
    requires
        limit >= 1,
    ensures
        meta.total_in_page == items@.len(),
        meta.total == total_count,
        meta.total_pages == page_count(total_count as int, limit as int),
        meta.current_page == page,
        meta.page_size == limit,
{
    PaginationMeta {
        total_in_page: items.len(),
        total: total_count,
        total_pages: total_pages(total_count, limit),
        current_page: page,
        page_size: limit,
    }
}

impl QueryParams {
    /// The plan for these parameters.
    pub fn plan(&self) -> (p: PagePlan)
        ensures
            p.page == floor_page(self.page as int),
            p.limit == clamp_limit(self.limit as int),
            p.wf(),
    {
        plan(self.page, self.limit)
    }
}

} // verus!
