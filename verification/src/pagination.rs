//! Splitting a list into pages for the owner's client and bot lists.

use vstd::prelude::*;

verus! {

/// Clients shown per page.
pub const CLIENTS_PER_PAGE: i64 = 5;

/// Bots shown per page.
pub const BOTS_PER_PAGE: i64 = 5;

/// The page shown for a requested page: the request clamped to the pages
/// that exist, with the range of items on it.
pub struct PageWindow {
    /// The page shown, from 0.
    pub current: i64,
    pub total_pages: i64,
    /// Index of the first item shown.
    pub start: i64,
    /// Index after the last item shown.
    pub end: i64,
    /// Whether there is a page before / after it.
    pub has_prev: bool,
    pub has_next: bool,
}

/// The number of pages for `total` items, `per_page` to a page.
pub open spec fn page_count(total: int, per_page: int) -> int {
    (total + per_page - 1) / per_page
}

/// `page` clamped to `0..=last`.
pub open spec fn clamp_page(page: int, last: int) -> int {
    if page < 0 {
        0
    } else if page > last {
        last
    } else {
        page
    }
}

/// The window of page `page` of `total` items, `per_page` to a page.
pub open spec fn window_of(total: i64, page: i64, per_page: i64) -> PageWindow {
    let n = page_count(total as int, per_page as int);
    let cur = clamp_page(page as int, n - 1);
    let start = cur * per_page;
    PageWindow {
        current: cur as i64,
        total_pages: n as i64,
        start: start as i64,
        end: (if start + per_page < total {
            start + per_page
        } else {
            total as int
        }) as i64,
        has_prev: cur > 0,
        has_next: cur < n - 1,
    }
}

/// The window of page `page` of `total` items (at least one), `per_page`
/// to a page.
pub fn page_window(total: i64, page: i64, per_page: i64) -> (res: PageWindow)
    requires
        total > 0,
        per_page > 0,
        total + per_page - 1 <= i64::MAX,
    ensures
        res.total_pages == page_count(total as int, per_page as int),
        res.current == clamp_page(page as int, res.total_pages - 1),
        res.start == res.current * per_page,
        res.end == if res.start + per_page < total {
            res.start + per_page
        } else {
            total as int
        },
        0 <= res.start < res.end <= total,
        res.has_prev == (res.current > 0),
        res.has_next == (res.current < res.total_pages - 1),
        res == window_of(total, page, per_page),
{
    let total_pages = (total - 1 + per_page) / per_page;
    assert(total_pages >= 1) by (nonlinear_arith)
        requires
            total > 0,
            per_page > 0,
            total_pages == (total + per_page - 1) / (per_page as int),
    ;
    let mut current = if page < 0 {
        0
    } else {
        page
    };
    if current > total_pages - 1 {
        current = total_pages - 1;
    }
    assert(current * per_page < total) by (nonlinear_arith)
        requires
            0 <= current <= total_pages - 1,
            per_page > 0,
            total_pages == (total + per_page - 1) / (per_page as int),
    ;
    assert(current * per_page >= 0) by (nonlinear_arith)
        requires
            0 <= current,
            per_page > 0,
    ;
    let start = current * per_page;
    let end = if start < total - per_page {
        start + per_page
    } else {
        total
    };
    PageWindow {
        current,
        total_pages,
        start,
        end,
        has_prev: current > 0,
        has_next: current < total_pages - 1,
    }
}

/// Every page shown exists and is not empty, and pages hold at most
/// `per_page` items.
pub proof fn law_page_nonempty(total: int, per_page: int, page: int)
    requires
        total > 0,
        per_page > 0,
    ensures
        page_count(total, per_page) >= 1,
        0 <= clamp_page(page, page_count(total, per_page) - 1) * per_page < total,
{
    let n = page_count(total, per_page);
    assert(n >= 1) by (nonlinear_arith)
        requires
            total > 0,
            per_page > 0,
            n == (total + per_page - 1) / (per_page as int),
    ;
    let c = clamp_page(page, n - 1);
    assert(0 <= c * per_page < total) by (nonlinear_arith)
        requires
            0 <= c <= n - 1,
            per_page > 0,
            n == (total + per_page - 1) / (per_page as int),
    ;
}

/// The pages of a list cover it exactly: the first starts at the first
/// item, each page ends where the next one starts, and the last ends at
/// the last item.
pub proof fn law_pages_tile(total: i64, per_page: i64, p: i64)
    requires
        total > 0,
        per_page > 0,
        total + per_page - 1 <= i64::MAX,
        0 <= p < page_count(total as int, per_page as int) - 1,
    ensures
        window_of(total, 0, per_page).start == 0,
        window_of(total, p, per_page).end == window_of(total, (p + 1) as i64, per_page).start,
        window_of(
            total,
            (page_count(total as int, per_page as int) - 1) as i64,
            per_page,
        ).end == total,
{
    let n = page_count(total as int, per_page as int);
    assert(n >= 1) by (nonlinear_arith)
        requires
            total > 0,
            per_page > 0,
            n == (total + per_page - 1) / (per_page as int),
    ;
    assert((p + 1) * per_page < total) by (nonlinear_arith)
        requires
            0 <= p < n - 1,
            per_page > 0,
            n == (total + per_page - 1) / (per_page as int),
    ;
    assert(p * per_page + per_page == (p + 1) * per_page) by (nonlinear_arith);
    assert((n - 1) * per_page + per_page >= total) by (nonlinear_arith)
        requires
            per_page > 0,
            n == (total + per_page - 1) / (per_page as int),
    ;
    assert(0 <= (n - 1) * per_page) by (nonlinear_arith)
        requires
            n >= 1,
            per_page > 0,
    ;
    assert(p * per_page >= 0) by (nonlinear_arith)
        requires
            p >= 0,
            per_page > 0,
    ;
    assert(clamp_page(0, n - 1) == 0);
    assert(0 * per_page == 0);
}

} // verus!
