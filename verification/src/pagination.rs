use vstd::prelude::*;

verus! {

/// Page asked for when the query names none.
pub fn default_page() -> (p: i64)
    ensures
        p == 1,
{
    1
}

/// Page size asked for when the query names none.
pub fn default_per_page() -> (n: i64)
    ensures
        n == 20,
{
    20
}

/// Paging asked for by a client (page numbers start at 1; at most 100 items
/// per page are served).
#[derive(Debug, Clone, Copy, PartialEq, Eq)]
pub struct PaginationParams {
    pub page: i64,
    pub per_page: i64,
}

impl PaginationParams {
    /// The paging a query asks for, with the defaults where a value is absent.
    pub fn from_query(page: Option<i64>, per_page: Option<i64>) -> (p: PaginationParams)
        ensures
            p.page == (match page {
                Some(v) => v,
                None => 1,
            }),
            p.per_page == (match per_page {
                Some(v) => v,
                None => 20,
            }),
    {
        let page = match page {
            Some(v) => v,
            None => default_page(),
        };
        let per_page = match per_page {
            Some(v) => v,
            None => default_per_page(),
        };
        PaginationParams { page, per_page }
    }
}

/// The page actually served: its number, its size and how many items come
/// before it.
#[derive(Debug, Clone, Copy, PartialEq, Eq)]
pub struct PageWindow {
    pub page: i64,
    pub per_page: i64,
    pub offset: i64,
}

/// Page size served for a requested one: brought into `1..=100`.
pub open spec fn served_per_page(per_page: i64) -> i64 {
    if per_page < 1 {
        1
    } else if per_page > 100 {
        100
    } else {
        per_page
    }
}

/// Page number served for a requested one: at least 1.
pub open spec fn served_page(page: i64) -> i64 {
    if page < 1 {
        1
    } else {
        page
    }
}

/// Whether the offset of the served page fits in an `i64`.
pub open spec fn window_fits(params: PaginationParams) -> bool {
    (served_page(params.page) - 1) * served_per_page(params.per_page) <= i64::MAX
}

/// The page size served for a requested one.
fn serve_per_page(per_page: i64) -> (r: i64)
    ensures
        r == served_per_page(per_page),
{
    if per_page < 1 {
        1
    } else if per_page > 100 {
        100
    } else {
        per_page
    }
}

/// The page number served for a requested one.
fn serve_page(page: i64) -> (r: i64)
    ensures
        r == served_page(page),
{
    if page < 1 {
        1
    } else {
        page
    }
}

/// The page served for a request: the size clamped to `1..=100`, the page
/// number at least 1, and the offset `(page - 1) * per_page`.
pub fn page_window(params: &PaginationParams) -> (w: PageWindow)
    requires
        window_fits(*params),
    ensures
        w.page == served_page(params.page),
        w.per_page == served_per_page(params.per_page),
        w.offset == (w.page - 1) * w.per_page,
        1 <= params.per_page <= 100 ==> w.per_page == params.per_page,
        params.per_page < 1 ==> w.per_page == 1,
        params.per_page > 100 ==> w.per_page == 100,
        params.page >= 1 ==> w.page == params.page,
        params.page < 1 ==> w.page == 1,
        1 <= w.per_page <= 100,
        w.page >= 1,
        w.offset >= 0,
{
    let per_page: i64 = serve_per_page(params.per_page);
    let page: i64 = serve_page(params.page);
    assert((page - 1) * per_page >= 0) by (nonlinear_arith)
        requires
            page >= 1,
            per_page >= 1,
    ;
    let offset = (page - 1) * per_page;
    PageWindow { page, per_page, offset }
}

/// The page served for a request, or `None` where its offset would not fit
/// in an `i64` (where `page_window` cannot be used).
pub fn try_page_window(params: &PaginationParams) -> (r: Option<PageWindow>)
    ensures
        r is Some <==> window_fits(*params),
        r matches Some(w) ==> w.page == served_page(params.page) && w.per_page == served_per_page(
            params.per_page,
        ) && w.offset == (w.page - 1) * w.per_page,
        r matches Some(w) ==> (1 <= params.per_page <= 100 ==> w.per_page == params.per_page)
            && (params.per_page < 1 ==> w.per_page == 1) && (params.per_page > 100 ==> w.per_page
            == 100) && (params.page >= 1 ==> w.page == params.page) && (params.page < 1 ==> w.page
            == 1),
{
    let per_page: i64 = serve_per_page(params.per_page);
    let page: i64 = serve_page(params.page);
    if page - 1 > i64::MAX / per_page {
        assert((page - 1) * per_page > i64::MAX) by (nonlinear_arith)
            requires
                page - 1 > i64::MAX / per_page,
                per_page >= 1,
        ;
        return None;
    }
    assert((page - 1) * per_page <= i64::MAX) by (nonlinear_arith)
        requires
            page - 1 <= i64::MAX / per_page,
            per_page >= 1,
            page >= 1,
    ;
    Some(page_window(params))
}

} // verus!
