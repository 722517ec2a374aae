//! Search results and pagination.
use vstd::prelude::*;
use crate::arith::{max_int, min_int, trunc_div};
use crate::money::fits_i64;

verus! {

/// The number of pages for `total` items at `per_page` items a page: one page
/// when there are no items, else the quotient rounded up (Rust's division of
/// `total + per_page - 1` by `per_page`).
pub open spec fn total_pages_for(per_page: int, total: int) -> int {
    if total == 0 {
        1
    } else {
        trunc_div(total + per_page - 1, per_page)
    }
}

/// The page count can be computed without overflow or division by zero.
pub open spec fn total_pages_computable(per_page: int, total: int) -> bool {
    total == 0 || {
        &&& per_page != 0
        &&& fits_i64(total + per_page)
        &&& fits_i64(total + per_page - 1)
        &&& !(total + per_page - 1 == i64::MIN && per_page == -1)
    }
}

/// The integers from `a` to `b` inclusive, in increasing order (empty when `a > b`).
pub open spec fn range_incl(a: int, b: int) -> Seq<i64> {
    Seq::new(if a <= b { (b - a + 1) as nat } else { 0 }, |i: int| (a + i) as i64)
}

/// Pagination info.
#[derive(Debug, Clone, Copy, PartialEq, Eq, Structural)]
pub struct Pagination {
    /// Current page (1-indexed).
    pub page: i64,
    /// Items per page.
    pub per_page: i64,
    /// Total number of items.
    pub total: i64,
    /// Total number of pages.
    pub total_pages: i64,
    /// Whether there's a next page.
    pub has_next: bool,
    /// Whether there's a previous page.
    pub has_prev: bool,
}

/// The pagination for a page, a page size and a total.
pub open spec fn pagination_of(page: i64, per_page: i64, total: i64) -> Pagination {
    let tp = total_pages_for(per_page as int, total as int) as i64;
    Pagination { page, per_page, total, total_pages: tp, has_next: page < tp, has_prev: page > 1 }
}

/// The window of page numbers shown with at most `max_visible` entries: all
/// pages when they fit, else a window of `max_visible` pages around the current
/// one, clipped to the first and last pages.
pub open spec fn page_window(p: Pagination, max_visible: usize) -> Seq<i64> {
    if (p.total_pages as usize) <= max_visible {
        range_incl(1, p.total_pages as int)
    } else {
        let half = (max_visible / 2) as int;
        let mv = (max_visible as i64) as int;
        let start = max_int(p.page - half, 1);
        let end = min_int(start + mv - 1, p.total_pages as int);
        range_incl(max_int(end - mv + 1, 1), end)
    }
}

/// The page window can be computed without overflow.
pub open spec fn page_window_computable(p: Pagination, max_visible: usize) -> bool {
    (p.total_pages as usize) <= max_visible || {
        let half = (max_visible / 2) as int;
        let mv = (max_visible as i64) as int;
        let start = max_int(p.page - half, 1);
        let end = min_int(start + mv - 1, p.total_pages as int);
        &&& fits_i64(p.page - half)
        &&& fits_i64(start + mv)
        &&& fits_i64(start + mv - 1)
        &&& fits_i64(end - mv)
        &&& fits_i64(end - mv + 1)
    }
}

/// The integers from `a` to `b` inclusive.
fn inclusive_range(a: i64, b: i64) -> (r: Vec<i64>)
    ensures
        r@ == range_incl(a as int, b as int),
{
    let mut v: Vec<i64> = Vec::new();
    if a > b {
        assert(v@ =~= range_incl(a as int, b as int));
        return v;
    }
    let mut k: i64 = a;
    while k < b
        invariant
            a <= k <= b,
            v@ =~= range_incl(a as int, k as int - 1),
        decreases b - k,
    {
        v.push(k);
        k = k + 1;
    }
    v.push(k);
    assert(v@ =~= range_incl(a as int, b as int));
    v
}

impl Pagination {
    /// Pagination info for a page of `per_page` items out of `total`.
    pub fn new(page: i64, per_page: i64, total: i64) -> (r: Self)
        requires
            total_pages_computable(per_page as int, total as int),
        ensures
            r == pagination_of(page, per_page, total),
    {
        let total_pages: i64 = if total == 0 {
            1
        } else {
            crate::arith::div_toward_zero(total + per_page - 1, per_page)
        };
        Pagination {
            page,
            per_page,
            total,
            total_pages,
            has_next: page < total_pages,
            has_prev: page > 1,
        }
    }

    /// The number of items before the current page.
    pub fn offset(&self) -> (r: i64)
        requires
            fits_i64(self.page - 1),
            fits_i64((self.page - 1) * self.per_page),
        ensures
            r == (self.page - 1) * self.per_page,
    {
        (self.page - 1) * self.per_page
    }

    /// Page numbers for display, at most `max_visible` of them around the current page.
    pub fn page_numbers(&self, max_visible: usize) -> (r: Vec<i64>)
        requires
            page_window_computable(*self, max_visible),
        ensures
            r@ == page_window(*self, max_visible),
    {
        if self.total_pages as usize <= max_visible {
            return inclusive_range(1, self.total_pages);
        }
        let half: usize = max_visible / 2;
        let mv: i64 = max_visible as i64;
        let lo: i64 = self.page - half as i64;
        let start: i64 = if lo >= 1 { lo } else { 1 };
        let hi: i64 = start + mv - 1;
        let end: i64 = if hi <= self.total_pages { hi } else { self.total_pages };
        let lo2: i64 = end - mv + 1;
        let start2: i64 = if lo2 >= 1 { lo2 } else { 1 };
        inclusive_range(start2, end)
    }

    /// Whether this is the first page.
    pub fn is_first(&self) -> (r: bool)
        ensures
            r == (self.page == 1),
    {
        self.page == 1
    }

    /// Whether this is the last page (or past it).
    pub fn is_last(&self) -> (r: bool)
        ensures
            r == (self.page >= self.total_pages),
    {
        self.page >= self.total_pages
    }

    /// The 1-based number of the first item on this page (0 when there are no items).
    pub fn start_item(&self) -> (r: i64)
        requires
            self.total != 0 ==> {
                &&& fits_i64(self.page - 1)
                &&& fits_i64((self.page - 1) * self.per_page)
                &&& fits_i64((self.page - 1) * self.per_page + 1)
            },
        ensures
            r == if self.total == 0 { 0 } else { (self.page - 1) * self.per_page + 1 },
    {
        if self.total == 0 {
            0
        } else {
            (self.page - 1) * self.per_page + 1
        }
    }

    /// The number of the last item on this page, at most the total.
    pub fn end_item(&self) -> (r: i64)
        requires
            fits_i64(self.page * self.per_page),
        ensures
            r == min_int(self.page * self.per_page, self.total as int),
    {
        let e: i64 = self.page * self.per_page;
        if e <= self.total {
            e
        } else {
            self.total
        }
    }
}

impl Default for Pagination {
    fn default() -> (r: Self)
        ensures
            r == pagination_of(1, 24, 0),
    {
        Pagination::new(1, 24, 0)
    }
}

/// Search results container.
#[derive(Debug, Clone)]
pub struct SearchResults<T> {
    /// The result items.
    pub items: Vec<T>,
    /// Pagination info.
    pub pagination: Pagination,
    /// Query time in milliseconds.
    pub query_time_ms: i64,
    /// Facets (if requested).
    pub facets: Vec<Facet>,
}

impl<T> SearchResults<T> {
    /// Results holding these items and pagination, with no facets and no query time.
    pub fn new(items: Vec<T>, pagination: Pagination) -> (r: Self)
        ensures
            r.items == items,
            r.pagination == pagination,
            r.query_time_ms == 0,
            r.facets@.len() == 0,
    {
        SearchResults { items, pagination, query_time_ms: 0, facets: Vec::new() }
    }

    /// Results with no items and the default pagination.
    pub fn empty() -> (r: Self)
        ensures
            r.items@.len() == 0,
            r.pagination == pagination_of(1, 24, 0),
            r.query_time_ms == 0,
            r.facets@.len() == 0,
    {
        SearchResults {
            items: Vec::new(),
            pagination: Pagination::default(),
            query_time_ms: 0,
            facets: Vec::new(),
        }
    }

    /// The same results with this query time.
    pub fn with_query_time(self, ms: i64) -> (r: Self)
        ensures
            r == (SearchResults { query_time_ms: ms, ..self }),
    {
        let mut s = self;
        s.query_time_ms = ms;
        s
    }

    /// The same results with these facets.
    pub fn with_facets(self, facets: Vec<Facet>) -> (r: Self)
        ensures
            r == (SearchResults { facets, ..self }),
    {
        let mut s = self;
        s.facets = facets;
        s
    }

    /// Whether this page has no items.
    pub fn is_empty(&self) -> (r: bool)
        ensures
            r == (self.items@.len() == 0),
    {
        self.items.len() == 0
    }

    /// The number of items on this page.
    pub fn len(&self) -> (r: usize)
        ensures
            r == self.items@.len(),
    {
        self.items.len()
    }
}

impl<T: Default> Default for SearchResults<T> {
    fn default() -> (r: Self)
        ensures
            r.items@.len() == 0,
            r.pagination == pagination_of(1, 24, 0),
            r.query_time_ms == 0,
            r.facets@.len() == 0,
    {
        Self::empty()
    }
}

/// A facet for filtering.
#[derive(Debug, Clone)]
pub struct Facet {
    /// Facet name (e.g., "Category", "Price").
    pub name: String,
    /// Field this facet filters on.
    pub field: String,
    /// Type of facet.
    pub facet_type: FacetType,
    /// Facet values.
    pub values: Vec<FacetValue>,
}

impl Facet {
    /// A new terms facet with no values.
    pub fn terms(name: &str, field: &str) -> (r: Self)
        ensures
            r.name@ == name@,
            r.field@ == field@,
            r.facet_type == FacetType::Terms,
            r.values@.len() == 0,
    {
        Facet {
            name: name.to_string(),
            field: field.to_string(),
            facet_type: FacetType::Terms,
            values: Vec::new(),
        }
    }

    /// Append a value to the facet.
    pub fn add_value(&mut self, value: &str, count: i64, selected: bool)
        ensures
            final(self).values@.len() == old(self).values@.len() + 1,
            final(self).values@.drop_last() == old(self).values@,
            final(self).values@.last().value@ == value@,
            final(self).values@.last().count == count,
            final(self).values@.last().selected == selected,
            *final(self) == (Facet { values: final(self).values, ..*old(self) }),
    {
        self.values.push(FacetValue { value: value.to_string(), count, selected });
        assert(self.values@.drop_last() =~= old(self).values@);
    }
}

/// Type of facet.
#[derive(Debug, Clone, Copy, PartialEq, Eq, Structural, Hash)]
pub enum FacetType {
    /// Discrete values (e.g., categories, colors).
    Terms,
    /// Numeric range (e.g., price).
    Range,
    /// Hierarchical (e.g., nested categories).
    Hierarchy,
}

/// A single facet value.
#[derive(Debug, Clone)]
pub struct FacetValue {
    /// The value.
    pub value: String,
    /// Number of items with this value.
    pub count: i64,
    /// Whether currently selected.
    pub selected: bool,
}


/// The page count is the least number of pages of `per_page` items that holds
/// all `total` items (one page when there are none).
pub proof fn law_total_pages_hold_all(per_page: i64, total: i64)
    requires
        per_page > 0,
        total >= 0,
        total_pages_computable(per_page as int, total as int),
    ensures
        total == 0 ==> total_pages_for(per_page as int, total as int) == 1,
        total > 0 ==> {
            let tp = total_pages_for(per_page as int, total as int);
            &&& (tp - 1) * per_page < total
            &&& total <= tp * per_page
        },
{
    if total > 0 {
        let n = total + per_page - 1;
        let tp = n / per_page as int;
        assert(total_pages_for(per_page as int, total as int) == tp);
        assert((tp - 1) * per_page < total && total <= tp * per_page) by (nonlinear_arith)
            requires
                per_page > 0,
                total > 0,
                n == total + per_page - 1,
                tp == n / per_page as int,
        ;
    }
}

/// The window of page numbers holds the current page, is in increasing order,
/// and has at most `max_visible` pages.
pub proof fn law_page_window_holds_page(p: Pagination, max_visible: usize)
    requires
        1 <= p.page <= p.total_pages <= usize::MAX,
        1 <= max_visible <= i64::MAX,
        page_window_computable(p, max_visible),
    ensures
        page_window(p, max_visible).contains(p.page),
        page_window(p, max_visible).len() <= max_visible,
        forall|i: int, j: int|
            0 <= i < j < page_window(p, max_visible).len() ==> page_window(p, max_visible)[i]
                < page_window(p, max_visible)[j],
{
    let w = page_window(p, max_visible);
    assert((p.total_pages as usize) as int == p.total_pages);
    if (p.total_pages as usize) <= max_visible {
        assert(w[p.page - 1] == p.page);
    } else {
        let half = (max_visible / 2) as int;
        let mv = (max_visible as i64) as int;
        assert(mv == max_visible);
        let start = max_int(p.page - half, 1);
        let end = min_int(start + mv - 1, p.total_pages as int);
        let s2 = max_int(end - mv + 1, 1);
        assert(s2 <= p.page <= end);
        assert(w[p.page - s2] == p.page);
    }
}

/// On every page of a pagination of a positive number of items, the items
/// shown run from `start_item` to `end_item`: a full page, or what is left on
/// the last page, and never past the total.
pub proof fn law_page_items(page: i64, per_page: i64, total: i64)
    requires
        per_page > 0,
        total > 0,
        total_pages_computable(per_page as int, total as int),
        1 <= page <= pagination_of(page, per_page, total).total_pages,
    ensures
        ({
            let start = (page - 1) * per_page + 1;
            let end = min_int(page * per_page, total as int);
            &&& start <= end <= total
            &&& end - start + 1 == min_int(per_page as int, total - (page - 1) * per_page)
        }),
{
    let n = total + per_page - 1;
    let tp = n / per_page as int;
    assert(pagination_of(page, per_page, total).total_pages == tp);
    assert((page - 1) * per_page < total) by (nonlinear_arith)
        requires
            per_page > 0,
            1 <= page <= tp,
            n == total + per_page - 1,
            tp == n / per_page as int,
    ;
    assert(page * per_page == (page - 1) * per_page + per_page) by (nonlinear_arith);
}

} // verus!
