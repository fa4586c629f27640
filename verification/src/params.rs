//! The pagination descriptor: how it is computed from a query, what holds of
//! it, and the navigation links it gives.

use vstd::prelude::*;
use vstd::string::*;
use vstd::arithmetic::div_mod::{lemma_div_plus_one, lemma_fundamental_div_mod};
use crate::error::PaginationError;
use crate::text::{decimal, decimal_string};

verus! {

/// The page that a query without a page number asks for.
pub const DEFAULT_PAGE: u32 = 1;

/// The page size of a query that names none.
pub const DEFAULT_LIMIT: u32 = 10;

/// The smallest page size.
pub const MIN_LIMIT: u32 = 1;

/// The largest page size.
pub const MAX_LIMIT: u32 = 100;

/// The page that a query asks for: the first one where it names none, and
/// never one before the first.
pub open spec fn effective_page(page: Option<u32>) -> int {
    match page {
        None => DEFAULT_PAGE as int,
        Some(p) => if p < 1 {
            1
        } else {
            p as int
        },
    }
}

/// The page size that a query asks for: the default where it names none,
/// else the nearest size in the accepted range.
pub open spec fn effective_limit(limit: Option<u32>) -> int {
    match limit {
        None => DEFAULT_LIMIT as int,
        Some(l) => if l < MIN_LIMIT {
            MIN_LIMIT as int
        } else if l > MAX_LIMIT {
            MAX_LIMIT as int
        } else {
            l as int
        },
    }
}

/// The number of items that precede page `page` when every page holds
/// `limit` items.
pub open spec fn offset_of(page: int, limit: int) -> int {
    (page - 1) * limit
}

/// The number of pages of `limit` items that `total` items fill: none for no
/// items, else `total / limit` rounded up.
pub open spec fn pages_needed(total: int, limit: int) -> int {
    if total == 0 {
        0
    } else {
        (total + limit - 1) / limit
    }
}

/// The link to page `page` of `limit` items under `base`. The base is taken
/// as it is, without escaping.
pub open spec fn page_url(base: Seq<char>, page: nat, limit: nat) -> Seq<char> {
    base + "?page="@ + decimal(page) + "&limit="@ + decimal(limit)
}

/// Why a strict reading refuses a query, if it does: a page before the
/// first, then a page size outside the accepted range, then an offset that
/// does not fit 64 bits.
pub open spec fn rejection(page: Option<u32>, limit: Option<u32>) -> Option<PaginationError> {
    if page == Some(0u32) {
        Some(PaginationError::InvalidPage(0))
    } else if limit is Some && !(MIN_LIMIT <= limit->0 <= MAX_LIMIT) {
        Some(PaginationError::InvalidLimit(limit->0))
    } else if offset_of(effective_page(page), effective_limit(limit)) > u64::MAX {
        Some(PaginationError::Overflow)
    } else {
        None
    }
}

/// Pagination metadata of one page of a result set.
#[derive(Debug, Clone, Copy, PartialEq, Eq, Structural)]
pub struct PaginationParams {
    /// The page, counted from 1.
    pub page: u32,
    /// The number of items per page.
    pub limit: u32,
    /// The number of items that precede the page.
    pub offset: u64,
    /// The number of items over all pages.
    pub total: u64,
    /// The number of pages.
    pub total_pages: u64,
    /// Whether a page follows this one.
    pub has_next: bool,
    /// Whether a page precedes this one.
    pub has_prev: bool,
    /// Whether there is a first page.
    pub has_first: bool,
    /// Whether there is a last page.
    pub has_last: bool,
}

impl PaginationParams {
    /// Whether the descriptor is consistent: page and page size are in range,
    /// and every other field but `total` is what page, page size and total
    /// determine.
    pub open spec fn wf(&self) -> bool {
        &&& self.page >= 1
        &&& MIN_LIMIT <= self.limit <= MAX_LIMIT
        &&& self.offset == offset_of(self.page as int, self.limit as int)
        &&& self.total_pages == pages_needed(self.total as int, self.limit as int)
        &&& self.has_next == (self.page < self.total_pages)
        &&& self.has_prev == (self.page > 1)
        &&& self.has_first == (self.total_pages > 0)
        &&& self.has_last == (self.total_pages > 0)
    }

    /// Whether the descriptor is the one of the query `page`, `limit` over
    /// `total` items, out-of-range values taken as the nearest valid ones.
    pub open spec fn answers(&self, page: Option<u32>, limit: Option<u32>, total: u64) -> bool {
        &&& self.wf()
        &&& self.page == effective_page(page)
        &&& self.limit == effective_limit(limit)
        &&& self.total == total
    }

    /// Fills in the descriptor of page `page` of `limit` items over `total`.
    fn describe(page: u32, limit: u32, total: u64) -> (r: Self)
        requires
            page >= 1,
            MIN_LIMIT <= limit <= MAX_LIMIT,
        ensures
            r.wf(),
            r.page == page,
            r.limit == limit,
            r.total == total,
    {
        proof {
            offset_fits(page, limit);
        }
        let offset: u64 = ((page - 1) as u64) * (limit as u64);
        let total_pages: u64 = if total == 0 {
            0
        } else {
            proof {
                lemma_div_plus_one(total - 1, limit as int);
            }
            (total - 1) / (limit as u64) + 1
        };
        PaginationParams {
            page,
            limit,
            offset,
            total,
            total_pages,
            has_next: (page as u64) < total_pages,
            has_prev: page > 1,
            has_first: total_pages > 0,
            has_last: total_pages > 0,
        }
    }

    /// Computes the descriptor of a query. A missing page is the first, a
    /// missing page size is 10; a page 0 is taken as 1, and a page size
    /// outside 1..=100 as the nearest bound. Never fails.
    pub fn from_query(page: Option<u32>, limit: Option<u32>, total: u64) -> (r: Self)
        ensures
            r.answers(page, limit, total),
            r.offset == (r.page - 1) * r.limit,
            r.has_first == r.has_last,
            r.has_first == (r.total_pages > 0),
    {
        let page: u32 = match page {
            None => DEFAULT_PAGE,
            Some(p) => if p < 1 {
                1
            } else {
                p
            },
        };
        let limit: u32 = match limit {
            None => DEFAULT_LIMIT,
            Some(l) => if l < MIN_LIMIT {
                MIN_LIMIT
            } else if l > MAX_LIMIT {
                MAX_LIMIT
            } else {
                l
            },
        };
        Self::describe(page, limit, total)
    }

    /// Computes the descriptor of a query that must be valid as it stands:
    /// a page 0 and a page size outside 1..=100 are refused, in this order,
    /// instead of being adjusted. Missing values get their defaults. An
    /// offset beyond 64 bits would be refused as an overflow; with 32-bit
    /// page numbers none is, so every query in range succeeds.
    pub fn from_query_strict(page: Option<u32>, limit: Option<u32>, total: u64) -> (r: Result<
        Self,
        PaginationError,
    >)
        ensures
            match rejection(page, limit) {
                Some(e) => r == Err::<Self, PaginationError>(e),
                None => r is Ok && r->Ok_0.answers(page, limit, total),
            },
            r is Ok <==> page != Some(0u32) && (limit is Some ==> MIN_LIMIT <= limit->0
                <= MAX_LIMIT),
    {
        let page: u32 = match page {
            None => DEFAULT_PAGE,
            Some(p) => p,
        };
        if page < 1 {
            return Err(PaginationError::InvalidPage(page));
        }
        let limit: u32 = match limit {
            None => DEFAULT_LIMIT,
            Some(l) => l,
        };
        if limit < MIN_LIMIT || limit > MAX_LIMIT {
            return Err(PaginationError::InvalidLimit(limit));
        }
        proof {
            offset_fits(page, limit);
        }
        match ((page - 1) as u64).checked_mul(limit as u64) {
            None => Err(PaginationError::Overflow),
            Some(_) => Ok(Self::describe(page, limit, total)),
        }
    }

    /// The link to page `page` with this descriptor's page size.
    fn link(&self, base_url: &str, page: u64) -> (url: String)
        ensures
            url@ == page_url(base_url@, page as nat, self.limit as nat),
    {
        let mut url = String::from_str(base_url);
        url.append("?page=");
        let number = decimal_string(page);
        url.append(number.as_str());
        url.append("&limit=");
        let size = decimal_string(self.limit as u64);
        url.append(size.as_str());
        url
    }

    /// The link to the page after this one, or the empty string where
    /// `has_next` is not set.
    pub fn next_page_url(&self, base_url: &str) -> (url: String)
        ensures
            self.has_next ==> url@ == page_url(
                base_url@,
                (self.page + 1) as nat,
                self.limit as nat,
            ),
            !self.has_next ==> url@ == Seq::<char>::empty(),
    {
        if self.has_next {
            self.link(base_url, self.page as u64 + 1)
        } else {
            String::new()
        }
    }

    /// The link to the page before this one, or the empty string where
    /// `has_prev` is not set.
    pub fn prev_page_url(&self, base_url: &str) -> (url: String)
        requires
            self.has_prev ==> self.page >= 1,
        ensures
            self.has_prev ==> url@ == page_url(
                base_url@,
                (self.page - 1) as nat,
                self.limit as nat,
            ),
            !self.has_prev ==> url@ == Seq::<char>::empty(),
    {
        if self.has_prev {
            self.link(base_url, (self.page - 1) as u64)
        } else {
            String::new()
        }
    }

    /// The link to the first page, or the empty string where `has_first` is
    /// not set.
    pub fn first_page_url(&self, base_url: &str) -> (url: String)
        ensures
            self.has_first ==> url@ == page_url(base_url@, 1, self.limit as nat),
            !self.has_first ==> url@ == Seq::<char>::empty(),
    {
        if self.has_first {
            self.link(base_url, 1)
        } else {
            String::new()
        }
    }

    /// The link to the last page, or the empty string where `has_last` is
    /// not set.
    pub fn last_page_url(&self, base_url: &str) -> (url: String)
        ensures
            self.has_last ==> url@ == page_url(
                base_url@,
                self.total_pages as nat,
                self.limit as nat,
            ),
            !self.has_last ==> url@ == Seq::<char>::empty(),
    {
        if self.has_last {
            self.link(base_url, self.total_pages)
        } else {
            String::new()
        }
    }

    /// The link to this page, whatever the flags say.
    pub fn current_page_url(&self, base_url: &str) -> (url: String)
        ensures
            url@ == page_url(base_url@, self.page as nat, self.limit as nat),
    {
        self.link(base_url, self.page as u64)
    }
}

/// The offset of every page that a 32-bit page number can name, at any
/// accepted page size, fits 64 bits: no query overflows.
pub proof fn offset_fits(page: u32, limit: u32)
    requires
        page >= 1,
        MIN_LIMIT <= limit <= MAX_LIMIT,
    ensures
        0 <= offset_of(page as int, limit as int) <= u64::MAX,
{
    assert(0 <= (page - 1) * limit <= 0xFFFF_FFFF * 100) by (nonlinear_arith)
        requires
            0 <= page - 1 <= 0xFFFF_FFFF,
            0 <= limit <= 100,
    ;
}

/// `pages_needed` rounds up: the pages hold all the items, and one page
/// fewer would not.
pub proof fn pages_needed_rounds_up(total: int, limit: int)
    requires
        total >= 0,
        limit >= 1,
    ensures
        pages_needed(total, limit) * limit >= total,
        total > 0 ==> (pages_needed(total, limit) - 1) * limit < total,
{
    if total > 0 {
        let n = pages_needed(total, limit);
        let x = total + limit - 1;
        lemma_fundamental_div_mod(x, limit);
        assert(0 <= x % limit < limit);
        assert(limit * n == n * limit && (n - 1) * limit == n * limit - limit)
            by (nonlinear_arith);
    } else {
        assert(0 * limit == 0);
    }
}

/// There are no pages exactly when there are no items.
pub proof fn no_pages_iff_no_items(total: int, limit: int)
    requires
        total >= 0,
        limit >= 1,
    ensures
        pages_needed(total, limit) == 0 <==> total == 0,
{
    pages_needed_rounds_up(total, limit);
    if total > 0 && pages_needed(total, limit) == 0 {
        assert(0 * limit == 0);
    }
}

/// A consistent descriptor of an empty result set has no pages, and so no
/// next, first or last page; it has a previous page exactly when it is not
/// the first.
pub proof fn empty_result_has_no_pages(p: PaginationParams)
    requires
        p.wf(),
        p.total == 0,
    ensures
        p.total_pages == 0,
        !p.has_next,
        !p.has_first,
        !p.has_last,
        p.has_prev == (p.page > 1),
{
}

/// A consistent descriptor without pages has no next page, and it has pages
/// exactly when there are items.
pub proof fn pages_follow_items(p: PaginationParams)
    requires
        p.wf(),
    ensures
        p.total_pages == 0 <==> p.total == 0,
        p.total_pages == 0 ==> !p.has_next,
        p.has_first == p.has_last,
        p.has_first == (p.total_pages > 0),
{
    no_pages_iff_no_items(p.total as int, p.limit as int);
}

/// A query has one descriptor: two that answer the same query are equal, so
/// computing it again gives the same value.
pub proof fn descriptor_is_determined(
    a: PaginationParams,
    b: PaginationParams,
    page: Option<u32>,
    limit: Option<u32>,
    total: u64,
)
    requires
        a.answers(page, limit, total),
        b.answers(page, limit, total),
    ensures
        a == b,
{
}

/// Adjusting leaves a valid query alone: a page of at least 1 and a page
/// size within the accepted range are taken as they are.
pub proof fn valid_query_is_kept(page: u32, limit: u32)
    requires
        page >= 1,
        MIN_LIMIT <= limit <= MAX_LIMIT,
    ensures
        effective_page(Some(page)) == page,
        effective_limit(Some(limit)) == limit,
        rejection(Some(page), Some(limit)) is None,
{
    offset_fits(page, limit);
}

} // verus!
