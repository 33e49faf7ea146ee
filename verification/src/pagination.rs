//! Pagination arithmetic derived for any query-parameter shape that
//! exposes optional `page` and `limit` fields, plus the capability that
//! lets pagination-metadata builders treat such shapes uniformly.

use vstd::prelude::*;

verus! {

/// Query parameters accepted by the generated read and delete handlers:
/// an optional record id plus optional 1-indexed page and page size.
pub struct QueryParams {
    pub id: Option<i64>,
    pub page: Option<u32>,
    pub limit: Option<u32>,
}

/// Capability a type must offer to participate in pagination,
/// independent of its concrete shape.
pub trait Paginable {
    spec fn page_spec(&self) -> Option<u32>;

    spec fn limit_spec(&self) -> Option<u32>;

    fn page(&self) -> (r: Option<u32>)
        ensures
            r == self.page_spec(),
    ;

    fn limit(&self) -> (r: Option<u32>)
        ensures
            r == self.limit_spec(),
    ;
}

impl Paginable for QueryParams {
    open spec fn page_spec(&self) -> Option<u32> {
        self.page
    }

    open spec fn limit_spec(&self) -> Option<u32> {
        self.limit
    }

    fn page(&self) -> (r: Option<u32>) {
        self.page
    }

    fn limit(&self) -> (r: Option<u32>) {
        self.limit
    }
}

/// The value of an optional field, or the given default.
pub open spec fn opt_or(o: Option<u32>, default: u32) -> u32 {
    match o {
        Option::Some(v) => v,
        Option::None => default,
    }
}

/// The SQL OFFSET that a page selection denotes: 0 for page 0 or the
/// first page, otherwise `(page - 1) * limit` (1-indexed paging).
pub open spec fn spec_offset_sql(
    page: Option<u32>,
    limit: Option<u32>,
    default_page: u32,
    default_limit: u32,
) -> int {
    let p = opt_or(page, default_page);
    let l = opt_or(limit, default_limit);
    if p > 0 {
        (p - 1) * l
    } else {
        0
    }
}

impl QueryParams {
    /// The SQL LIMIT value: the explicit limit if set, else the default,
    /// widened to 64 bits.
    pub fn limit_sql(&self, default: u32) -> (r: i64)
        ensures
            r == opt_or(self.limit, default) as i64,
    {
        let l: u32 = match self.limit {
            Option::Some(v) => v,
            Option::None => default,
        };
        l as i64
    }

    /// The SQL OFFSET value for 1-indexed paging: page 1 has offset 0.
    pub fn offset_sql(&self, default_page: u32, default_limit: u32) -> (r: i64)
        requires
            spec_offset_sql(self.page, self.limit, default_page, default_limit) <= u32::MAX,
        ensures
            r == spec_offset_sql(self.page, self.limit, default_page, default_limit),
    {
        let p: u32 = match self.page {
            Option::Some(v) => v,
            Option::None => default_page,
        };
        let l: u32 = match self.limit {
            Option::Some(v) => v,
            Option::None => default_limit,
        };
        if p > 0 {
            ((p - 1) * l) as i64
        } else {
            0
        }
    }

    /// Whether the caller asked for paging at all: true iff either the
    /// page or the limit field is set.
    pub fn is_paged(&self) -> (r: bool)
        ensures
            r == (self.page is Some || self.limit is Some),
    {
        self.page.is_some() || self.limit.is_some()
    }
}

/// Pagination metadata attached to a paged response envelope: the page
/// selection as requested, the total record count, and the configured
/// route path used for link generation.
pub struct Pagination {
    pub page: Option<u32>,
    pub limit: Option<u32>,
    pub total: i64,
    pub route_path: String,
}

impl Pagination {
    /// Builds the metadata from any paginable parameter value, the total
    /// count reported by the backend, and the configured route path.
    pub fn new<P: Paginable>(params: &P, total: i64, route_path: &str) -> (r: Pagination)
        ensures
            r.page == params.page_spec(),
            r.limit == params.limit_spec(),
            r.total == total,
            r.route_path@ == route_path@,
    {
        Pagination { page: params.page(), limit: params.limit(), total, route_path: route_path.to_owned() }
    }
}

} // verus!
