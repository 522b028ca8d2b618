//! Pages of results.

use vstd::prelude::*;

verus! {

/// The page size where none is asked for.
pub const DEFAULT_PER_PAGE: u32 = 50;

/// The largest page size.
pub const MAX_PER_PAGE: u32 = 1000;

/// Which page a caller asks for, and how large.
#[derive(Clone, Copy, Debug, PartialEq, Eq, Structural)]
pub struct PaginationParams {
    pub page: Option<u32>,
    pub per_page: Option<u32>,
}

/// One page of results, with the totals where they are known.
#[derive(Debug)]
pub struct PaginatedResponse<T> {
    pub data: Vec<T>,
    pub page: u32,
    pub per_page: u32,
    pub total_count: Option<u64>,
    pub total_pages: Option<u32>,
}

/// The number of pages that `count` items fill at `per_page` items a page:
/// the quotient rounded up, and no more than `u32::MAX`. With a page size of
/// zero no item fits on any page: `u32::MAX` pages, or none where there is no
/// item.
pub open spec fn page_count(count: nat, per_page: nat) -> nat {
    if per_page == 0 {
        if count == 0 {
            0
        } else {
            u32::MAX as nat
        }
    } else {
        let pages = (count + per_page - 1) / (per_page as int);
        if pages > u32::MAX {
            u32::MAX as nat
        } else {
            pages as nat
        }
    }
}

impl PaginationParams {
    /// The page number: 1 where none was given.
    pub open spec fn spec_page(self) -> u32 {
        match self.page {
            Some(p) => p,
            None => 1,
        }
    }

    /// The page size: 50 where none was given, and never above 1000.
    pub open spec fn spec_per_page(self) -> u32 {
        match self.per_page {
            Some(n) => if n <= MAX_PER_PAGE {
                n
            } else {
                MAX_PER_PAGE
            },
            None => DEFAULT_PER_PAGE,
        }
    }

    /// The number of items before the page; page 0 starts where page 1 does.
    pub open spec fn spec_offset(self) -> int {
        if self.spec_page() >= 1 {
            (self.spec_page() - 1) * self.spec_per_page()
        } else {
            0
        }
    }

    /// Parameters that ask for nothing in particular.
    pub fn new() -> (p: Self)
        ensures
            p.page is None,
            p.per_page is None,
    {
        PaginationParams { page: None, per_page: None }
    }

    /// The page number.
    pub fn page(&self) -> (r: u32)
        ensures
            r == self.spec_page(),
    {
        match self.page {
            Some(p) => p,
            None => 1,
        }
    }

    /// The page size.
    pub fn per_page(&self) -> (r: u32)
        ensures
            r == self.spec_per_page(),
            r <= MAX_PER_PAGE,
    {
        match self.per_page {
            Some(n) => if n <= MAX_PER_PAGE {
                n
            } else {
                MAX_PER_PAGE
            },
            None => DEFAULT_PER_PAGE,
        }
    }

    /// The number of items to skip. It has to fit in 32 bits.
    pub fn offset(&self) -> (r: u32)
        requires
            self.spec_offset() <= u32::MAX,
        ensures
            r == self.spec_offset(),
    {
        let page = self.page();
        let per_page = self.per_page();
        if page >= 1 {
            let skipped: u64 = (page - 1) as u64 * per_page as u64;
            skipped as u32
        } else {
            0
        }
    }

    /// The number of items to take.
    pub fn limit(&self) -> (r: u32)
        ensures
            r == self.spec_per_page(),
    {
        self.per_page()
    }
}

impl<T> PaginatedResponse<T> {
    /// A page of data under the given parameters.
    pub fn new(data: Vec<T>, params: &PaginationParams, total_count: Option<u64>) -> (r: Self)
        ensures
            r.data == data,
            r.page == params.spec_page(),
            r.per_page == params.spec_per_page(),
            r.total_count == total_count,
            r.total_pages == match total_count {
                Some(count) => Some(
                    page_count(count as nat, params.spec_per_page() as nat) as u32,
                ),
                None => None::<u32>,
            },
    {
        let per_page = params.per_page();
        let total_pages = match total_count {
            Some(count) => {
                if per_page == 0 {
                    if count == 0 {
                        Some(0)
                    } else {
                        Some(u32::MAX)
                    }
                } else {
                    let pages: u128 = (count as u128 + per_page as u128 - 1) / per_page as u128;
                    if pages > u32::MAX as u128 {
                        Some(u32::MAX)
                    } else {
                        Some(pages as u32)
                    }
                }
            },
            None => None,
        };
        PaginatedResponse { data, page: params.page(), per_page, total_count, total_pages }
    }
}

} // verus!
