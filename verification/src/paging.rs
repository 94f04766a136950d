//! Offset- and cursor-based paging.

use vstd::prelude::*;

verus! {

/// Offset-based paging: at most `limit` items, after skipping `offset` items
/// from the start of the data set.
pub struct OffsetPaging {
    pub limit: u32,
    pub offset: u32,
}

impl OffsetPaging {
    /// The paging that `new_by_page(page, per_page)` builds.
    pub open spec fn spec_new_by_page(page: u32, per_page: u32) -> OffsetPaging {
        OffsetPaging { limit: per_page, offset: ((page - 1) * per_page) as u32 }
    }

    /// The 1-based number of the page that this paging starts in.
    pub open spec fn page_number(self) -> int {
        self.offset / self.limit + 1
    }

    /// The paging of the page that follows this one.
    pub open spec fn spec_next(self) -> OffsetPaging {
        OffsetPaging { limit: self.limit, offset: (self.offset + self.limit) as u32 }
    }

    pub fn new(limit: u32, offset: u32) -> (paging: Self)
        ensures
            paging.limit == limit,
            paging.offset == offset,
    {
        Self { limit, offset }
    }

    /// The paging of the 1-based `page`, with `per_page` items per page.
    pub fn new_by_page(page: u32, per_page: u32) -> (paging: Self)
        requires
            page >= 1,
            (page - 1) * per_page <= u32::MAX,
        ensures
            paging == Self::spec_new_by_page(page, per_page),
            paging.limit == per_page,
            paging.offset == (page - 1) * per_page,
    {
        Self { limit: per_page, offset: (page - 1) * per_page }
    }

    /// The 1-based page number; an offset that is not a multiple of the
    /// limit rounds down.
    pub fn page(&self) -> (page: u32)
        requires
            self.limit > 0,
            self.offset / self.limit + 1 <= u32::MAX,
        ensures
            page == self.page_number(),
    {
        self.offset / self.limit + 1
    }

    pub fn per_page(&self) -> (per_page: u32)
        ensures
            per_page == self.limit,
    {
        self.limit
    }

    /// The paging of the next page: same limit, offset advanced by it.
    pub fn next(&self) -> (next: Self)
        requires
            self.offset + self.limit <= u32::MAX,
        ensures
            next == self.spec_next(),
            next.limit == self.limit,
            next.offset == self.offset + self.limit,
    {
        Self { limit: self.limit, offset: self.offset + self.limit }
    }
}

/// Paging by page number gives back the page it was built from, and the
/// number of items per page.
pub proof fn lemma_new_by_page_round_trip(page: u32, per_page: u32)
    requires
        page >= 1,
        per_page > 0,
        (page - 1) * per_page <= u32::MAX,
    ensures
        OffsetPaging::spec_new_by_page(page, per_page).page_number() == page,
        OffsetPaging::spec_new_by_page(page, per_page).limit == per_page,
{
    let p = page as int - 1;
    assert(p * per_page / (per_page as int) == p) by (nonlinear_arith)
        requires per_page > 0, p >= 0;
}

/// The page after a page is the next page number, with as many items.
pub proof fn lemma_next_advances_one_page(paging: OffsetPaging)
    requires
        paging.limit > 0,
        paging.offset + paging.limit <= u32::MAX,
    ensures
        paging.spec_next().page_number() == paging.page_number() + 1,
        paging.spec_next().limit == paging.limit,
{
    let o = paging.offset as int;
    let l = paging.limit as int;
    assert((o + l) / l == o / l + 1) by (nonlinear_arith)
        requires l > 0, o >= 0;
}

/// Items fetched with an offset paging, together with that paging.
pub struct OffsetPaged<T> {
    pub items: Vec<T>,
    pub paging: OffsetPaging,
}

impl<T> OffsetPaged<T> {
    pub fn new(items: Vec<T>, paging: OffsetPaging) -> (paged: Self)
        ensures
            paged.items@ == items@,
            paged.paging == paging,
    {
        Self { items, paging }
    }
}

/// Cursor-based paging: the cursor marks where the data set continues.
pub struct CursorPaging<T> {
    pub cursor: T,
}

impl<T> CursorPaging<T> {
    pub fn new(cursor: T) -> (paging: Self)
        ensures
            paging.cursor == cursor,
    {
        Self { cursor }
    }
}

/// Items fetched with a cursor paging, together with that paging.
pub struct CursorPaged<T, C> {
    pub items: Vec<T>,
    pub paging: CursorPaging<C>,
}

impl<T, C> CursorPaged<T, C> {
    pub fn new(items: Vec<T>, paging: CursorPaging<C>) -> (paged: Self)
        ensures
            paged.items@ == items@,
            paged.paging == paging,
    {
        Self { items, paging }
    }
}

} // verus!
