//! The pagination driver: aggregating a multi-page listing.
//!
//! An [`Aggregator`] owns the cursor of one multi-page operation. The
//! caller fetches one page at a time wherever it fetches pages, and hands
//! each page in with [`Aggregator::accept_page`]; the aggregator appends
//! the page's items in order, advances the cursor, and enforces a page cap
//! so that a server handing out non-empty tokens forever cannot keep the
//! loop alive. On any fetch error the caller drops the aggregator, so a
//! failed operation keeps no partial result.

use vstd::prelude::*;

verus! {

use crate::error::DeltaSharingError;
use crate::error::DeltaSharingErrorView;
use crate::error::ErrorKindView;
use crate::pagination::Pagination;
use crate::pagination::PaginationView;
use crate::response::views_of;
use crate::response::ListResponse;
use crate::response::ListResponseView;

/// The aggregation state of one multi-page listing.
pub struct Aggregator<T> {
    items: Vec<T>,
    cursor: Pagination,
    pages_fetched: u32,
    max_pages: u32,
}

/// Specification-level value of an [`Aggregator`].
pub struct AggregatorView<IV> {
    pub items: Seq<IV>,
    pub cursor: PaginationView,
    pub pages_fetched: u32,
    pub max_pages: u32,
}

impl<T: View> View for Aggregator<T> {
    type V = AggregatorView<T::V>;

    closed spec fn view(&self) -> AggregatorView<T::V> {
        AggregatorView {
            items: views_of(self.items@),
            cursor: self.cursor@,
            pages_fetched: self.pages_fetched,
            max_pages: self.max_pages,
        }
    }
}

/// The aggregation state at the start of a listing.
pub open spec fn aggregation_start<IV>(max_results: Option<u32>, max_pages: u32) -> AggregatorView<
    IV,
> {
    AggregatorView {
        items: Seq::empty(),
        cursor: PaginationView { max_results, page_token: None, is_start: true },
        pages_fetched: 0,
        max_pages,
    }
}

/// One accepted page: its items are appended in order and the cursor takes
/// its continuation token.
pub open spec fn aggregation_step<IV>(
    a: AggregatorView<IV>,
    page: ListResponseView<IV>,
) -> AggregatorView<IV> {
    AggregatorView {
        items: a.items + page.items,
        cursor: a.cursor.with_page_token(page.next_page_token),
        pages_fetched: (a.pages_fetched + 1) as u32,
        max_pages: a.max_pages,
    }
}

/// The error raised when a listing exceeds its page cap.
pub open spec fn page_cap_error() -> DeltaSharingErrorView {
    DeltaSharingErrorView {
        kind: ErrorKindView::Internal,
        message: "pagination exceeded the page cap"@,
    }
}

impl<T: View> Aggregator<T> {
    /// The aggregation state at the start of a listing, optionally with a
    /// page size, capped at the given number of pages.
    pub fn new(max_results: Option<u32>, max_pages: u32) -> (r: Self)
        ensures
            r@ == aggregation_start::<T::V>(max_results, max_pages),
    {
        let r = Self {
            items: Vec::new(),
            cursor: Pagination::from_start(max_results),
            pages_fetched: 0,
            max_pages,
        };
        proof {
            assert(views_of(r.items@) =~= Seq::<T::V>::empty());
        }
        r
    }

    /// The cursor the next page request must carry.
    pub fn cursor(&self) -> (r: &Pagination)
        ensures
            r@ == self@.cursor,
    {
        &self.cursor
    }

    /// Whether another page must be fetched.
    pub fn has_next_page(&self) -> (r: bool)
        ensures
            r == self@.cursor.has_next_page(),
    {
        self.cursor.has_next_page()
    }

    /// Accept one fetched page, exactly as [`aggregation_step`] describes;
    /// an `Internal` error, leaving the state unchanged, when the page cap
    /// is already spent.
    pub fn accept_page(&mut self, page: ListResponse<T>) -> (r: Result<(), DeltaSharingError>)
        ensures
            match r {
                Ok(_) => old(self)@.pages_fetched < old(self)@.max_pages && final(self)@
                    == aggregation_step(old(self)@, page@),
                Err(e) => old(self)@.pages_fetched >= old(self)@.max_pages && final(self)@ == old(
                    self,
                )@ && e@ == page_cap_error(),
            },
    {
        if self.pages_fetched >= self.max_pages {
            return Err(DeltaSharingError::internal("pagination exceeded the page cap"));
        }
        self.pages_fetched = self.pages_fetched + 1;
        let token = match page.next_page_token() {
            Some(t) => Some(t.to_owned()),
            None => None,
        };
        self.cursor.set_page_token(token);
        let ghost items0 = self.items@;
        let mut new_items = page.into_items();
        let ghost page_items = new_items@;
        self.items.append(&mut new_items);
        proof {
            assert(views_of(items0 + page_items) =~= views_of(items0) + views_of(page_items));
        }
        Ok(())
    }

    /// The aggregated items, in order, once the listing is finished.
    pub fn into_items(self) -> (r: Vec<T>)
        ensures
            views_of(r@) == self@.items,
    {
        self.items
    }
}

/// Aggregating a page of items `a` whose token is non-empty and then a page
/// of items `b` whose token is absent or empty yields `a + b` in that
/// order, and the listing is then finished; a single page accepted at the
/// start state yields its items alone, so a one-page listing and a
/// one-iteration aggregation give the same items.
pub proof fn lemma_aggregation_in_order<IV>(
    max_results: Option<u32>,
    max_pages: u32,
    p1: ListResponseView<IV>,
    p2: ListResponseView<IV>,
)
    requires
        p1.next_page_token matches Some(t) && t.len() > 0,
        match p2.next_page_token {
            Some(t) => t.len() == 0,
            None => true,
        },
    ensures
        aggregation_step(aggregation_start::<IV>(max_results, max_pages), p1).items == p1.items,
        aggregation_step(aggregation_start::<IV>(max_results, max_pages), p1).cursor.has_next_page(),
        aggregation_step(aggregation_step(aggregation_start::<IV>(max_results, max_pages), p1), p2).items
            == p1.items + p2.items,
        !aggregation_step(
            aggregation_step(aggregation_start::<IV>(max_results, max_pages), p1),
            p2,
        ).cursor.has_next_page(),
        aggregation_step(aggregation_start::<IV>(max_results, max_pages), p2).items == p2.items,
{
    assert(aggregation_step(aggregation_start::<IV>(max_results, max_pages), p1).items =~= p1.items);
    assert(aggregation_step(aggregation_start::<IV>(max_results, max_pages), p2).items =~= p2.items);
}

/// An empty page with no continuation token leaves the aggregation empty
/// and finished: no further request is owed.
pub proof fn lemma_empty_page_finishes<IV>(
    max_results: Option<u32>,
    max_pages: u32,
    p: ListResponseView<IV>,
)
    requires
        p.items.len() == 0,
        p.next_page_token is None,
    ensures
        aggregation_step(aggregation_start::<IV>(max_results, max_pages), p).items.len() == 0,
        !aggregation_step(aggregation_start::<IV>(max_results, max_pages), p).cursor.has_next_page(),
{
}

} // verus!
