//! The cursor of a multi-page listing.
//!
//! A [`Pagination`] value is created once at the start of a multi-page
//! operation, advanced exactly once per fetched page with
//! [`Pagination::set_page_token`], and dropped when [`Pagination::has_next_page`]
//! turns false.

use vstd::prelude::*;

verus! {

/// Cursor state of a paginated listing.
#[derive(Debug)]
pub struct Pagination {
    max_results: Option<u32>,
    page_token: Option<String>,
    is_start: bool,
}

/// Specification-level value of a [`Pagination`].
pub struct PaginationView {
    pub max_results: Option<u32>,
    pub page_token: Option<Seq<char>>,
    pub is_start: bool,
}

impl View for Pagination {
    type V = PaginationView;

    closed spec fn view(&self) -> PaginationView {
        PaginationView {
            max_results: self.max_results,
            page_token: self.page_token.deep_view(),
            is_start: self.is_start,
        }
    }
}

impl PaginationView {
    /// Another page is owed while no page was fetched yet, or while the last
    /// fetched page carried a non-empty continuation token.
    pub open spec fn has_next_page(self) -> bool {
        self.is_start || (self.page_token matches Some(t) && t.len() > 0)
    }

    /// The cursor after recording the continuation token of a fetched page.
    pub open spec fn with_page_token(self, token: Option<Seq<char>>) -> PaginationView {
        PaginationView { max_results: self.max_results, page_token: token, is_start: false }
    }
}

impl Pagination {
    fn new(max_results: Option<u32>, page_token: Option<String>, is_start: bool) -> (r: Self)
        ensures
            r@ == (PaginationView {
                max_results,
                page_token: page_token.deep_view(),
                is_start,
            }),
    {
        Self { max_results, page_token, is_start }
    }

    /// A cursor for the first page, optionally with a page size.
    pub fn from_start(max_results: Option<u32>) -> (r: Self)
        ensures
            r@ == (PaginationView { max_results, page_token: None, is_start: true }),
    {
        Self::new(max_results, None, true)
    }

    /// A cursor resuming from a continuation token of an earlier listing.
    pub fn from_token(max_results: Option<u32>, page_token: String) -> (r: Self)
        ensures
            r@ == (PaginationView {
                max_results,
                page_token: Some(page_token@),
                is_start: false,
            }),
    {
        Self::new(max_results, Some(page_token), false)
    }

    /// The page size this cursor asks each page to be capped at.
    pub fn max_results(&self) -> (r: Option<u32>)
        ensures
            r == self@.max_results,
    {
        self.max_results
    }

    /// The continuation token the next request must carry, if any.
    pub fn page_token(&self) -> (r: Option<&str>)
        ensures
            r.deep_view() == self@.page_token,
    {
        match &self.page_token {
            Some(t) => Some(t.as_str()),
            None => None,
        }
    }

    /// Whether no page was fetched yet.
    pub fn is_start(&self) -> (r: bool)
        ensures
            r == self@.is_start,
    {
        self.is_start
    }

    /// Record the continuation token of a page that was just fetched.
    pub fn set_page_token(&mut self, token: Option<String>)
        ensures
            final(self)@ == old(self)@.with_page_token(token.deep_view()),
    {
        self.is_start = false;
        self.page_token = token;
    }

    /// Whether another page must be fetched.
    pub fn has_next_page(&self) -> (r: bool)
        ensures
            r == self@.has_next_page(),
    {
        self.is_start || (match &self.page_token {
            Some(t) => t.as_str().unicode_len() > 0,
            None => false,
        })
    }

    /// Whether the listing is complete.
    pub fn is_finished(&self) -> (r: bool)
        ensures
            r == !self@.has_next_page(),
    {
        !self.has_next_page()
    }
}

impl Default for Pagination {
    /// A cursor for the first page with no page size.
    fn default() -> (r: Self)
        ensures
            r@ == (PaginationView { max_results: None, page_token: None, is_start: true }),
    {
        Self::new(None, None, true)
    }
}

/// Before the first page is fetched another page is owed, whatever the
/// token holds; once a page's token is recorded, another page is owed iff
/// that token is present and non-empty.
pub proof fn lemma_has_next_page(p: PaginationView, token: Option<Seq<char>>)
    ensures
        p.is_start ==> p.has_next_page(),
        !p.with_page_token(token).is_start,
        p.with_page_token(token).has_next_page() <==> (token matches Some(t) && t.len() > 0),
{
}

} // verus!
