//! Fetching a list page by page.
//!
//! A [`Pager`] makes no request itself. It says which page to ask for next,
//! takes the page that came back, and keeps the items in the order in which
//! they arrived.

use crate::api::types::types::PaginatedResponse;
use vstd::prelude::*;

verus! {

/// The parameters of a request for one page. A parameter that is `None` is
/// left out of the request, and the service applies its default.
#[derive(Debug, Clone, Copy, PartialEq, Eq, Structural)]
pub struct PageRequest {
    pub page_size: Option<usize>,
    pub page: Option<usize>,
}

/// The state of a fetch.
pub struct Paging<T> {
    /// The parameters of the next request.
    pub next: PageRequest,
    /// Whether pages are followed: false where the caller named a page or a
    /// page size, and exactly that one page is asked for.
    pub every_page: bool,
    pub finished: bool,
    /// The items of the pages that have arrived, in order.
    pub items: Seq<T>,
}

impl<T> Paging<T> {
    /// The state before the first request. With neither parameter given, the
    /// fetch starts at page 1 and follows the pages; with either given, it
    /// asks for the one page that they name.
    pub open spec fn start(page_size: Option<usize>, page: Option<usize>) -> Paging<T> {
        if page_size is None && page is None {
            Paging {
                next: PageRequest { page_size: None, page: Some(1usize) },
                every_page: true,
                finished: false,
                items: Seq::empty(),
            }
        } else {
            Paging {
                next: PageRequest { page_size, page },
                every_page: false,
                finished: false,
                items: Seq::empty(),
            }
        }
    }

    /// The request to make in this state, if any.
    pub open spec fn request(self) -> Option<PageRequest> {
        if self.finished {
            None
        } else {
            Some(self.next)
        }
    }

    /// Whether the fetch goes on after `response`: pages are followed, the
    /// page brought items and names a next page, and the page number can
    /// still grow. What the page says of the size of the list plays no part.
    pub open spec fn goes_on(self, response: PaginatedResponse<T>) -> bool {
        &&& self.every_page
        &&& response.continues()
        &&& self.next.page matches Some(page)
        &&& page < usize::MAX
    }

    /// The state after a page has arrived: its items are added, and the next
    /// page is the one after it, by number, or the fetch has finished. A page
    /// that arrives after the fetch has finished changes nothing.
    pub open spec fn on_page(self, response: PaginatedResponse<T>) -> Paging<T> {
        if self.finished {
            self
        } else if self.goes_on(response) {
            Paging {
                next: PageRequest {
                    page_size: self.next.page_size,
                    page: Some((self.next.page->0 + 1) as usize),
                },
                items: self.items + response.items(),
                ..self
            }
        } else {
            Paging { finished: true, items: self.items + response.items(), ..self }
        }
    }
}

/// A fetch in progress.
pub struct Pager<T> {
    next: PageRequest,
    every_page: bool,
    finished: bool,
    items: Vec<T>,
}

impl<T> View for Pager<T> {
    type V = Paging<T>;

    closed spec fn view(&self) -> Paging<T> {
        Paging {
            next: self.next,
            every_page: self.every_page,
            finished: self.finished,
            items: self.items@,
        }
    }
}

impl<T> Pager<T> {
    /// A fetch of every page where neither parameter is given, of the one
    /// page that the parameters name where either is.
    pub fn new(page_size: Option<usize>, page: Option<usize>) -> (pager: Self)
        ensures
            pager@ == Paging::<T>::start(page_size, page),
    {
        if page_size.is_none() && page.is_none() {
            Pager {
                next: PageRequest { page_size: None, page: Some(1) },
                every_page: true,
                finished: false,
                items: Vec::new(),
            }
        } else {
            Pager {
                next: PageRequest { page_size, page },
                every_page: false,
                finished: false,
                items: Vec::new(),
            }
        }
    }

    /// The request to make next; none once the fetch has finished.
    pub fn request(&self) -> (request: Option<PageRequest>)
        ensures
            request == self@.request(),
    {
        if self.finished {
            None
        } else {
            Some(self.next)
        }
    }

    /// Whether the fetch has finished.
    pub fn is_finished(&self) -> (finished: bool)
        ensures
            finished == self@.finished,
    {
        self.finished
    }

    /// The fetch after `response` has arrived.
    pub fn on_page(self, response: PaginatedResponse<T>) -> (next: Self)
        ensures
            next@ == self@.on_page(response),
    {
        if self.finished {
            return self;
        }
        let named_next = response.next.is_some();
        let mut items = self.items;
        let has_items = match response.results {
            Some(results) => {
                let mut results = results;
                let has_items = results.len() > 0;
                items.append(&mut results);
                has_items
            },
            None => {
                assert(items@ + Seq::<T>::empty() =~= items@);
                false
            },
        };
        let following = match self.next.page {
            Some(page) => if self.every_page && has_items && named_next && page < usize::MAX {
                Some(page + 1)
            } else {
                None
            },
            None => None,
        };
        match following {
            Some(page) => Pager {
                next: PageRequest { page_size: self.next.page_size, page: Some(page) },
                every_page: self.every_page,
                finished: false,
                items,
            },
            None => Pager {
                next: self.next,
                every_page: self.every_page,
                finished: true,
                items,
            },
        }
    }

    /// The items of all pages, in order, once the fetch has finished. Before
    /// that, nothing.
    pub fn finish(self) -> (fetched: Option<Vec<T>>)
        ensures
            match fetched {
                Some(items) => self@.finished && items@ == self@.items,
                None => !self@.finished,
            },
    {
        if self.finished {
            Some(self.items)
        } else {
            None
        }
    }
}

/// A page without items, or without the name of a next page, ends the fetch,
/// whatever it says of the size of the list.
pub proof fn lemma_last_page_ends_fetch<T>(state: Paging<T>, response: PaginatedResponse<T>)
    requires
        response.results is None || response.results->0@.len() == 0 || response.next is None,
    ensures
        state.on_page(response).finished,
        state.on_page(response).request() is None,
{
}

/// What a page says of the size of the list decides nothing: two pages that
/// differ in it alone leave the fetch in the same state.
pub proof fn lemma_count_is_advisory<T>(
    state: Paging<T>,
    response: PaginatedResponse<T>,
    count: Option<u32>,
)
    ensures
        state.on_page(PaginatedResponse { count, ..response }) == state.on_page(response),
{
}

/// A page that brought items and names a next page, while pages are
/// followed, is followed by a request for the page after it.
pub proof fn lemma_next_page_is_asked_for<T>(state: Paging<T>, response: PaginatedResponse<T>)
    requires
        !state.finished,
        state.goes_on(response),
    ensures
        state.on_page(response).request() == Some(
            PageRequest {
                page_size: state.next.page_size,
                page: Some((state.next.page->0 + 1) as usize),
            },
        ),
        state.on_page(response).items == state.items + response.items(),
{
}

} // verus!
