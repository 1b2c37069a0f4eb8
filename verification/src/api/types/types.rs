//! The records that the service returns, and the full client configuration.
//!
//! Every field that the service may leave out is an `Option`; nothing here
//! checks or completes a record.

use vstd::prelude::*;
use vstd::string::*;

verus! {

/// Where requests go and how they are limited.
#[derive(Debug, Clone)]
pub struct ReadwiseConfig {
    pub base_url: String,
    pub access_token: String,
    /// Seconds allowed for connecting and for reading.
    pub timeout: u64,
    /// Requests per minute that the service is expected to accept.
    pub rate_limit: u32,
}

/// The base URL of a configuration that was given none.
pub open spec fn default_base_url() -> Seq<char> {
    "https://readwise.io/api/v2"@
}

impl Default for ReadwiseConfig {
    fn default() -> (config: Self)
        ensures
            config.base_url@ == default_base_url(),
            config.access_token@ == Seq::<char>::empty(),
            config.timeout == 30,
            config.rate_limit == 20,
    {
        Self {
            base_url: "https://readwise.io/api/v2".to_owned(),
            access_token: String::new(),
            timeout: 30,
            rate_limit: 20,
        }
    }
}

impl ReadwiseConfig {
    /// The default configuration with `access_token` as its token.
    pub fn new(access_token: String) -> (config: Self)
        ensures
            config.base_url@ == default_base_url(),
            config.access_token == access_token,
            config.timeout == 30,
            config.rate_limit == 20,
    {
        Self {
            base_url: "https://readwise.io/api/v2".to_owned(),
            access_token,
            timeout: 30,
            rate_limit: 20,
        }
    }

    /// The same configuration with another base URL.
    pub fn with_base_url(self, base_url: String) -> (config: Self)
        ensures
            config.base_url == base_url,
            config.access_token == self.access_token,
            config.timeout == self.timeout,
            config.rate_limit == self.rate_limit,
    {
        let mut config = self;
        config.base_url = base_url;
        config
    }

    /// The same configuration with another timeout, in seconds.
    pub fn with_timeout(self, timeout: u64) -> (config: Self)
        ensures
            config.base_url == self.base_url,
            config.access_token == self.access_token,
            config.timeout == timeout,
            config.rate_limit == self.rate_limit,
    {
        let mut config = self;
        config.timeout = timeout;
        config
    }

    /// The base URL followed by `path`, with nothing put between them.
    pub fn endpoint_url(&self, path: &str) -> (url: String)
        ensures
            url@ == self.base_url@ + path@,
    {
        let mut url = self.base_url.clone();
        url.append(path);
        url
    }
}

/// One page of a list, as the service wraps it.
///
/// `count` is what the service says of the whole list and decides nothing
/// here. A page with no `results`, with empty `results`, or with no `next`
/// is the last one.
#[derive(Debug, Clone)]
pub struct PaginatedResponse<T> {
    pub count: Option<u32>,
    pub next: Option<String>,
    pub previous: Option<String>,
    pub results: Option<Vec<T>>,
}

impl<T> PaginatedResponse<T> {
    /// The items of the page; none where `results` is absent.
    pub open spec fn items(self) -> Seq<T> {
        match self.results {
            Some(results) => results@,
            None => Seq::empty(),
        }
    }

    /// Whether the page brought at least one item.
    pub open spec fn has_items(self) -> bool {
        self.items().len() > 0
    }

    /// Whether another page is to be asked for after this one: the page
    /// brought items and names a next page.
    pub open spec fn continues(self) -> bool {
        self.has_items() && self.next is Some
    }
}

/// A highlight to be saved.
#[derive(Debug, Clone)]
pub struct HighlightRequest {
    pub text: String,
    pub title: Option<String>,
    pub author: Option<String>,
    pub source_url: Option<String>,
    pub source_type: Option<String>,
    pub category: Option<String>,
    pub note: Option<String>,
    pub location: Option<i32>,
    pub location_type: Option<String>,
    pub highlighted_at: Option<String>,
    pub highlight_url: Option<String>,
}

/// A highlight. Its tags are asked for by `id`; one without `id` has none
/// to ask for.
#[derive(Debug, Clone)]
pub struct Highlight {
    pub id: Option<u64>,
    pub title: Option<String>,
    pub author: Option<String>,
    pub category: Option<String>,
    pub source: Option<String>,
    pub num_highlights: Option<u32>,
    pub last_highlight_at: Option<String>,
    pub updated: Option<String>,
    pub cover_image_url: Option<String>,
    pub highlights_url: Option<String>,
    pub source_url: Option<String>,
    pub modified_highlights: Option<Vec<u64>>,
    pub text: Option<String>,
    pub source_type: Option<String>,
    pub note: Option<String>,
    pub location: Option<i32>,
    pub location_type: Option<String>,
    pub highlighted_at: Option<String>,
    pub highlight_url: Option<String>,
}

pub type HighlightsResponse = PaginatedResponse<Highlight>;

/// A book, or another source that highlights were taken from.
#[derive(Debug, Clone)]
pub struct Book {
    pub id: Option<u64>,
    pub title: Option<String>,
    pub author: Option<String>,
    pub category: Option<String>,
    pub source: Option<String>,
    pub num_highlights: Option<u32>,
    pub last_highlight_at: Option<String>,
    pub updated: Option<String>,
    pub cover_image_url: Option<String>,
    pub highlights_url: Option<String>,
    pub source_url: Option<String>,
    pub asin: Option<String>,
    pub tags: Option<Vec<String>>,
    pub document_note: Option<String>,
}

pub type BookListResponse = PaginatedResponse<Book>;

/// A tag as the service lists it.
#[derive(Debug, Clone)]
pub struct Tag {
    pub id: Option<u64>,
    pub name: Option<String>,
    pub created_at: Option<String>,
    pub updated_at: Option<String>,
}

pub type TagsResponse = PaginatedResponse<Tag>;

/// A tag reduced to its name, one number and a count.
#[derive(Debug, Clone)]
pub struct SimpleTag {
    pub name: Option<String>,
    pub updated: Option<i64>,
    pub count: Option<u32>,
}

pub type SimpleTagsResponse = Vec<SimpleTag>;

/// Any of the bodies that the service answers with.
#[derive(Debug, Clone)]
pub enum ApiResponse {
    Highlights(HighlightsResponse),
    BookList(BookListResponse),
    Tags(TagsResponse),
    SimpleTags(SimpleTagsResponse),
}

} // verus!
