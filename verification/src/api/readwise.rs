//! The client's side of the service: where each request goes and what it
//! carries.
//!
//! Nothing here sends anything. A [`Request`] says what to send; the caller
//! sends it and hands back what came.

use crate::api::error::ReadwiseError;
use crate::api::pager::PageRequest;
use crate::api::tags::TagRequest;
use crate::text::decimal;
use crate::text::push_decimal;
use vstd::prelude::*;
use vstd::string::*;

verus! {

/// Where requests go, and the token that they carry.
#[derive(Debug, Clone)]
pub struct ReadwiseConfig {
    pub base_url: String,
    pub access_token: String,
}

/// The base URL of a configuration that was given none.
pub open spec fn default_base_url() -> Seq<char> {
    "https://readwise.io/api/v2"@
}

impl ReadwiseConfig {
    /// The configuration for the service's own address with `access_token`
    /// as its token.
    pub fn new(access_token: String) -> (config: Self)
        ensures
            config.base_url@ == default_base_url(),
            config.access_token == access_token,
    {
        Self { base_url: "https://readwise.io/api/v2".to_owned(), access_token }
    }

    /// The base URL followed by `path`, with nothing put between them.
    pub fn endpoint_url(&self, path: &str) -> (url: String)
        ensures
            url@ == self.base_url@ + path@,
    {
        let mut url = self.base_url.clone();
        url.append(path);
        url
    }
}

/// A GET request: its URL, and the value of its `Authorization` header.
#[derive(Debug, Clone, PartialEq, Eq)]
pub struct Request {
    pub url: String,
    pub authorization: String,
}

/// The query that the parameters of a page make: empty where neither is
/// given; else `?`, then `page_size=` and `page=` with their numbers in
/// decimal, each only where it is given, with `&` between the two.
pub open spec fn page_query(page_size: Option<usize>, page: Option<usize>) -> Seq<char> {
    match (page_size, page) {
        (None, None) => Seq::empty(),
        (Some(size), None) => "?"@ + "page_size="@ + decimal(size as nat),
        (None, Some(number)) => "?"@ + "page="@ + decimal(number as nat),
        (Some(size), Some(number)) => "?"@ + "page_size="@ + decimal(size as nat) + "&"@
            + "page="@ + decimal(number as nat),
    }
}

/// The path of the tags of the highlight `id`.
pub open spec fn tags_path(id: u64) -> Seq<char> {
    "/highlights/"@ + decimal(id as nat) + "/tags"@
}

/// A client of the service.
pub struct ReadwiseClient {
    config: ReadwiseConfig,
}

impl ReadwiseClient {
    /// The base URL that the client's requests start with.
    pub closed spec fn base_url(&self) -> Seq<char> {
        self.config.base_url@
    }

    /// The token that the client's requests carry.
    pub closed spec fn access_token(&self) -> Seq<char> {
        self.config.access_token@
    }

    /// The value of the `Authorization` header of every request.
    pub open spec fn authorization(&self) -> Seq<char> {
        "Token "@ + self.access_token()
    }

    /// The URL for `path` with the parameters of a page.
    pub open spec fn page_url(
        &self,
        path: Seq<char>,
        page_size: Option<usize>,
        page: Option<usize>,
    ) -> Seq<char> {
        self.base_url() + path + page_query(page_size, page)
    }

    /// A client for `config`. Every configuration is accepted.
    pub fn new(config: ReadwiseConfig) -> (client: Result<Self, ReadwiseError>)
        ensures
            client matches Ok(made) && made.base_url() == config.base_url@ && made.access_token()
                == config.access_token@,
    {
        Ok(Self { config })
    }

    /// The value of the `Authorization` header: `Token`, a space, and the
    /// token.
    pub fn auth_header(&self) -> (header: String)
        ensures
            header@ == self.authorization(),
    {
        let mut header = "Token ".to_owned();
        header.append(self.config.access_token.as_str());
        header
    }

    /// The base URL followed by `path`, with nothing put between them.
    pub fn endpoint_url(&self, path: &str) -> (url: String)
        ensures
            url@ == self.base_url() + path@,
    {
        self.config.endpoint_url(path)
    }

    /// The URL for `path` with the parameters of a page: a parameter that is
    /// not given is left out.
    pub fn build_url_with_params(
        &self,
        path: &str,
        page_size: Option<usize>,
        page: Option<usize>,
    ) -> (url: String)
        ensures
            url@ == self.page_url(path@, page_size, page),
    {
        let mut url = self.endpoint_url(path);
        let ghost base = url@;
        match page_size {
            Some(size) => {
                url.append("?");
                url.append("page_size=");
                push_decimal(&mut url, size as u64);
                match page {
                    Some(number) => {
                        url.append("&");
                        url.append("page=");
                        push_decimal(&mut url, number as u64);
                        assert(url@ =~= base + page_query(page_size, page));
                    },
                    None => {
                        assert(url@ =~= base + page_query(page_size, page));
                    },
                }
            },
            None => {
                match page {
                    Some(number) => {
                        url.append("?");
                        url.append("page=");
                        push_decimal(&mut url, number as u64);
                        assert(url@ =~= base + page_query(page_size, page));
                    },
                    None => {
                        assert(url@ =~= base + page_query(page_size, page));
                    },
                }
            },
        }
        url
    }

    /// The request for a page of highlights.
    pub fn highlights_request(&self, page_size: Option<usize>, page: Option<usize>) -> (request:
        Request)
        ensures
            request.url@ == self.page_url("/highlights/"@, page_size, page),
            request.authorization@ == self.authorization(),
    {
        Request {
            url: self.build_url_with_params("/highlights/", page_size, page),
            authorization: self.auth_header(),
        }
    }

    /// The request for a page of the list of books.
    pub fn booklist_request(&self, page_size: Option<usize>, page: Option<usize>) -> (request:
        Request)
        ensures
            request.url@ == self.page_url("/books/"@, page_size, page),
            request.authorization@ == self.authorization(),
    {
        Request {
            url: self.build_url_with_params("/books/", page_size, page),
            authorization: self.auth_header(),
        }
    }

    /// The request for the tags of the highlight `id`.
    pub fn highlight_tags_request(&self, id: u64) -> (request: Request)
        ensures
            request.url@ == self.base_url() + tags_path(id),
            request.authorization@ == self.authorization(),
    {
        let mut url = self.endpoint_url("/highlights/");
        push_decimal(&mut url, id);
        url.append("/tags");
        assert(url@ =~= self.base_url() + tags_path(id));
        Request { url, authorization: self.auth_header() }
    }

    /// The request that a fetch of highlights asks for.
    pub fn highlights_page(&self, page: PageRequest) -> (request: Request)
        ensures
            request.url@ == self.page_url("/highlights/"@, page.page_size, page.page),
            request.authorization@ == self.authorization(),
    {
        self.highlights_request(page.page_size, page.page)
    }

    /// The request that a fetch of the list of books asks for.
    pub fn booklist_page(&self, page: PageRequest) -> (request: Request)
        ensures
            request.url@ == self.page_url("/books/"@, page.page_size, page.page),
            request.authorization@ == self.authorization(),
    {
        self.booklist_request(page.page_size, page.page)
    }

    /// The request that a tag aggregation asks for.
    pub fn tag_request(&self, asked: TagRequest) -> (request: Request)
        ensures
            request.authorization@ == self.authorization(),
            request.url@ == (match asked {
                TagRequest::Page { page_size, page } => self.page_url(
                    "/highlights/"@,
                    Some(page_size),
                    Some(page),
                ),
                TagRequest::Tags { highlight_id } => self.base_url() + tags_path(highlight_id),
            }),
    {
        match asked {
            TagRequest::Page { page_size, page } => self.highlights_request(
                Some(page_size),
                Some(page),
            ),
            TagRequest::Tags { highlight_id } => self.highlight_tags_request(highlight_id),
        }
    }
}

} // verus!
