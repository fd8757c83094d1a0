//! Pagination: how many items to ask for per page and when a page is the last.

use vstd::prelude::*;
use vstd::string::*;

use crate::link::{next_page_from_headers, spec_next_page, values_view, PaginationError};
use crate::params::{params_view, ParamsView};
use crate::text::{decimal, to_decimal};

verus! {

/// The largest page size the server accepts.
pub const MAX_PAGE_SIZE: usize = 100;

/// Pagination options for GitLab.
#[derive(Debug, Clone, Copy, PartialEq, Eq, Structural)]
pub enum Pagination {
    /// Return all results.
    All,
    /// Limit to a number of results.
    Limit(usize),
}

/// The number of items asked for per page under a pagination policy.
pub open spec fn spec_page_limit(p: Pagination) -> nat {
    match p {
        Pagination::All => MAX_PAGE_SIZE as nat,
        Pagination::Limit(n) => if n <= MAX_PAGE_SIZE {
            n as nat
        } else {
            MAX_PAGE_SIZE as nat
        },
    }
}

/// Whether a page of `last_page_size` items, after which `total` items have
/// been collected, ends the query.
pub open spec fn spec_is_last_page(p: Pagination, last_page_size: nat, total: nat) -> bool {
    if last_page_size < spec_page_limit(p) {
        true
    } else {
        match p {
            Pagination::All => false,
            Pagination::Limit(n) => n <= total,
        }
    }
}

impl Default for Pagination {
    fn default() -> (r: Self)
        ensures
            r == Pagination::All,
    {
        Pagination::All
    }
}

impl Pagination {
    /// The number of items to ask for per page.
    pub fn page_limit(self) -> (r: usize)
        ensures
            r == spec_page_limit(self),
            self == Pagination::All ==> r == MAX_PAGE_SIZE,
            self matches Pagination::Limit(n) ==> r == if n <= MAX_PAGE_SIZE {
                n
            } else {
                MAX_PAGE_SIZE
            },
    {
        match self {
            Pagination::All => MAX_PAGE_SIZE,
            Pagination::Limit(size) => if size <= MAX_PAGE_SIZE {
                size
            } else {
                MAX_PAGE_SIZE
            },
        }
    }

    /// Whether the page just fetched, of `last_page_size` items, is the last
    /// one, given that `total` items have been collected so far (that page
    /// included).
    pub fn is_last_page(self, last_page_size: usize, total: usize) -> (r: bool)
        ensures
            r == spec_is_last_page(self, last_page_size as nat, total as nat),
    {
        if last_page_size < self.page_limit() {
            return true;
        }
        match self {
            Pagination::Limit(limit) => limit <= total,
            Pagination::All => false,
        }
    }
}

/// A query modifier that paginates an endpoint.
#[derive(Debug, Clone, Copy, PartialEq, Eq)]
pub struct Paged<E> {
    /// The endpoint to page through.
    pub endpoint: E,
    /// How many results to collect.
    pub pagination: Pagination,
}

/// Collect data from a paged endpoint.
pub fn paged<E>(endpoint: E, pagination: Pagination) -> (r: Paged<E>)
    ensures
        r.endpoint == endpoint,
        r.pagination == pagination,
{
    Paged { endpoint, pagination }
}

/// An endpoint whose results come in pages: its path, its own query
/// parameters and whether it pages by keyset.
pub trait Pageable {
    /// Whether the endpoint pages by keyset.
    spec fn keyset(&self) -> bool;

    /// The path of the endpoint, relative to the API's base URL.
    spec fn spec_path(&self) -> Seq<char>;

    /// The endpoint's own query parameters.
    spec fn spec_query(&self) -> ParamsView;

    /// Whether the endpoint uses keyset pagination or not.
    fn use_keyset_pagination(&self) -> (r: bool)
        ensures
            r == self.keyset(),
    ;

    /// The path of the endpoint, relative to the API's base URL.
    fn path(&self) -> (r: String)
        ensures
            r@ == self.spec_path(),
    ;

    /// The endpoint's own query parameters.
    fn query_params(&self) -> (r: Vec<(String, String)>)
        ensures
            params_view(r@) == self.spec_query(),
    ;
}

/// The endpoint part of every request of a paged query.
#[derive(Debug, Clone, PartialEq, Eq)]
pub struct PageQuery {
    /// The path of the endpoint, relative to the API's base URL.
    pub path: String,
    /// The endpoint's own query parameters.
    pub params: Vec<(String, String)>,
}

impl<E: Pageable> Paged<E> {
    /// The state of a fresh query over the endpoint, paging by keyset exactly
    /// when the endpoint does.
    pub fn cursor<T>(&self) -> (r: PageCursor<T>)
        ensures
            r.pagination() == self.pagination,
            r.keyset() == self.endpoint.keyset(),
            r.page() == 1,
            r.next_url() is None,
            r.items() == Seq::<T>::empty(),
    {
        PageCursor::new(self.pagination, self.endpoint.use_keyset_pagination())
    }

    /// The endpoint's path and parameters, which every request of the query
    /// starts from.
    pub fn query(&self) -> (r: PageQuery)
        ensures
            r.path@ == self.endpoint.spec_path(),
            params_view(r.params@) == self.endpoint.spec_query(),
    {
        PageQuery { path: self.endpoint.path(), params: self.endpoint.query_params() }
    }
}

/// The request for the next page.
#[derive(Debug, Clone, PartialEq, Eq)]
pub enum PageRequest {
    /// A page by its number (offset pagination).
    Offset {
        /// The number of items per page.
        per_page: usize,
        /// The page number, starting at 1.
        page: u64,
    },
    /// The first page of a keyset query.
    KeysetStart {
        /// The number of items per page.
        per_page: usize,
    },
    /// The page at the URL of the previous response's `next` link, used as is.
    Follow {
        /// The URL to fetch.
        url: String,
    },
}

/// The query parameters that a request adds to the endpoint's URL.
pub open spec fn spec_query_pairs(r: PageRequest) -> Seq<(Seq<char>, Seq<char>)> {
    match r {
        PageRequest::Offset { per_page, page } => seq![
            ("per_page"@, decimal(per_page as nat)),
            ("page"@, decimal(page as nat)),
        ],
        PageRequest::KeysetStart { per_page } => seq![
            ("per_page"@, decimal(per_page as nat)),
            ("pagination"@, "keyset"@),
        ],
        PageRequest::Follow { .. } => seq![],
    }
}

impl PageRequest {
    /// The query parameters to append to the endpoint's URL for this request;
    /// a followed URL is used as it is.
    pub fn query_pairs(&self) -> (r: Vec<(String, String)>)
        ensures
            params_view(r@) == spec_query_pairs(*self),
    {
        let mut r: Vec<(String, String)> = Vec::new();
        match self {
            PageRequest::Offset { per_page, page } => {
                r.push((String::from_str("per_page"), to_decimal(*per_page as u64)));
                r.push((String::from_str("page"), to_decimal(*page)));
            },
            PageRequest::KeysetStart { per_page } => {
                r.push((String::from_str("per_page"), to_decimal(*per_page as u64)));
                r.push((String::from_str("pagination"), String::from_str("keyset")));
            },
            PageRequest::Follow { .. } => {},
        }
        assert(params_view(r@) =~= spec_query_pairs(*self));
        r
    }
}

impl PageQuery {
    /// The query parameters of the URL for a request: none for a followed
    /// URL, which is used as it is; else the endpoint's own parameters then
    /// the request's page parameters.
    pub fn url_pairs(&self, request: &PageRequest) -> (r: Vec<(String, String)>)
        ensures
            params_view(r@) == match *request {
                PageRequest::Follow { .. } => Seq::<(Seq<char>, Seq<char>)>::empty(),
                _ => params_view(self.params@) + spec_query_pairs(*request),
            },
    {
        match request {
            PageRequest::Follow { .. } => {
                let r: Vec<(String, String)> = Vec::new();
                assert(params_view(r@) =~= Seq::<(Seq<char>, Seq<char>)>::empty());
                r
            },
            _ => {
                let mut r: Vec<(String, String)> = Vec::new();
                let mut i: usize = 0;
                while i < self.params.len()
                    invariant
                        i <= self.params.len(),
                        params_view(r@) == params_view(self.params@).subrange(0, i as int),
                    decreases self.params.len() - i,
                {
                    let k = self.params[i].0.clone();
                    let v = self.params[i].1.clone();
                    let ghost before = params_view(r@);
                    r.push((k, v));
                    assert(params_view(r@) =~= before.push((k@, v@)));
                    assert(params_view(self.params@).subrange(0, i + 1) =~= params_view(
                        self.params@,
                    ).subrange(0, i as int).push((k@, v@)));
                    i = i + 1;
                }
                assert(params_view(self.params@).subrange(0, i as int) =~= params_view(
                    self.params@,
                ));
                let mut extra = request.query_pairs();
                let ghost first = r@;
                let ghost second = extra@;
                r.append(&mut extra);
                assert(params_view(r@) =~= params_view(first) + params_view(second));
                r
            },
        }
    }
}

/// The body of a page's response, as decoded by the transport.
#[derive(Debug, Clone, PartialEq, Eq)]
pub enum PageBody<T> {
    /// The body is a JSON array of items.
    Items(Vec<T>),
    /// The body is not valid JSON; the text says why.
    NotJson(String),
    /// The body is valid JSON but not an array of items; the text is the JSON.
    NotItems(String),
}

/// One response of the transport to a page request.
#[derive(Debug, Clone, PartialEq, Eq)]
pub struct PageResponse<T> {
    /// The HTTP status code.
    pub status: u16,
    /// The decoded body.
    pub body: PageBody<T>,
    /// The values of the response's `Link` headers in order, each absent where
    /// it is not representable as a string.
    pub links: Vec<Option<String>>,
}

/// An error that ends a paginated query.
#[derive(Debug, Clone, PartialEq, Eq)]
pub enum GitlabError {
    /// The server answered with a status outside 2xx; `body` is its JSON error
    /// payload where it sent one that is not an array.
    HttpStatus {
        /// The HTTP status code.
        status: u16,
        /// The server's error payload.
        body: Option<String>,
    },
    /// A body is not valid JSON.
    Json(String),
    /// A body is valid JSON but not an array of the expected items.
    DataType(String),
    /// The `Link` headers of a keyset page are malformed.
    Pagination(PaginationError),
}

/// Whether a status code is a success (2xx).
pub open spec fn is_success(status: u16) -> bool {
    200 <= status && status <= 299
}

/// Whether a status code is a success (2xx).
pub fn is_success_status(status: u16) -> (r: bool)
    ensures
        r == is_success(status),
{
    200 <= status && status <= 299
}

/// The error for a response whose status is not a success.
pub open spec fn status_error<T>(status: u16, body: PageBody<T>) -> GitlabError {
    match body {
        PageBody::NotJson(m) => GitlabError::Json(m),
        PageBody::NotItems(j) => GitlabError::HttpStatus { status, body: Some(j) },
        PageBody::Items(_) => GitlabError::HttpStatus { status, body: None },
    }
}

/// The state of one paginated query between two requests.
#[derive(Debug)]
pub struct PageCursor<T> {
    pagination: Pagination,
    keyset: bool,
    page: u64,
    next_url: Option<String>,
    items: Vec<T>,
}

/// What follows a response.
#[derive(Debug)]
pub enum Progress<T> {
    /// Fetch another page from this state.
    Next(PageCursor<T>),
    /// The query is complete with these items.
    Done(Vec<T>),
    /// The query failed; the items collected are dropped.
    Failed(GitlabError),
}

impl<T> PageCursor<T> {
    /// The pagination policy of the query.
    pub closed spec fn pagination(&self) -> Pagination {
        self.pagination
    }

    /// Whether the query uses keyset pagination.
    pub closed spec fn keyset(&self) -> bool {
        self.keyset
    }

    /// The number of the next page in offset mode.
    pub closed spec fn page(&self) -> nat {
        self.page as nat
    }

    /// The URL of the next page in keyset mode, once one is known.
    pub closed spec fn next_url(&self) -> Option<Seq<char>> {
        match self.next_url {
            Some(u) => Some(u@),
            None => None,
        }
    }

    /// The items collected so far, in order.
    pub closed spec fn items(&self) -> Seq<T> {
        self.items@
    }

    /// Whether `r` is what follows `rsp` in the state `self`.
    pub open spec fn advances_to(&self, rsp: PageResponse<T>, r: Progress<T>) -> bool {
        if !is_success(rsp.status) {
            r == Progress::<T>::Failed(status_error(rsp.status, rsp.body))
        } else {
            match rsp.body {
                PageBody::NotJson(m) => r == Progress::<T>::Failed(GitlabError::Json(m)),
                PageBody::NotItems(m) => r == Progress::<T>::Failed(GitlabError::DataType(m)),
                PageBody::Items(page) => self.takes_page(page@, values_view(rsp.links@), r),
            }
        }
    }

    /// Whether `r` follows a decoded page of `page` with `Link` header values
    /// `links`.
    pub open spec fn takes_page(
        &self,
        page: Seq<T>,
        links: Seq<Option<Seq<char>>>,
        r: Progress<T>,
    ) -> bool {
        let total = self.items() + page;
        if self.keyset() && spec_next_page(links) is Err {
            r == Progress::<T>::Failed(GitlabError::Pagination(spec_next_page(links)->Err_0))
        } else if spec_is_last_page(self.pagination(), page.len(), total.len()) {
            r is Done && r->Done_0@ == total
        } else if self.keyset() {
            match spec_next_page(links)->Ok_0 {
                None => r is Done && r->Done_0@ == total,
                Some(u) => r is Next && r->Next_0.items() == total && r->Next_0.next_url() == Some(
                    u,
                ) && r->Next_0.page() == self.page() && r->Next_0.keyset() && r->Next_0.pagination()
                    == self.pagination(),
            }
        } else if self.page() < u64::MAX {
            r is Next && r->Next_0.items() == total && r->Next_0.next_url() is None
                && r->Next_0.page() == self.page() + 1 && !r->Next_0.keyset()
                && r->Next_0.pagination() == self.pagination()
        } else {
            r is Done && r->Done_0@ == total
        }
    }

    /// The state at the start of a query.
    pub fn new(pagination: Pagination, keyset: bool) -> (r: Self)
        ensures
            r.pagination() == pagination,
            r.keyset() == keyset,
            r.page() == 1,
            r.next_url() is None,
            r.items() == Seq::<T>::empty(),
    {
        PageCursor { pagination, keyset, page: 1, next_url: None, items: Vec::new() }
    }

    /// The request for the next page: the known `next` URL as it is, or else
    /// the endpoint's URL with the page size and either the page number
    /// (offset mode) or the keyset marker (first keyset request).
    pub fn request(&self) -> (r: PageRequest)
        ensures
            match self.next_url() {
                Some(u) => r is Follow && r->Follow_url@ == u,
                None => if self.keyset() {
                    r == PageRequest::KeysetStart {
                        per_page: spec_page_limit(self.pagination()) as usize,
                    }
                } else {
                    r == PageRequest::Offset {
                        per_page: spec_page_limit(self.pagination()) as usize,
                        page: self.page() as u64,
                    }
                },
            },
    {
        match &self.next_url {
            Some(u) => PageRequest::Follow { url: u.clone() },
            None => {
                let per_page = self.pagination.page_limit();
                if self.keyset {
                    PageRequest::KeysetStart { per_page }
                } else {
                    PageRequest::Offset { per_page, page: self.page }
                }
            },
        }
    }

    /// Takes the response to the last request and decides what follows: a
    /// failure for a status outside 2xx or a body that is not an array of
    /// items; else the page's items are appended, and the query ends where the
    /// policy sees the last page, or in keyset mode where no `next` link came.
    pub fn advance(self, rsp: PageResponse<T>) -> (r: Progress<T>)
        ensures
            self.advances_to(rsp, r),
    {
        if !is_success_status(rsp.status) {
            let status = rsp.status;
            return Progress::Failed(
                match rsp.body {
                    PageBody::NotJson(m) => GitlabError::Json(m),
                    PageBody::NotItems(j) => GitlabError::HttpStatus { status, body: Some(j) },
                    PageBody::Items(_) => GitlabError::HttpStatus { status, body: None },
                },
            );
        }
        let mut page = match rsp.body {
            PageBody::Items(v) => v,
            PageBody::NotJson(m) => {
                return Progress::Failed(GitlabError::Json(m));
            },
            PageBody::NotItems(m) => {
                return Progress::Failed(GitlabError::DataType(m));
            },
        };
        let next = if self.keyset {
            match next_page_from_headers(&rsp.links) {
                Ok(n) => n,
                Err(e) => {
                    return Progress::Failed(GitlabError::Pagination(e));
                },
            }
        } else {
            None
        };
        let page_len = page.len();
        let mut items = self.items;
        items.append(&mut page);
        if self.pagination.is_last_page(page_len, items.len()) {
            return Progress::Done(items);
        }
        if self.keyset {
            match next {
                None => Progress::Done(items),
                Some(u) => Progress::Next(
                    PageCursor {
                        pagination: self.pagination,
                        keyset: true,
                        page: self.page,
                        next_url: Some(u),
                        items,
                    },
                ),
            }
        } else if self.page < u64::MAX {
            Progress::Next(
                PageCursor {
                    pagination: self.pagination,
                    keyset: false,
                    page: self.page + 1,
                    next_url: None,
                    items,
                },
            )
        } else {
            Progress::Done(items)
        }
    }
}

/// The body of a response to a single request, as decoded by the transport.
#[derive(Debug, Clone, PartialEq, Eq)]
pub enum SingleBody<T> {
    /// The body is JSON of the expected shape.
    Value(T),
    /// The body is not valid JSON; the text says why.
    NotJson(String),
    /// The body is valid JSON of another shape; the text is the JSON.
    NotValue(String),
}

/// The result of a single request: a body that is not JSON fails first, then
/// a status outside 2xx, then a body of another shape.
pub fn single_outcome<T>(status: u16, body: SingleBody<T>) -> (r: Result<T, GitlabError>)
    ensures
        match body {
            SingleBody::NotJson(m) => r == Err::<T, GitlabError>(GitlabError::Json(m)),
            SingleBody::NotValue(j) => r == if is_success(status) {
                Err::<T, GitlabError>(GitlabError::DataType(j))
            } else {
                Err::<T, GitlabError>(GitlabError::HttpStatus { status, body: Some(j) })
            },
            SingleBody::Value(v) => r == if is_success(status) {
                Ok::<T, GitlabError>(v)
            } else {
                Err::<T, GitlabError>(GitlabError::HttpStatus { status, body: None })
            },
        },
{
    let success = is_success_status(status);
    match body {
        SingleBody::NotJson(m) => Err(GitlabError::Json(m)),
        SingleBody::NotValue(j) => if success {
            Err(GitlabError::DataType(j))
        } else {
            Err(GitlabError::HttpStatus { status, body: Some(j) })
        },
        SingleBody::Value(v) => if success {
            Ok(v)
        } else {
            Err(GitlabError::HttpStatus { status, body: None })
        },
    }
}

/// The first request of a keyset query names the page size and the keyset
/// marker, and no page number.
pub proof fn lemma_keyset_start_pairs(per_page: usize)
    ensures
        spec_query_pairs(PageRequest::KeysetStart { per_page }).contains(
            ("pagination"@, "keyset"@),
        ),
        spec_query_pairs(PageRequest::KeysetStart { per_page }).contains(
            ("per_page"@, decimal(per_page as nat)),
        ),
        forall|i: int|
            0 <= i < spec_query_pairs(PageRequest::KeysetStart { per_page }).len() ==> (
            #[trigger] spec_query_pairs(PageRequest::KeysetStart { per_page })[i]).0 != "page"@,
{
    let q = spec_query_pairs(PageRequest::KeysetStart { per_page });
    reveal_strlit("page");
    reveal_strlit("per_page");
    reveal_strlit("pagination");
    assert(q[0] == ("per_page"@, decimal(per_page as nat)));
    assert(q[1] == ("pagination"@, "keyset"@));
    assert("per_page"@ != "page"@) by {
        assert("per_page"@[1] != "page"@[1]);
    }
    assert("pagination"@ != "page"@) by {
        assert("pagination"@.len() != "page"@.len());
    }
}

/// In keyset mode, a page whose `Link` headers carry no `rel=next` link ends
/// the query with every item collected, whatever the page's size.
pub proof fn lemma_keyset_without_next_ends<T>(
    c: PageCursor<T>,
    rsp: PageResponse<T>,
    r: Progress<T>,
)
    requires
        c.keyset(),
        is_success(rsp.status),
        rsp.body is Items,
        spec_next_page(values_view(rsp.links@)) == Ok::<Option<Seq<char>>, PaginationError>(None),
        c.advances_to(rsp, r),
    ensures
        r is Done,
        r->Done_0@ == c.items() + rsp.body->Items_0@,
{
}

/// A body that is not JSON fails the whole query with a JSON error, whatever
/// the status and whatever was collected before: no partial result is given.
pub proof fn lemma_not_json_fails<T>(c: PageCursor<T>, rsp: PageResponse<T>, r: Progress<T>)
    requires
        rsp.body is NotJson,
        c.advances_to(rsp, r),
    ensures
        r == Progress::<T>::Failed(GitlabError::Json(rsp.body->NotJson_0)),
{
}

} // verus!
