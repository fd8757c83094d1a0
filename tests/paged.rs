use gitlab::link::{next_page_from_headers, LinkHeader, LinkHeaderParseError, PaginationError};
use gitlab::paged::{
    is_success_status, single_outcome, GitlabError, PageBody, PageCursor, PageRequest,
    PageResponse, Pagination, Progress, SingleBody,
};

fn page(start: u32, len: u32) -> Vec<u32> {
    (start..start + len).collect()
}

fn ok_page(items: Vec<u32>, links: Vec<Option<String>>) -> PageResponse<u32> {
    PageResponse {
        status: 200,
        body: PageBody::Items(items),
        links,
    }
}

/// Drives a query over scripted responses; returns the requests made and the outcome.
fn drive(
    pagination: Pagination,
    keyset: bool,
    responses: Vec<PageResponse<u32>>,
) -> (Vec<PageRequest>, Result<Vec<u32>, GitlabError>) {
    let mut cursor = PageCursor::new(pagination, keyset);
    let mut requests = Vec::new();
    let mut responses = responses.into_iter();
    loop {
        requests.push(cursor.request());
        let rsp = responses.next().expect("a request beyond the scripted responses");
        match cursor.advance(rsp) {
            Progress::Next(next) => cursor = next,
            Progress::Done(items) => return (requests, Ok(items)),
            Progress::Failed(err) => return (requests, Err(err)),
        }
    }
}

fn pairs(req: &PageRequest) -> Vec<(String, String)> {
    req.query_pairs()
}

#[test]
fn page_limit_of_policies() {
    assert_eq!(Pagination::All.page_limit(), 100);
    assert_eq!(Pagination::Limit(42).page_limit(), 42);
    assert_eq!(Pagination::Limit(100).page_limit(), 100);
    assert_eq!(Pagination::Limit(250).page_limit(), 100);
    assert_eq!(Pagination::Limit(1).page_limit(), 1);
    assert_eq!(Pagination::default(), Pagination::All);
}

#[test]
fn is_last_page_examples() {
    assert!(!Pagination::All.is_last_page(100, 100));
    assert!(Pagination::All.is_last_page(99, 199));
    assert!(Pagination::Limit(150).is_last_page(100, 200));
    assert!(!Pagination::Limit(150).is_last_page(100, 100));
    assert!(Pagination::Limit(150).is_last_page(100, 150));
}

#[test]
fn link_parses_url_and_params() {
    let link = LinkHeader::parse("<https://x/p2>; rel=\"next\"").unwrap();
    assert_eq!(link.url, "https://x/p2");
    assert_eq!(link.params, vec![("rel".to_string(), "next".to_string())]);
}

#[test]
fn link_parse_trims_and_keeps_unquoted_values() {
    let link = LinkHeader::parse("  <https://x/p?a=1>  ;  rel = next ; title=\"a b\"").unwrap();
    assert_eq!(link.url, "https://x/p?a=1");
    assert_eq!(
        link.params,
        vec![
            ("rel".to_string(), " next".to_string()),
            ("title".to_string(), "a b".to_string()),
        ],
    );
    assert_eq!(
        LinkHeader::parse("<u>; a=1; b=\"x;y\"").unwrap_err(),
        LinkHeaderParseError::MissingParamValue,
    );
}

#[test]
fn link_parse_errors() {
    assert_eq!(
        LinkHeader::parse("https://x/p2; rel=\"next\"").unwrap_err(),
        LinkHeaderParseError::NoBrackets,
    );
    assert_eq!(
        LinkHeader::parse("<https://x>; rel").unwrap_err(),
        LinkHeaderParseError::MissingParamValue,
    );
    assert_eq!(LinkHeader::parse("").unwrap_err(), LinkHeaderParseError::NoBrackets);
    assert_eq!(LinkHeader::parse("<").unwrap_err(), LinkHeaderParseError::NoBrackets);
}

#[test]
fn link_parse_single_quote_value_kept() {
    let link = LinkHeader::parse("<u>; k=\"").unwrap();
    assert_eq!(link.url, "u");
    assert_eq!(link.params, vec![("k".to_string(), "\"".to_string())]);
}

#[test]
fn next_url_selects_the_next_relation() {
    let values = vec![
        Some("<https://x/p1>; rel=\"prev\"".to_string()),
        Some("<https://x/p3>; rel=\"next\"".to_string()),
    ];
    assert_eq!(
        next_page_from_headers(&values),
        Ok(Some("https://x/p3".to_string())),
    );
}

#[test]
fn next_url_absent_without_next_relation() {
    let values = vec![
        Some("<https://x/p1>; rel=\"prev\"".to_string()),
        Some("<https://x/p9>; rel=\"last\"".to_string()),
    ];
    assert_eq!(next_page_from_headers(&values), Ok(None));
    assert_eq!(next_page_from_headers(&Vec::new()), Ok(None));
}

#[test]
fn next_url_first_of_several_next_links() {
    let values = vec![
        Some("<https://x/a>; rel=\"next\"".to_string()),
        Some("<https://x/b>; rel=\"next\"".to_string()),
    ];
    assert_eq!(next_page_from_headers(&values), Ok(Some("https://x/a".to_string())));
}

#[test]
fn next_url_errors() {
    assert_eq!(
        next_page_from_headers(&vec![None]),
        Err(PaginationError::LinkHeader(LinkHeaderParseError::InvalidHeader)),
    );
    assert_eq!(
        next_page_from_headers(&vec![Some("<not a url>; rel=\"next\"".to_string())]),
        Err(PaginationError::InvalidUrl),
    );
    assert_eq!(
        next_page_from_headers(&vec![
            Some("<https://x/a>; rel=\"next\"".to_string()),
            Some("no brackets".to_string()),
        ]),
        Err(PaginationError::LinkHeader(LinkHeaderParseError::NoBrackets)),
    );
}

#[test]
fn offset_all_three_pages() {
    let responses = vec![
        ok_page(page(0, 100), vec![]),
        ok_page(page(100, 100), vec![]),
        ok_page(page(200, 42), vec![]),
    ];
    let (requests, result) = drive(Pagination::All, false, responses);
    assert_eq!(requests.len(), 3);
    for (n, req) in requests.iter().enumerate() {
        assert_eq!(
            *req,
            PageRequest::Offset {
                per_page: 100,
                page: n as u64 + 1,
            },
        );
    }
    assert_eq!(result.unwrap(), page(0, 242));
}

#[test]
fn offset_limit_keeps_all_accumulated() {
    let responses = vec![
        ok_page(page(0, 100), vec![]),
        ok_page(page(100, 100), vec![]),
    ];
    let (requests, result) = drive(Pagination::Limit(150), false, responses);
    assert_eq!(requests.len(), 2);
    assert_eq!(result.unwrap(), page(0, 200));
}

#[test]
fn offset_query_pairs() {
    let req = PageRequest::Offset { per_page: 100, page: 12 };
    assert_eq!(
        pairs(&req),
        vec![
            ("per_page".to_string(), "100".to_string()),
            ("page".to_string(), "12".to_string()),
        ],
    );
}

#[test]
fn keyset_without_next_link_stops_after_one_request() {
    let responses = vec![ok_page(page(0, 100), vec![]), ok_page(page(100, 5), vec![])];
    let (requests, result) = drive(Pagination::All, true, responses);
    assert_eq!(requests.len(), 1);
    assert_eq!(requests[0], PageRequest::KeysetStart { per_page: 100 });
    let first = pairs(&requests[0]);
    assert!(first.iter().all(|(k, _)| k != "page"));
    assert!(first.contains(&("pagination".to_string(), "keyset".to_string())));
    assert!(first.contains(&("per_page".to_string(), "100".to_string())));
    assert_eq!(result.unwrap(), page(0, 100));
}

#[test]
fn keyset_follows_next_links_verbatim() {
    let next = "https://gitlab.example.com/api/v4/projects?id_after=100&pagination=keyset";
    let responses = vec![
        ok_page(
            page(0, 100),
            vec![Some(format!("<{}>; rel=\"next\"", next))],
        ),
        ok_page(page(100, 3), vec![]),
    ];
    let (requests, result) = drive(Pagination::All, true, responses);
    assert_eq!(requests.len(), 2);
    assert_eq!(
        requests[1],
        PageRequest::Follow {
            url: next.to_string(),
        },
    );
    assert!(pairs(&requests[1]).is_empty());
    assert_eq!(result.unwrap(), page(0, 103));
}

#[test]
fn json_error_on_second_page_fails_the_query() {
    let responses = vec![
        ok_page(page(0, 100), vec![]),
        PageResponse {
            status: 200,
            body: PageBody::NotJson("expected value".to_string()),
            links: vec![],
        },
        ok_page(page(200, 10), vec![]),
    ];
    let (requests, result) = drive(Pagination::All, false, responses);
    assert_eq!(requests.len(), 2);
    assert_eq!(result, Err(GitlabError::Json("expected value".to_string())));
}

#[test]
fn status_and_shape_errors() {
    let (_, result) = drive(
        Pagination::All,
        false,
        vec![PageResponse {
            status: 404,
            body: PageBody::NotItems("{\"message\":\"404 Not Found\"}".to_string()),
            links: vec![],
        }],
    );
    assert_eq!(
        result,
        Err(GitlabError::HttpStatus {
            status: 404,
            body: Some("{\"message\":\"404 Not Found\"}".to_string()),
        }),
    );
    let (_, result) = drive(
        Pagination::All,
        false,
        vec![PageResponse {
            status: 200,
            body: PageBody::NotItems("{}".to_string()),
            links: vec![],
        }],
    );
    assert_eq!(result, Err(GitlabError::DataType("{}".to_string())));
}

#[test]
fn keyset_link_error_fails_the_query() {
    let (_, result) = drive(
        Pagination::All,
        true,
        vec![ok_page(page(0, 100), vec![Some("<https://x>; rel".to_string())])],
    );
    assert_eq!(
        result,
        Err(GitlabError::Pagination(PaginationError::LinkHeader(
            LinkHeaderParseError::MissingParamValue
        ))),
    );
}

#[test]
fn limit_zero_stops_after_first_page() {
    let (requests, result) = drive(Pagination::Limit(0), false, vec![ok_page(page(0, 7), vec![])]);
    assert_eq!(requests, vec![PageRequest::Offset { per_page: 0, page: 1 }]);
    assert_eq!(result.unwrap(), page(0, 7));
}

#[test]
fn single_request_outcomes() {
    assert!(is_success_status(200));
    assert!(is_success_status(299));
    assert!(!is_success_status(199));
    assert!(!is_success_status(300));
    assert_eq!(single_outcome(200, SingleBody::Value(5u8)), Ok(5u8));
    assert_eq!(
        single_outcome(500, SingleBody::Value(5u8)),
        Err(GitlabError::HttpStatus { status: 500, body: None }),
    );
    assert_eq!(
        single_outcome::<u8>(404, SingleBody::NotValue("{}".to_string())),
        Err(GitlabError::HttpStatus {
            status: 404,
            body: Some("{}".to_string()),
        }),
    );
    assert_eq!(
        single_outcome::<u8>(200, SingleBody::NotValue("[]".to_string())),
        Err(GitlabError::DataType("[]".to_string())),
    );
    assert_eq!(
        single_outcome::<u8>(500, SingleBody::NotJson("eof".to_string())),
        Err(GitlabError::Json("eof".to_string())),
    );
}
