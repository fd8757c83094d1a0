//! Parsing of HTTP `Link` header values and selection of the next page's URL.

use vstd::prelude::*;
use vstd::string::*;

use crate::text::{same_text, spec_trim, trim};

verus! {

/// Declares `url::Url` so that a parse result can pass through verified code.
#[verifier::external_type_specification]
#[verifier::external_body]
pub struct ExUrl(url::Url);

/// Declares `url::ParseError`, the error of a failed URL parse.
#[verifier::external_type_specification]
#[verifier::external_body]
pub struct ExParseError(url::ParseError);

/// Whether `url::Url::parse` accepts a text as an absolute URL.
pub uninterp spec fn url_parses(s: Seq<char>) -> bool;

/// Relies on `url::Url::parse`: it succeeds exactly on the texts that it
/// accepts as absolute URLs, which depends on the text alone.
#[verifier::external_body]
fn parse_url(s: &str) -> (r: Result<url::Url, url::ParseError>)
    ensures
        r.is_ok() == url_parses(s@),
{
    url::Url::parse(s)
}

/// An error which can occur when parsing a link header.
#[derive(Debug, Clone, Copy, PartialEq, Eq, Structural)]
pub enum LinkHeaderParseError {
    /// The header value is not representable as a string.
    InvalidHeader,
    /// The `url` for a `Link` header was missing `<>` brackets.
    NoBrackets,
    /// A parameter for a `Link` header was missing a value.
    MissingParamValue,
}

/// An error which can occur when finding the next page of a keyset query.
#[derive(Debug, Clone, Copy, PartialEq, Eq, Structural)]
pub enum PaginationError {
    /// A `Link` header could not be parsed.
    LinkHeader(LinkHeaderParseError),
    /// The URL of the `next` link is not a valid URL.
    InvalidUrl,
}

/// One parsed `Link` header value: a target URL and its parameters in order.
#[derive(Debug, Clone, PartialEq, Eq)]
pub struct LinkHeader {
    /// The target URL, without its angle brackets.
    pub url: String,
    /// The `(key, value)` parameters, quotes stripped from quoted values.
    pub params: Vec<(String, String)>,
}

/// The mathematical form of a parsed link: its URL and its parameters.
pub type LinkView = (Seq<char>, Seq<(Seq<char>, Seq<char>)>);

/// The text form of a `(key, value)` pair.
pub open spec fn pair_view(p: (String, String)) -> (Seq<char>, Seq<char>) {
    (p.0@, p.1@)
}

impl View for LinkHeader {
    type V = LinkView;

    open spec fn view(&self) -> LinkView {
        (self.url@, self.params@.map_values(|p: (String, String)| pair_view(p)))
    }
}

/// The pieces of `s` between occurrences of `sep`, as `str::split` yields them.
pub open spec fn split(s: Seq<char>, sep: char) -> Seq<Seq<char>>
    decreases s.len(),
{
    if s.len() == 0 {
        seq![Seq::empty()]
    } else {
        let rest = split(s.drop_last(), sep);
        if s.last() == sep {
            rest.push(Seq::empty())
        } else {
            rest.update(rest.len() - 1, rest.last().push(s.last()))
        }
    }
}

/// Whether `i` is the position of the first `c` in `t`.
pub open spec fn is_first(t: Seq<char>, c: char, i: int) -> bool {
    0 <= i < t.len() && t[i] == c && forall|j: int| 0 <= j < i ==> t[j] != c
}

/// Whether `t` holds `c`.
pub open spec fn holds_char(t: Seq<char>, c: char) -> bool {
    exists|i: int| 0 <= i < t.len() && t[i] == c
}

/// The position of the first `c` in `t`, where `t` holds one.
pub open spec fn first_index(t: Seq<char>, c: char) -> int {
    choose|i: int| is_first(t, c, i)
}

/// A value with one layer of surrounding double quotes removed, if it has one.
pub open spec fn unquote(v: Seq<char>) -> Seq<char> {
    if v.len() >= 2 && v[0] == '"' && v.last() == '"' {
        v.subrange(1, v.len() - 1)
    } else {
        v
    }
}

/// One `key=value` parameter segment: the key (trimmed) and the value, or
/// nothing where the segment has no `=`.
pub open spec fn spec_parse_param(part: Seq<char>) -> Option<(Seq<char>, Seq<char>)> {
    let t = spec_trim(part);
    if holds_char(t, '=') {
        let i = first_index(t, '=');
        Some((spec_trim(t.subrange(0, i)), unquote(t.subrange(i + 1, t.len() as int))))
    } else {
        None
    }
}

/// Whether a trimmed text is a URL in angle brackets.
pub open spec fn bracketed(h: Seq<char>) -> bool {
    h.len() >= 2 && h[0] == '<' && h.last() == '>'
}

/// The result of parsing one `Link` header value `<url>; key=value; ...`.
pub open spec fn spec_parse_link(s: Seq<char>) -> Result<LinkView, LinkHeaderParseError> {
    let parts = split(s, ';');
    let head = spec_trim(parts[0]);
    if !bracketed(head) {
        Err(LinkHeaderParseError::NoBrackets)
    } else if exists|k: int| 1 <= k < parts.len() && spec_parse_param(parts[k]) is None {
        Err(LinkHeaderParseError::MissingParamValue)
    } else {
        Ok(
            (
                head.subrange(1, head.len() - 1),
                Seq::new(
                    (parts.len() - 1) as nat,
                    |k: int| spec_parse_param(parts[k + 1])->Some_0,
                ),
            ),
        )
    }
}

proof fn lemma_split_nonempty(s: Seq<char>, sep: char)
    ensures
        split(s, sep).len() >= 1,
    decreases s.len(),
{
    if s.len() > 0 {
        lemma_split_nonempty(s.drop_last(), sep);
    }
}

proof fn lemma_first_unique(t: Seq<char>, c: char, i: int)
    requires
        is_first(t, c, i),
    ensures
        holds_char(t, c),
        first_index(t, c) == i,
{
    let k = first_index(t, c);
    assert(is_first(t, c, k));
    if k < i {
        assert(t[k] != c);
    } else if k > i {
        assert(t[i] != c);
    }
}

/// The position of the first `c` in `s`, if any.
fn find_char(s: &str, c: char) -> (r: Option<usize>)
    ensures
        match r {
            Some(i) => is_first(s@, c, i as int),
            None => !holds_char(s@, c),
        },
{
    let n = s.unicode_len();
    let mut i: usize = 0;
    while i < n
        invariant
            n == s@.len(),
            i <= n,
            forall|j: int| 0 <= j < i ==> s@[j] != c,
        decreases n - i,
    {
        if s.get_char(i) == c {
            return Some(i);
        }
        i = i + 1;
    }
    None
}

/// The pieces of `s` between occurrences of `sep`.
fn split_str<'a>(s: &'a str, sep: char) -> (r: Vec<&'a str>)
    ensures
        r@.map_values(|x: &str| x@) == split(s@, sep),
{
    let n = s.unicode_len();
    let mut parts: Vec<&'a str> = Vec::new();
    let mut start: usize = 0;
    let mut i: usize = 0;
    assert(s@.subrange(0, 0) =~= Seq::<char>::empty());
    assert(split(s@.subrange(0, 0), sep) =~= parts@.map_values(|x: &str| x@).push(
        s@.subrange(0, 0),
    ));
    while i < n
        invariant
            n == s@.len(),
            start <= i <= n,
            split(s@.subrange(0, i as int), sep) == parts@.map_values(|x: &str| x@).push(
                s@.subrange(start as int, i as int),
            ),
        decreases n - i,
    {
        let c = s.get_char(i);
        let ghost prev = parts@.map_values(|x: &str| x@);
        assert(s@.subrange(0, i + 1).drop_last() =~= s@.subrange(0, i as int));
        assert(s@.subrange(0, i + 1).last() == c);
        if c == sep {
            let piece = s.substring_char(start, i);
            parts.push(piece);
            assert(parts@.map_values(|x: &str| x@) =~= prev.push(piece@));
            start = i + 1;
            assert(s@.subrange(start as int, i + 1) =~= Seq::<char>::empty());
            assert(split(s@.subrange(0, i + 1), sep) =~= parts@.map_values(|x: &str| x@).push(
                s@.subrange(start as int, i + 1),
            ));
        } else {
            let ghost rest = split(s@.subrange(0, i as int), sep);
            let ghost seg = s@.subrange(start as int, i as int);
            assert(rest == prev.push(seg));
            assert(split(s@.subrange(0, i + 1), sep) == rest.update(
                rest.len() - 1,
                rest.last().push(c),
            ));
            assert(seg.push(c) =~= s@.subrange(start as int, i + 1));
            assert(rest.update(rest.len() - 1, rest.last().push(c)) =~= prev.push(
                s@.subrange(start as int, i + 1),
            ));
        }
        i = i + 1;
    }
    let ghost prev = parts@.map_values(|x: &str| x@);
    let last = s.substring_char(start, n);
    parts.push(last);
    assert(s@.subrange(0, n as int) =~= s@);
    assert(parts@.map_values(|x: &str| x@) =~= prev.push(last@));
    parts
}

/// The value with one layer of surrounding double quotes removed, if present.
fn unquote_str<'a>(v: &'a str) -> (r: &'a str)
    ensures
        r@ == unquote(v@),
{
    let n = v.unicode_len();
    if n >= 2 && v.get_char(0) == '"' && v.get_char(n - 1) == '"' {
        v.substring_char(1, n - 1)
    } else {
        v
    }
}

/// Parses one `key=value` parameter segment.
fn parse_param(part: &str) -> (r: Option<(String, String)>)
    ensures
        match r {
            Some(p) => spec_parse_param(part@) == Some(pair_view(p)),
            None => spec_parse_param(part@) is None,
        },
{
    let t = trim(part);
    match find_char(t, '=') {
        None => None,
        Some(i) => {
            proof {
                lemma_first_unique(t@, '=', i as int);
            }
            let n = t.unicode_len();
            let key = trim(t.substring_char(0, i));
            let value = unquote_str(t.substring_char(i + 1, n));
            Some((String::from_str(key), String::from_str(value)))
        },
    }
}

impl LinkHeader {
    /// Parses a `Link` header value of the shape `<url>; key1=value1; key2="value2"`.
    pub fn parse(s: &str) -> (r: Result<LinkHeader, LinkHeaderParseError>)
        ensures
            match r {
                Ok(h) => spec_parse_link(s@) == Ok::<LinkView, LinkHeaderParseError>(h@),
                Err(e) => spec_parse_link(s@) == Err::<LinkView, LinkHeaderParseError>(e),
            },
    {
        let parts = split_str(s, ';');
        let ghost views = parts@.map_values(|x: &str| x@);
        proof {
            lemma_split_nonempty(s@, ';');
        }
        assert(views.len() == parts@.len());
        let head = trim(parts[0]);
        assert(head@ == spec_trim(views[0]));
        let hn = head.unicode_len();
        if !(hn >= 2 && head.get_char(0) == '<' && head.get_char(hn - 1) == '>') {
            return Err(LinkHeaderParseError::NoBrackets);
        }
        assert(bracketed(spec_trim(split(s@, ';')[0])));
        let url = String::from_str(head.substring_char(1, hn - 1));
        let mut params: Vec<(String, String)> = Vec::new();
        let mut k: usize = 1;
        while k < parts.len()
            invariant
                views == parts@.map_values(|x: &str| x@),
                views == split(s@, ';'),
                bracketed(spec_trim(views[0])),
                1 <= k <= parts.len(),
                params.len() == k - 1,
                forall|m: int|
                    0 <= m < k - 1 ==> spec_parse_param(views[m + 1]) == Some(
                        pair_view(#[trigger] params@[m]),
                    ),
            decreases parts.len() - k,
        {
            match parse_param(parts[k]) {
                None => {
                    assert(parts@[k as int]@ == views[k as int]);
                    assert(1 <= k < views.len() && spec_parse_param(views[k as int]) is None);
                    assert(spec_parse_link(s@) == Err::<LinkView, LinkHeaderParseError>(
                        LinkHeaderParseError::MissingParamValue,
                    ));
                    return Err(LinkHeaderParseError::MissingParamValue);
                },
                Some(p) => {
                    assert(parts@[k as int]@ == views[k as int]);
                    params.push(p);
                },
            }
            k = k + 1;
        }
        let h = LinkHeader { url, params };
        assert(forall|m: int|
            1 <= m < views.len() ==> spec_parse_param(views[m]) == Some(
                pair_view(#[trigger] h.params@[m - 1]),
            ));
        assert(h@.1 =~= Seq::new(
            (views.len() - 1) as nat,
            |m: int| spec_parse_param(views[m + 1])->Some_0,
        ));
        assert forall|m: int| 1 <= m < views.len() implies spec_parse_param(views[m]) is Some by {
            assert(spec_parse_param(views[m]) == Some(pair_view(h.params@[m - 1])));
        }
        assert(h@.0 == spec_trim(views[0]).subrange(1, spec_trim(views[0]).len() - 1));
        Ok(h)
    }
}

/// The text of a header value, or nothing where it is not representable as a
/// string.
pub open spec fn opt_view(o: Option<String>) -> Option<Seq<char>> {
    match o {
        Some(v) => Some(v@),
        None => None,
    }
}

/// The parsed links of header values in order, or the first failure.
pub open spec fn parse_all(values: Seq<Option<Seq<char>>>) -> Result<
    Seq<LinkView>,
    LinkHeaderParseError,
>
    decreases values.len(),
{
    if values.len() == 0 {
        Ok(Seq::empty())
    } else {
        match parse_all(values.drop_last()) {
            Err(e) => Err(e),
            Ok(hs) => match values.last() {
                None => Err(LinkHeaderParseError::InvalidHeader),
                Some(v) => match spec_parse_link(v) {
                    Err(e) => Err(e),
                    Ok(h) => Ok(hs.push(h)),
                },
            },
        }
    }
}

/// Whether a link carries the parameter `rel=next`.
pub open spec fn is_next_link(h: LinkView) -> bool {
    exists|j: int| 0 <= j < h.1.len() && h.1[j] == ("rel"@, "next"@)
}

/// Whether `k` is the position of the first `rel=next` link.
pub open spec fn is_first_next(hs: Seq<LinkView>, k: int) -> bool {
    0 <= k < hs.len() && is_next_link(hs[k]) && forall|j: int| 0 <= j < k ==> !is_next_link(hs[j])
}

/// The URL of the next page given the values of all `Link` headers of a
/// response: the URL of the first `rel=next` link, if any.
pub open spec fn spec_next_page(values: Seq<Option<Seq<char>>>) -> Result<
    Option<Seq<char>>,
    PaginationError,
> {
    match parse_all(values) {
        Err(e) => Err(PaginationError::LinkHeader(e)),
        Ok(hs) => select_next(hs),
    }
}

/// The URL of the first `rel=next` link among parsed links, if any.
pub open spec fn select_next(hs: Seq<LinkView>) -> Result<Option<Seq<char>>, PaginationError> {
    if exists|k: int| 0 <= k < hs.len() && is_next_link(hs[k]) {
        let url = hs[choose|k: int| is_first_next(hs, k)].0;
        if url_parses(url) {
            Ok(Some(url))
        } else {
            Err(PaginationError::InvalidUrl)
        }
    } else {
        Ok(None)
    }
}

/// The texts of a list of header values.
pub open spec fn values_view(values: Seq<Option<String>>) -> Seq<Option<Seq<char>>> {
    values.map_values(|o: Option<String>| opt_view(o))
}

proof fn lemma_parse_all_stops(values: Seq<Option<Seq<char>>>, i: int)
    requires
        0 <= i <= values.len(),
        parse_all(values.subrange(0, i)) is Err,
    ensures
        parse_all(values) == parse_all(values.subrange(0, i)),
    decreases values.len() - i,
{
    if i == values.len() {
        assert(values.subrange(0, i) =~= values);
    } else {
        let shorter = values.drop_last();
        assert(shorter.subrange(0, i) =~= values.subrange(0, i));
        lemma_parse_all_stops(shorter, i);
    }
}

proof fn lemma_first_next_unique(hs: Seq<LinkView>, k: int)
    requires
        is_first_next(hs, k),
    ensures
        (choose|i: int| is_first_next(hs, i)) == k,
{
    let i = choose|i: int| is_first_next(hs, i);
    assert(is_first_next(hs, i));
    if i < k {
        assert(!is_next_link(hs[i]));
    } else if i > k {
        assert(!is_next_link(hs[k]));
    }
}

/// Of a list of parsed links, the one selected as the next page is the first
/// that carries `rel=next`, whatever other relations come before or after it;
/// where none carries it there is no next page.
pub proof fn lemma_select_next(hs: Seq<LinkView>)
    ensures
        match select_next(hs) {
            Ok(Some(u)) => exists|k: int| is_first_next(hs, k) && hs[k].0 == u,
            Ok(None) => forall|k: int| 0 <= k < hs.len() ==> !is_next_link(#[trigger] hs[k]),
            Err(e) => e == PaginationError::InvalidUrl && exists|k: int|
                is_first_next(hs, k) && !url_parses(hs[k].0),
        },
{
    if exists|k: int| 0 <= k < hs.len() && is_next_link(hs[k]) {
        let w = choose|k: int| 0 <= k < hs.len() && is_next_link(hs[k]);
        lemma_first_next_exists(hs, w);
        let k = choose|k: int| is_first_next(hs, k);
        assert(is_first_next(hs, k));
    }
}

proof fn lemma_first_next_exists(hs: Seq<LinkView>, w: int)
    requires
        0 <= w < hs.len(),
        is_next_link(hs[w]),
    ensures
        exists|k: int| is_first_next(hs, k),
    decreases w,
{
    if forall|j: int| 0 <= j < w ==> !is_next_link(hs[j]) {
        assert(is_first_next(hs, w));
    } else {
        let j = choose|j: int| 0 <= j < w && is_next_link(hs[j]);
        lemma_first_next_exists(hs, j);
    }
}

/// Whether a parsed link carries the parameter `rel=next`.
fn has_next_rel(h: &LinkHeader) -> (r: bool)
    ensures
        r == is_next_link(h@),
{
    let mut j: usize = 0;
    while j < h.params.len()
        invariant
            j <= h.params.len(),
            forall|m: int| 0 <= m < j ==> h@.1[m] != ("rel"@, "next"@),
        decreases h.params.len() - j,
    {
        let p = &h.params[j];
        if same_text(p.0.as_str(), "rel") && same_text(p.1.as_str(), "next") {
            assert(h@.1[j as int] == ("rel"@, "next"@));
            return true;
        }
        j = j + 1;
    }
    false
}

/// The URL of the next page given the values of all `Link` headers of a
/// response, each value absent where it is not representable as a string.
pub fn next_page_from_headers(values: &Vec<Option<String>>) -> (r: Result<
    Option<String>,
    PaginationError,
>)
    ensures
        match r {
            Ok(Some(u)) => spec_next_page(values_view(values@)) == Ok::<
                Option<Seq<char>>,
                PaginationError,
            >(Some(u@)),
            Ok(None) => spec_next_page(values_view(values@)) == Ok::<
                Option<Seq<char>>,
                PaginationError,
            >(None),
            Err(e) => spec_next_page(values_view(values@)) == Err::<
                Option<Seq<char>>,
                PaginationError,
            >(e),
        },
{
    let ghost vals = values_view(values@);
    let mut headers: Vec<LinkHeader> = Vec::new();
    let mut i: usize = 0;
    assert(vals.subrange(0, 0) =~= Seq::<Option<Seq<char>>>::empty());
    assert(headers@.map_values(|h: LinkHeader| h@) =~= Seq::<LinkView>::empty());
    while i < values.len()
        invariant
            vals == values_view(values@),
            i <= values.len(),
            parse_all(vals.subrange(0, i as int)) == Ok::<Seq<LinkView>, LinkHeaderParseError>(
                headers@.map_values(|h: LinkHeader| h@),
            ),
        decreases values.len() - i,
    {
        assert(vals.subrange(0, i + 1).drop_last() =~= vals.subrange(0, i as int));
        assert(vals.subrange(0, i + 1).last() == opt_view(values@[i as int]));
        match &values[i] {
            None => {
                proof {
                    lemma_parse_all_stops(vals, i + 1);
                }
                return Err(PaginationError::LinkHeader(LinkHeaderParseError::InvalidHeader));
            },
            Some(v) => match LinkHeader::parse(v.as_str()) {
                Err(e) => {
                    proof {
                        lemma_parse_all_stops(vals, i + 1);
                    }
                    return Err(PaginationError::LinkHeader(e));
                },
                Ok(h) => {
                    let ghost prev = headers@.map_values(|x: LinkHeader| x@);
                    headers.push(h);
                    assert(headers@.map_values(|x: LinkHeader| x@) =~= prev.push(h@));
                },
            },
        }
        i = i + 1;
    }
    assert(vals.subrange(0, values.len() as int) =~= vals);
    let ghost hs = headers@.map_values(|x: LinkHeader| x@);
    let mut k: usize = 0;
    while k < headers.len()
        invariant
            hs == headers@.map_values(|x: LinkHeader| x@),
            vals == values_view(values@),
            parse_all(vals) == Ok::<Seq<LinkView>, LinkHeaderParseError>(hs),
            k <= headers.len(),
            forall|j: int| 0 <= j < k ==> !is_next_link(#[trigger] hs[j]),
        decreases headers.len() - k,
    {
        if has_next_rel(&headers[k]) {
            assert(is_first_next(hs, k as int));
            proof {
                lemma_first_next_unique(hs, k as int);
            }
            let url = headers[k].url.clone();
            let parsed = parse_url(url.as_str());
            assert(url@ == hs[k as int].0);
            if parsed.is_ok() {
                return Ok(Some(url));
            } else {
                return Err(PaginationError::InvalidUrl);
            }
        }
        k = k + 1;
    }
    Ok(None)
}

} // verus!
