//! The outside HTTP types the client works with, each paired with a model of
//! what it holds: header values with their text, header maps and client
//! builders with their headers, clients with their default headers, and
//! requests with their method, URL, query and default headers. Only the
//! functions of this module, which make the outside calls, set the models.
use crate::api::{query_text, HttpMethod};
use crate::client::{header_value_valid, simple_header_name};
use reqwest::header::{HeaderMap, HeaderValue, InvalidHeaderValue};
use reqwest::Client as ReqwestClient;
use vstd::prelude::*;

verus! {

#[verifier::external_type_specification]
#[verifier::external_body]
pub struct ExHttpClient(ReqwestClient);

#[verifier::external_type_specification]
#[verifier::external_body]
pub struct ExHttpClientBuilder(reqwest::ClientBuilder);

#[verifier::external_type_specification]
#[verifier::external_body]
pub struct ExRequestBuilder(reqwest::RequestBuilder);

#[verifier::external_type_specification]
#[verifier::external_body]
pub struct ExHttpError(reqwest::Error);

#[verifier::external_type_specification]
#[verifier::external_body]
#[verifier::reject_recursive_types(T)]
pub struct ExHeaderMap<T>(HeaderMap<T>);

#[verifier::external_type_specification]
#[verifier::external_body]
pub struct ExHeaderValue(HeaderValue);

#[verifier::external_type_specification]
#[verifier::external_body]
pub struct ExInvalidHeaderValue(InvalidHeaderValue);

/// Header names and values, a name (in lower case) to its value's text.
pub type HeaderEntries = Map<Seq<char>, Seq<char>>;

/// Text with its ASCII capitals in lower case, as `http` stores header names.
pub open spec fn ascii_lower(s: Seq<char>) -> Seq<char> {
    s.map_values(
        |c: char|
            if 'A' <= c <= 'Z' {
                ((c as u32) + 32) as char
            } else {
                c
            },
    )
}

/// A header value together with the text it was made from.
pub struct HeaderText {
    value: HeaderValue,
    text: Ghost<Seq<char>>,
}

impl HeaderText {
    pub closed spec fn text(&self) -> Seq<char> {
        self.text@
    }
}

/// A header map together with its entries.
pub struct Headers {
    map: HeaderMap<HeaderValue>,
    entries: Ghost<HeaderEntries>,
}

impl Headers {
    pub closed spec fn entries(&self) -> HeaderEntries {
        self.entries@
    }
}

/// A client builder together with the default headers it will give the client.
pub struct HttpClientBuilder {
    builder: reqwest::ClientBuilder,
    headers: Ghost<HeaderEntries>,
}

impl HttpClientBuilder {
    pub closed spec fn default_headers(&self) -> HeaderEntries {
        self.headers@
    }
}

/// An HTTP client together with the default headers it adds to every request.
pub struct HttpClient {
    client: ReqwestClient,
    headers: Ghost<HeaderEntries>,
}

impl HttpClient {
    pub closed spec fn default_headers(&self) -> HeaderEntries {
        self.headers@
    }
}

/// What a request is: its method, its URL, the query pairs appended to it,
/// and the default headers of the client that sends it.
pub struct RequestView {
    pub method: HttpMethod,
    pub url: Seq<char>,
    pub query: Seq<(Seq<char>, Seq<char>)>,
    pub headers: HeaderEntries,
}

/// A request under construction together with what it is.
pub struct HttpRequest {
    builder: reqwest::RequestBuilder,
    method: Ghost<HttpMethod>,
    url: Ghost<Seq<char>>,
    query: Ghost<Seq<(Seq<char>, Seq<char>)>>,
    headers: Ghost<HeaderEntries>,
}

impl View for HttpRequest {
    type V = RequestView;

    closed spec fn view(&self) -> RequestView {
        RequestView { method: self.method@, url: self.url@, query: self.query@, headers: self.headers@ }
    }
}

impl HttpRequest {
    /// The request builder, for the body and the sending.
    pub fn into_builder(self) -> reqwest::RequestBuilder {
        self.builder
    }
}

/// `HeaderValue::from_str` (http): `Ok` exactly when every byte of the text's
/// UTF-8 encoding passes the crate's `is_valid` check (`b >= 32 && b != 127
/// || b == b'\t'`, so bytes above 127 pass), and the value holds that text.
#[verifier::external_body]
pub(crate) fn header_value_from_str(s: &str) -> (r: Result<HeaderText, InvalidHeaderValue>)
    ensures
        r is Ok <==> header_value_valid(s@),
        r matches Ok(v) ==> v.text() == s@,
{
    match HeaderValue::from_str(s) {
        Ok(value) => Ok(HeaderText { value, text: Ghost(s@) }),
        Err(e) => Err(e),
    }
}

/// `HeaderMap::new` (http): an empty header map.
#[verifier::external_body]
pub(crate) fn new_header_map() -> (h: Headers)
    ensures
        h.entries() == HeaderEntries::empty(),
{
    Headers { map: HeaderMap::new(), entries: Ghost(HeaderEntries::empty()) }
}

/// The number of headers below which `HeaderMap::insert` (http) cannot run out
/// of room. The map's table holds at most 32768 slots and grows by doubling;
/// when its probe sequences grow long it may double early, once it holds a
/// fifth of its slots. Below 32768 / 5 entries no insert can ask for more than
/// 32768 slots, whatever the hashing did.
pub open spec fn header_map_room() -> nat {
    6553
}

/// `HeaderMap::insert` (http) with a static name: the name, in lower case, now
/// has this value, replacing any value it had. The name is parsed into a
/// header name, which panics on an invalid one, and the insert panics when the
/// map cannot grow (`try_insert` fails with `MaxSizeReached`): `requires` keeps
/// to names of letters, digits and `-`, and to maps with fewer entries than
/// `header_map_room`.
#[verifier::external_body]
pub(crate) fn insert_header(h: &mut Headers, name: &'static str, value: HeaderText)
    requires
        simple_header_name(name@),
        old(h).entries().dom().finite(),
        old(h).entries().dom().len() < header_map_room(),
    ensures
        final(h).entries() == old(h).entries().insert(ascii_lower(name@), value.text()),
{
    h.map.insert(name, value.value);
    h.entries = Ghost(h.entries@.insert(ascii_lower(name@), value.text@));
}

/// `reqwest::Client::builder`: a builder with reqwest's defaults, whose only
/// default header is `accept: */*` (`ClientBuilder::new`).
#[verifier::external_body]
pub(crate) fn http_client_builder() -> (b: HttpClientBuilder)
    ensures
        b.default_headers() == HeaderEntries::empty().insert("accept"@, "*/*"@),
{
    HttpClientBuilder {
        builder: ReqwestClient::builder(),
        headers: Ghost(HeaderEntries::empty().insert("accept"@, "*/*"@)),
    }
}

/// `ClientBuilder::default_headers` (reqwest): each of the map's headers is
/// inserted into the builder's default headers with `HeaderMap::insert`, which
/// panics when that map cannot grow; `requires` keeps the two together below
/// `header_map_room`.
#[verifier::external_body]
pub(crate) fn with_default_headers(b: HttpClientBuilder, h: Headers) -> (r: HttpClientBuilder)
    requires
        b.default_headers().dom().finite(),
        h.entries().dom().finite(),
        b.default_headers().dom().len() + h.entries().dom().len() < header_map_room(),
    ensures
        r.default_headers() == b.default_headers().union_prefer_right(h.entries()),
{
    HttpClientBuilder {
        builder: b.builder.default_headers(h.map),
        headers: Ghost(b.headers@.union_prefer_right(h.entries@)),
    }
}

/// `ClientBuilder::build` (reqwest): the client keeps the builder's default
/// headers. Whether it succeeds depends on the TLS backend and the machine, so
/// that is not claimed.
#[verifier::external_body]
pub(crate) fn build_http_client(b: HttpClientBuilder) -> (r: Result<HttpClient, reqwest::Error>)
    ensures
        r matches Ok(c) ==> c.default_headers() == b.default_headers(),
{
    match b.builder.build() {
        Ok(client) => Ok(HttpClient { client, headers: Ghost(b.headers@) }),
        Err(e) => Err(e),
    }
}

/// `Clone::clone` on a `reqwest::Client`: a handle to the same client, with
/// the same default headers.
#[verifier::external_body]
pub(crate) fn clone_http_client(c: &HttpClient) -> (r: HttpClient)
    ensures
        r.default_headers() == c.default_headers(),
{
    HttpClient { client: c.client.clone(), headers: Ghost(c.headers@) }
}

/// `reqwest::Client::get`: a GET request for the URL, without a query yet,
/// sent with the client's default headers.
#[verifier::external_body]
pub(crate) fn http_get(c: &HttpClient, url: String) -> (r: HttpRequest)
    ensures
        r@ == (RequestView { method: HttpMethod::Get, url: url@, query: Seq::empty(), headers: c.default_headers() }),
{
    let u = Ghost(url@);
    HttpRequest { builder: c.client.get(url), method: Ghost(HttpMethod::Get), url: u, query: Ghost(Seq::empty()), headers: Ghost(c.headers@) }
}

/// `reqwest::Client::post`: a POST request for the URL, without a query yet,
/// sent with the client's default headers.
#[verifier::external_body]
pub(crate) fn http_post(c: &HttpClient, url: String) -> (r: HttpRequest)
    ensures
        r@ == (RequestView { method: HttpMethod::Post, url: url@, query: Seq::empty(), headers: c.default_headers() }),
{
    let u = Ghost(url@);
    HttpRequest { builder: c.client.post(url), method: Ghost(HttpMethod::Post), url: u, query: Ghost(Seq::empty()), headers: Ghost(c.headers@) }
}

/// `reqwest::Client::patch`: a PATCH request for the URL, without a query yet,
/// sent with the client's default headers.
#[verifier::external_body]
pub(crate) fn http_patch(c: &HttpClient, url: String) -> (r: HttpRequest)
    ensures
        r@ == (RequestView { method: HttpMethod::Patch, url: url@, query: Seq::empty(), headers: c.default_headers() }),
{
    let u = Ghost(url@);
    HttpRequest { builder: c.client.patch(url), method: Ghost(HttpMethod::Patch), url: u, query: Ghost(Seq::empty()), headers: Ghost(c.headers@) }
}

/// `reqwest::Client::delete`: a DELETE request for the URL, without a query
/// yet, sent with the client's default headers.
#[verifier::external_body]
pub(crate) fn http_delete(c: &HttpClient, url: String) -> (r: HttpRequest)
    ensures
        r@ == (RequestView { method: HttpMethod::Delete, url: url@, query: Seq::empty(), headers: c.default_headers() }),
{
    let u = Ghost(url@);
    HttpRequest { builder: c.client.delete(url), method: Ghost(HttpMethod::Delete), url: u, query: Ghost(Seq::empty()), headers: Ghost(c.headers@) }
}

/// `RequestBuilder::query` (reqwest): the pairs are appended, URL-encoded, to
/// the request's query; method, URL and headers stay.
#[verifier::external_body]
pub(crate) fn with_query(r: HttpRequest, pairs: &Vec<(String, String)>) -> (q: HttpRequest)
    ensures
        q@ == (RequestView { query: r@.query + query_text(pairs@), ..r@ }),
{
    HttpRequest {
        builder: r.builder.query(pairs),
        method: r.method,
        url: r.url,
        query: Ghost(r.query@ + query_text(pairs@)),
        headers: r.headers,
    }
}

} // verus!
