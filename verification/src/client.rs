//! The HTTP client for the Harvest API: its default headers and the URLs it
//! requests.
use crate::http::{
    build_http_client, clone_http_client, header_value_from_str, http_client_builder, http_delete, http_get,
    http_patch, http_post, insert_header, new_header_map, with_default_headers, HeaderEntries, HttpClient,
    HttpRequest, RequestView,
};
use crate::api::HttpMethod;
use vstd::prelude::*;
use vstd::utf8::encode_utf8;
use vstd::string::StringSliceAdditionalSpecFns;

verus! {

/// The root of every API URL.
pub const BASE_URL: &'static str = "https://api.harvestapp.com/v2";

/// The `User-Agent` the client sends.
pub const APP_USER_AGENT: &'static str = "Harvux (https://github.com/bsamson/harvux)";

/// A byte that may stand in an HTTP header value: visible ASCII, space,
/// any byte above 127, or a tab.
pub open spec fn valid_header_byte(b: u8) -> bool {
    (b >= 32 && b != 127) || b == 9
}

/// Text whose UTF-8 bytes may all stand in an HTTP header value.
pub open spec fn header_value_valid(s: Seq<char>) -> bool {
    forall|i: int| 0 <= i < encode_utf8(s).len() ==> valid_header_byte(#[trigger] encode_utf8(s)[i])
}

/// A header name that `HeaderMap::insert` accepts from a static string:
/// ASCII letters, digits and `-`, and not empty.
pub open spec fn simple_header_name(s: Seq<char>) -> bool {
    &&& 0 < s.len() <= 64
    &&& forall|i: int|
        0 <= i < s.len() ==> {
            let c = #[trigger] s[i];
            ('a' <= c <= 'z') || ('A' <= c <= 'Z') || ('0' <= c <= '9') || c == '-'
        }
}

/// The `Authorization` header's value for a personal access token.
pub open spec fn bearer_text(token: Seq<char>) -> Seq<char> {
    seq!['B', 'e', 'a', 'r', 'e', 'r', ' '] + token
}

/// Why a client could not be made.
#[derive(Debug, Clone, Copy, PartialEq, Eq)]
pub enum ClientError {
    /// The access token cannot stand in the `Authorization` header.
    InvalidAccessToken,
    /// The account ID cannot stand in the `Harvest-Account-Id` header.
    InvalidAccountId,
    /// The HTTP client itself could not be built.
    HttpClientBuild,
}

impl ClientError {
    pub open spec fn message_text(self) -> Seq<char> {
        match self {
            ClientError::InvalidAccessToken => "Invalid access token"@,
            ClientError::InvalidAccountId => "Invalid account ID"@,
            ClientError::HttpClientBuild => "Failed to build HTTP client"@,
        }
    }

    /// The message shown for this error.
    pub fn message(&self) -> (s: String)
        ensures
            s@ == self.message_text(),
    {
        match self {
            ClientError::InvalidAccessToken => String::from_str("Invalid access token"),
            ClientError::InvalidAccountId => String::from_str("Invalid account ID"),
            ClientError::HttpClientBuild => String::from_str("Failed to build HTTP client"),
        }
    }
}

/// The value of the `Authorization` header: `"Bearer "` and the token.
pub fn authorization_value(access_token: &str) -> (s: String)
    ensures
        s@ == bearer_text(access_token@),
{
    proof {
        reveal_strlit("Bearer ");
    }
    String::from_str("Bearer ").concat(access_token)
}

proof fn lemma_user_agent_valid()
    ensures
        header_value_valid(APP_USER_AGENT@),
{
    reveal_strlit("Harvux (https://github.com/bsamson/harvux)");
    broadcast use vstd::string::is_ascii_spec_bytes;
    let s: &str = APP_USER_AGENT;
    assert(vstd::utf8::is_ascii_chars(s@));
    assert(vstd::string::is_ascii(s));
    assert(s.spec_bytes() =~= Seq::new(s@.len(), |i| s@.index(i) as u8));
}

/// A client of the Harvest API that sends the account's credentials with every
/// request.
pub struct HarvestClient {
    http: HttpClient,
    base_url: String,
}

/// What a client is: the root its request paths are appended to and the
/// headers it sends with every request.
pub struct ClientView {
    pub base_url: Seq<char>,
    pub headers: HeaderEntries,
}

impl View for HarvestClient {
    type V = ClientView;

    closed spec fn view(&self) -> ClientView {
        ClientView { base_url: self.base_url@, headers: self.http.default_headers() }
    }
}

/// The headers a client for these credentials sends with every request:
/// reqwest's `accept: */*`, the bearer token, the account ID and the
/// application's user agent.
pub open spec fn credential_headers(access_token: Seq<char>, account_id: Seq<char>) -> HeaderEntries {
    HeaderEntries::empty().insert("accept"@, "*/*"@).insert("authorization"@, bearer_text(access_token)).insert(
        "harvest-account-id"@,
        account_id,
    ).insert("user-agent"@, APP_USER_AGENT@)
}

/// The request a client makes for `method` on `path`, before any query.
pub open spec fn path_request(c: ClientView, method: HttpMethod, path: Seq<char>) -> RequestView {
    RequestView { method, url: c.base_url + path, query: Seq::empty(), headers: c.headers }
}

impl HarvestClient {
    /// The root that request paths are appended to.
    pub open spec fn base_url(&self) -> Seq<char> {
        self@.base_url
    }

    /// The headers sent with every request.
    pub open spec fn default_headers(&self) -> HeaderEntries {
        self@.headers
    }

    /// A client for a personal access token and an account ID.
    ///
    /// It fails with `InvalidAccessToken` exactly when `"Bearer <token>"` cannot
    /// be a header value, else with `InvalidAccountId` exactly when the account
    /// ID cannot be one; with both valid it fails only when the HTTP client
    /// cannot be built.
    pub fn new(access_token: &str, account_id: &str) -> (r: Result<HarvestClient, ClientError>)
        ensures
            r == Err::<HarvestClient, ClientError>(ClientError::InvalidAccessToken) <==> !header_value_valid(
                bearer_text(access_token@),
            ),
            r == Err::<HarvestClient, ClientError>(ClientError::InvalidAccountId) <==> (header_value_valid(
                bearer_text(access_token@),
            ) && !header_value_valid(account_id@)),
            r is Ok ==> r->Ok_0.base_url() == BASE_URL@,
            r is Ok ==> r->Ok_0.default_headers() == credential_headers(access_token@, account_id@),
    {
        let mut headers = new_header_map();
        let auth = authorization_value(access_token);
        let auth_value = match header_value_from_str(auth.as_str()) {
            Ok(v) => v,
            Err(_) => return Err(ClientError::InvalidAccessToken),
        };
        proof {
            reveal_strlit("authorization");
            reveal_strlit("Harvest-Account-Id");
            reveal_strlit("user-agent");
        }
        insert_header(&mut headers, "authorization", auth_value);
        let account_value = match header_value_from_str(account_id) {
            Ok(v) => v,
            Err(_) => return Err(ClientError::InvalidAccountId),
        };
        insert_header(&mut headers, "Harvest-Account-Id", account_value);
        proof {
            lemma_user_agent_valid();
        }
        match header_value_from_str(APP_USER_AGENT) {
            Ok(v) => insert_header(&mut headers, "user-agent", v),
            Err(_) => {
                assert(false);
            },
        }
        proof {
            reveal_strlit("accept");
            reveal_strlit("harvest-account-id");
            assert(crate::http::ascii_lower("authorization"@) =~= "authorization"@);
            assert(crate::http::ascii_lower("Harvest-Account-Id"@) =~= "harvest-account-id"@);
            assert(crate::http::ascii_lower("user-agent"@) =~= "user-agent"@);
        }
        let builder = with_default_headers(http_client_builder(), headers);
        assert(builder.default_headers() =~= credential_headers(access_token@, account_id@));
        Self::client_from_build(build_http_client(builder))
    }

    /// The client once reqwest's builder was built: a built HTTP client always
    /// gives a client for the API root with that HTTP client's headers, and
    /// only a failed build gives `HttpClientBuild`.
    pub fn client_from_build(built: Result<HttpClient, reqwest::Error>) -> (r: Result<HarvestClient, ClientError>)
        ensures
            match built {
                Ok(h) => r matches Ok(c) && c@ == (ClientView { base_url: BASE_URL@, headers: h.default_headers() }),
                Err(_) => r == Err::<HarvestClient, ClientError>(ClientError::HttpClientBuild),
            },
    {
        match built {
            Ok(http) => Ok(HarvestClient { http, base_url: String::from_str(BASE_URL) }),
            Err(_) => Err(ClientError::HttpClientBuild),
        }
    }

    /// The full URL of an API path.
    pub fn url_for(&self, path: &str) -> (url: String)
        ensures
            url@ == self.base_url() + path@,
    {
        self.base_url.clone().concat(path)
    }

    /// A `GET` request for an API path, with the client's headers.
    pub fn get(&self, path: &str) -> (r: HttpRequest)
        ensures
            r@ == path_request(self@, HttpMethod::Get, path@),
    {
        http_get(&self.http, self.url_for(path))
    }

    /// A `POST` request for an API path, with the client's headers.
    pub fn post(&self, path: &str) -> (r: HttpRequest)
        ensures
            r@ == path_request(self@, HttpMethod::Post, path@),
    {
        http_post(&self.http, self.url_for(path))
    }

    /// A `PATCH` request for an API path, with the client's headers.
    pub fn patch(&self, path: &str) -> (r: HttpRequest)
        ensures
            r@ == path_request(self@, HttpMethod::Patch, path@),
    {
        http_patch(&self.http, self.url_for(path))
    }

    /// A `DELETE` request for an API path, with the client's headers.
    pub fn delete(&self, path: &str) -> (r: HttpRequest)
        ensures
            r@ == path_request(self@, HttpMethod::Delete, path@),
    {
        http_delete(&self.http, self.url_for(path))
    }
}

impl Clone for HarvestClient {
    /// A client that shares the connection pool and sends the same requests.
    fn clone(&self) -> (c: Self)
        ensures
            c@ == self@,
    {
        HarvestClient { http: clone_http_client(&self.http), base_url: self.base_url.clone() }
    }
}

} // verus!
