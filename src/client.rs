//! Client configuration, outbound requests and the error taxonomy.
use crate::json::pair_views;
use crate::validation::ValidationError;
use vstd::prelude::*;
use vstd::string::*;

verus! {

/// Credentials of an OAuth application registered with ZEBEDEE.
#[derive(Clone, Debug)]
pub struct ZebedeeOauth {
    pub client_id: String,
    pub secret: String,
    pub redirect_uri: String,
}

/// Read-only configuration shared by every operation: the API key and, for
/// the delegated-access flow, the OAuth application.
#[derive(Clone, Debug)]
pub struct ZebedeeClient {
    pub apikey: String,
    pub oauth: ZebedeeOauth,
}

impl ZebedeeClient {
    /// A client that authenticates with an API key only.
    pub fn new(apikey: String) -> (r: ZebedeeClient)
        ensures
            r.apikey@ == apikey@,
            r.oauth.client_id@.len() == 0,
            r.oauth.secret@.len() == 0,
            r.oauth.redirect_uri@.len() == 0,
    {
        ZebedeeClient {
            apikey,
            oauth: ZebedeeOauth {
                client_id: String::new(),
                secret: String::new(),
                redirect_uri: String::new(),
            },
        }
    }

    /// The same client with an OAuth application attached.
    pub fn with_oauth(self, client_id: String, secret: String, redirect_uri: String) -> (r:
        ZebedeeClient)
        ensures
            r.apikey@ == self.apikey@,
            r.oauth.client_id@ == client_id@,
            r.oauth.secret@ == secret@,
            r.oauth.redirect_uri@ == redirect_uri@,
    {
        ZebedeeClient { apikey: self.apikey, oauth: ZebedeeOauth { client_id, secret, redirect_uri } }
    }
}

#[derive(Clone, Copy, Debug, PartialEq, Eq, Structural)]
pub enum Method {
    Get,
    Post,
}

/// One HTTP call to be made: absolute URL, headers and JSON body.
#[derive(Clone, Debug)]
pub struct ApiRequest {
    pub method: Method,
    pub url: String,
    pub headers: Vec<(String, String)>,
    pub body: Option<String>,
}

/// Why an operation produced no value.
#[derive(Clone, Debug)]
pub enum ApiError {
    /// An outbound payload breaks one of its field rules; nothing was sent.
    Validation(ValidationError),
    /// No response was received.
    Transport { message: String },
    /// The server answered with another status than the operation's success
    /// status; `message` is the body as received.
    ServerRejected { status: u16, message: String },
    /// The status was the success status but the body does not match the
    /// expected schema.
    UnexpectedSchema { parse_error: String, raw_body: String, status: u16 },
}

pub const STATUS_OK: u16 = 200;

pub open spec fn api_base() -> Seq<char> {
    "https://api.zebedee.io"@
}

pub open spec fn json_content_type() -> (Seq<char>, Seq<char>) {
    ("Content-Type"@, "application/json"@)
}

/// The headers of a call authenticated by API key.
pub open spec fn apikey_headers(apikey: Seq<char>) -> Seq<(Seq<char>, Seq<char>)> {
    seq![json_content_type(), ("apikey"@, apikey)]
}

/// A request carrying the client's API key to `api_base() + path`.
pub open spec fn is_apikey_request(
    r: ApiRequest,
    client: ZebedeeClient,
    method: Method,
    path: Seq<char>,
    body: Option<Seq<char>>,
) -> bool {
    &&& r.method == method
    &&& r.url@ == api_base() + path
    &&& pair_views(r.headers@) == apikey_headers(client.apikey@)
    &&& match (r.body, body) {
        (Some(b), Some(s)) => b@ == s,
        (None, None) => true,
        _ => false,
    }
}

/// Builds a call to `path` under the service's base URL, authenticated by
/// the client's API key.
pub fn apikey_request(client: &ZebedeeClient, method: Method, path: &str, body: Option<String>) -> (r:
    ApiRequest)
    ensures
        is_apikey_request(
            r,
            *client,
            method,
            path@,
            match body {
                Some(b) => Some(b@),
                None => None,
            },
        ),
{
    let url = String::from_str("https://api.zebedee.io").concat(path);
    let mut headers: Vec<(String, String)> = Vec::new();
    headers.push((String::from_str("Content-Type"), String::from_str("application/json")));
    headers.push((String::from_str("apikey"), client.apikey.clone()));
    assert(pair_views(headers@) =~= apikey_headers(client.apikey@));
    ApiRequest { method, url, headers, body }
}

/// The headers of a call authenticated by an OAuth access token.
pub open spec fn bearer_headers(token: Seq<char>) -> Seq<(Seq<char>, Seq<char>)> {
    seq![json_content_type(), ("Authorization"@, "Bearer "@ + token)]
}

/// Builds a call to `path` under the service's base URL on behalf of a user,
/// authenticated by the access token that user granted.
pub fn bearer_request(access_token: &str, method: Method, path: &str, body: Option<String>) -> (r:
    ApiRequest)
    ensures
        r.method == method,
        r.url@ == api_base() + path@,
        pair_views(r.headers@) == bearer_headers(access_token@),
        match (r.body, body) {
            (Some(a), Some(b)) => a@ == b@,
            (None, None) => true,
            _ => false,
        },
{
    let url = String::from_str("https://api.zebedee.io").concat(path);
    let mut headers: Vec<(String, String)> = Vec::new();
    headers.push((String::from_str("Content-Type"), String::from_str("application/json")));
    headers.push((String::from_str("Authorization"), String::from_str("Bearer ").concat(access_token)));
    assert(pair_views(headers@) =~= bearer_headers(access_token@));
    ApiRequest { method, url, headers, body }
}

/// `r` is the server's refusal with `status`, carrying `body` verbatim.
pub open spec fn rejected<T>(r: Result<T, ApiError>, status: u16, body: Seq<char>) -> bool {
    r matches Err(ApiError::ServerRejected { status: s, message: m }) && s == status && m@ == body
}

/// `r` reports that `body`, received with `status`, does not match the
/// expected schema.
pub open spec fn schema_error<T>(r: Result<T, ApiError>, status: u16, body: Seq<char>) -> bool {
    r matches Err(ApiError::UnexpectedSchema { raw_body: b, status: s, .. }) && b@ == body && s
        == status
}

/// Passes `body` on when `status` is the expected one; otherwise the server's
/// refusal, with the body verbatim.
pub fn expect_status(status: u16, expected: u16, body: String) -> (r: Result<String, ApiError>)
    ensures
        status == expected ==> (r matches Ok(b) && b@ == body@),
        status != expected ==> (r matches Err(ApiError::ServerRejected { status: s, message: m })
            && s == status && m@ == body@),
{
    if status == expected {
        Ok(body)
    } else {
        Err(ApiError::ServerRejected { status, message: body })
    }
}

/// A body that answered with the success status but does not read as
/// `schema`.
pub fn schema_mismatch(schema: &str, status: u16, body: String) -> (r: ApiError)
    ensures
        (r matches ApiError::UnexpectedSchema { parse_error: e, raw_body: b, status: s } && b@
            == body@ && s == status && e@ == "body does not match the "@ + schema@ + " schema"@),
{
    let e = String::from_str("body does not match the ").concat(schema).concat(" schema");
    ApiError::UnexpectedSchema { parse_error: e, raw_body: body, status }
}

} // verus!
