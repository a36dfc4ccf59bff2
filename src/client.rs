//! The client's configuration and the signed requests it describes. Sending
//! them is left to the caller's HTTP transport.

use vstd::prelude::*;
use crate::sign::{
    is_lower_hex_text, payload_of, recv_window, recv_window_str, sign_hmac_sha256, sign_payload,
    signature_of,
};
use crate::text::{decimal_of, decimal_string};

verus! {

/// The HTTP method of a signed request.
#[derive(Clone, Copy, Debug, PartialEq, Eq, Structural)]
pub enum Method {
    Get,
    Post,
}

/// What a signed request is, in mathematical terms.
pub ghost struct RequestView {
    pub method: Method,
    pub url: Seq<char>,
    pub body: Option<Seq<char>>,
    pub headers: Seq<(Seq<char>, Seq<char>)>,
    pub timestamp: int,
}

/// A request ready to be sent: method, full URL, body (POST only), headers
/// and the timestamp that was signed.
pub struct SignedRequest {
    pub method: Method,
    pub url: String,
    pub body: Option<String>,
    pub headers: Vec<(String, String)>,
    pub timestamp: i128,
}

pub open spec fn headers_view(h: Seq<(String, String)>) -> Seq<(Seq<char>, Seq<char>)> {
    h.map_values(|p: (String, String)| (p.0@, p.1@))
}

pub open spec fn body_view(b: Option<String>) -> Option<Seq<char>> {
    match b {
        Some(s) => Some(s@),
        None => None,
    }
}

impl View for SignedRequest {
    type V = RequestView;

    open spec fn view(&self) -> RequestView {
        RequestView {
            method: self.method,
            url: self.url@,
            body: body_view(self.body),
            headers: headers_view(self.headers@),
            timestamp: self.timestamp as int,
        }
    }
}

/// The configuration of a client: base URL and credentials.
pub ghost struct ClientView {
    pub url: Seq<char>,
    pub api_key: Seq<char>,
    pub secret: Seq<char>,
}

/// The headers of a signed request, in the order they are attached.
pub open spec fn signed_headers(api_key: Seq<char>, signature: Seq<char>, timestamp: int) -> Seq<
    (Seq<char>, Seq<char>),
> {
    seq![
        ("Accept"@, "application/json"@),
        ("X-BAPI-SIGN"@, signature),
        ("X-BAPI-API-KEY"@, api_key),
        ("X-BAPI-TIMESTAMP"@, decimal_of(timestamp)),
        ("X-BAPI-RECV-WINDOW"@, recv_window()),
    ]
}

/// The URL of a request: for GET the query string follows a `?`; a POST
/// carries its parameters in the body instead.
pub open spec fn request_url(base: Seq<char>, method: Method, path: Seq<char>, param: Seq<char>) -> Seq<char> {
    match method {
        Method::Get => base + path + "?"@ + param,
        Method::Post => base + path,
    }
}

/// The request that `client` signs at `timestamp` for `method` on `path`,
/// with `param` as the query string (GET) or the body (POST). The same
/// `param` is the body component of the signed payload.
pub open spec fn request_model(
    client: ClientView,
    method: Method,
    path: Seq<char>,
    param: Seq<char>,
    timestamp: int,
) -> RequestView {
    RequestView {
        method,
        url: request_url(client.url, method, path, param),
        body: match method {
            Method::Get => None,
            Method::Post => Some(param),
        },
        headers: signed_headers(
            client.api_key,
            signature_of(client.secret, payload_of(timestamp, client.api_key, param)),
            timestamp,
        ),
        timestamp,
    }
}

/// The part of a request that goes on the wire as query string or body.
pub open spec fn transmitted(req: RequestView, base: Seq<char>, path: Seq<char>) -> Seq<char> {
    match req.method {
        Method::Get => req.url.subrange((base + path + "?"@).len() as int, req.url.len() as int),
        Method::Post => req.body->0,
    }
}

/// The request timestamp: the current time, one second back.
pub open spec fn request_timestamp(now_ms: int) -> int {
    now_ms - 1000
}

/// Path of the cancel-all endpoint.
pub open spec fn cancel_all_path() -> Seq<char> {
    "/v5/order/cancel-all"@
}

/// Body of the cancel-all request: category "linear".
pub open spec fn cancel_all_body() -> Seq<char> {
    "{\"category\":\"linear\"}"@
}

/// Path of the position-list endpoint.
pub open spec fn position_list_path() -> Seq<char> {
    "/v5/position/list"@
}

/// Query of the position-list request: category "linear".
pub open spec fn position_list_query() -> Seq<char> {
    "category=linear"@
}

/// A client of the exchange's private REST endpoints.
#[derive(Clone)]
pub struct BybitClient {
    url: String,
    api_key: String,
    secret: String,
}

impl View for BybitClient {
    type V = ClientView;

    closed spec fn view(&self) -> ClientView {
        ClientView { url: self.url@, api_key: self.api_key@, secret: self.secret@ }
    }
}

impl BybitClient {
    /// A client for the endpoints under `url`, with the given credentials.
    /// Nothing is validated and nothing is sent.
    pub fn new(url: &str, api_key: &str, secret: &str) -> (r: Self)
        ensures
            r@ == (ClientView { url: url@, api_key: api_key@, secret: secret@ }),
    {
        BybitClient { url: url.to_owned(), api_key: api_key.to_owned(), secret: secret.to_owned() }
    }

    /// The base URL.
    pub fn url(&self) -> (r: &str)
        ensures
            r@ == self@.url,
    {
        self.url.as_str()
    }

    /// The API key.
    pub fn api_key(&self) -> (r: &str)
        ensures
            r@ == self@.api_key,
    {
        self.api_key.as_str()
    }

    /// Signs a request for `method` on `path`, with `param` as its query
    /// string (GET) or body (POST), at the current time `now_ms`: the
    /// timestamp is `now_ms - 1000`, and `param` is signed exactly as it is
    /// sent.
    pub fn sign_request(&self, method: Method, path: &str, param: &str, now_ms: i64) -> (r:
        SignedRequest)
        ensures
            r@ == request_model(self@, method, path@, param@, request_timestamp(now_ms as int)),
            r@.headers[1].1.len() == 64,
            is_lower_hex_text(r@.headers[1].1),
    {
        let timestamp: i128 = now_ms as i128 - 1000;
        let payload = sign_payload(timestamp, self.api_key.as_str(), param);
        let signature = sign_hmac_sha256(self.secret.as_str(), payload.as_str());
        let mut url = self.url.clone();
        url.append(path);
        let body = match method {
            Method::Get => {
                url.append("?");
                url.append(param);
                None
            },
            Method::Post => Some(param.to_owned()),
        };
        let mut headers: Vec<(String, String)> = Vec::new();
        headers.push((String::from_str("Accept"), String::from_str("application/json")));
        headers.push((String::from_str("X-BAPI-SIGN"), signature));
        headers.push((String::from_str("X-BAPI-API-KEY"), self.api_key.clone()));
        headers.push((String::from_str("X-BAPI-TIMESTAMP"), decimal_string(timestamp)));
        headers.push((String::from_str("X-BAPI-RECV-WINDOW"), String::from_str(recv_window_str())));
        let r = SignedRequest { method, url, body, headers, timestamp };
        let ghost expected = request_model(self@, method, path@, param@, timestamp as int);
        assert(r@.headers =~= expected.headers);
        assert(r@.url =~= expected.url);
        r
    }

    /// Signs a GET request for `path` with query string `query` at the
    /// current time `now_ms`.
    pub fn signed_get(&self, path: &str, query: &str, now_ms: i64) -> (r: SignedRequest)
        ensures
            r@ == request_model(self@, Method::Get, path@, query@, request_timestamp(now_ms as int)),
            r@.headers[1].1.len() == 64,
            is_lower_hex_text(r@.headers[1].1),
    {
        self.sign_request(Method::Get, path, query, now_ms)
    }

    /// Signs a POST request for `path` with `body` at the current time
    /// `now_ms`.
    pub fn signed_post(&self, path: &str, body: &str, now_ms: i64) -> (r: SignedRequest)
        ensures
            r@ == request_model(self@, Method::Post, path@, body@, request_timestamp(now_ms as int)),
            r@.headers[1].1.len() == 64,
            is_lower_hex_text(r@.headers[1].1),
    {
        self.sign_request(Method::Post, path, body, now_ms)
    }

    /// The signed request, at the current time `now_ms`, that cancels all
    /// open orders of category "linear".
    pub fn cancel_all_orders_request(&self, now_ms: i64) -> (r: SignedRequest)
        ensures
            r@ == request_model(
                self@,
                Method::Post,
                cancel_all_path(),
                cancel_all_body(),
                request_timestamp(now_ms as int),
            ),
    {
        self.signed_post("/v5/order/cancel-all", "{\"category\":\"linear\"}", now_ms)
    }

    /// The signed request, at the current time `now_ms`, that lists the
    /// positions of category "linear".
    pub fn position_information_request(&self, now_ms: i64) -> (r: SignedRequest)
        ensures
            r@ == request_model(
                self@,
                Method::Get,
                position_list_path(),
                position_list_query(),
                request_timestamp(now_ms as int),
            ),
    {
        self.signed_get("/v5/position/list", "category=linear", now_ms)
    }
}

/// What a signed request sends as query string or body is exactly the body
/// component of the payload its signature covers, and the signature header
/// holds the signature of that payload under the client's secret.
pub proof fn lemma_signed_over_transmitted(
    client: ClientView,
    method: Method,
    path: Seq<char>,
    param: Seq<char>,
    timestamp: int,
)
    ensures
        ({
            let req = request_model(client, method, path, param, timestamp);
            &&& transmitted(req, client.url, path) == param
            &&& req.headers[1].1 == signature_of(client.secret, payload_of(timestamp, client.api_key, param))
            &&& req.headers[3].1 == decimal_of(timestamp)
        }),
{
    let req = request_model(client, method, path, param, timestamp);
    let prefix = client.url + path + "?"@;
    if method == Method::Get {
        assert(req.url =~= prefix + param);
        assert(req.url.subrange(prefix.len() as int, req.url.len() as int) =~= param);
    }
}

} // verus!
