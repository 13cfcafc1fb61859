//! The dispatcher: from an endpoint descriptor and an encoded request to the
//! HTTP request that is sent, and from the body that comes back to the data
//! or the error it holds.
//!
//! Nothing here touches the network. [`Client::request`] says which request
//! goes out; the caller sends it and hands the body to
//! [`Client::handle_api_return`].

use vstd::prelude::*;
use vstd::string::*;
use vstd::utf8::*;
use crate::endpoints::{Endpoint, EndpointRequest, Method, Response, SecurityType};
use crate::errors::BinanceApiError;
use crate::decode::FromJson;
use crate::json::{json_document, shape_error, string_view, Json};
use crate::signer::{optional_text, sign_request, signed_query};

verus! {

/// The serialization of the URL that a text spells, where it spells one.
///
/// Parsing is done by the `url` crate; the outcome depends on the text alone.
pub uninterp spec fn url_parsed(text: Seq<char>) -> Option<Seq<char>>;

/// The serialization of the URL that `reference` names relative to `base`,
/// where `base` is a URL and the reference resolves.
pub uninterp spec fn url_joined(base: Seq<char>, reference: Seq<char>) -> Option<Seq<char>>;

/// The serialization of `url` with its query replaced: by `query`, or by
/// none at all.
pub uninterp spec fn url_with_query(url: Seq<char>, query: Option<Seq<char>>) -> Option<
    Seq<char>,
>;

/// Parses a URL and returns its serialization.
///
/// Trusted: `url::Url::parse`, then `String::from` of the URL.
#[verifier::external_body]
fn parse_url(text: &str) -> (r: Result<String, url::ParseError>)
    ensures
        r is Ok <==> url_parsed(text@) is Some,
        r matches Ok(u) ==> url_parsed(text@) == Some(u@),
{
    url::Url::parse(text).map(String::from)
}

/// Resolves a reference against a base URL.
///
/// Trusted: `url::Url::join` on the URL that `base` parses to; the error of
/// either step is returned.
#[verifier::external_body]
fn join_url(base: &str, reference: &str) -> (r: Result<String, url::ParseError>)
    ensures
        r is Ok <==> url_joined(base@, reference@) is Some,
        r matches Ok(u) ==> url_joined(base@, reference@) == Some(u@),
{
    url::Url::parse(base)?.join(reference).map(String::from)
}

/// Replaces the query of a URL.
///
/// Trusted: `url::Url::set_query` on the URL that `url` parses to.
#[verifier::external_body]
fn set_url_query(url: &str, query: Option<&str>) -> (r: Result<String, url::ParseError>)
    ensures
        r is Ok <==> url_with_query(url@, optional_text(query)) is Some,
        r matches Ok(u) ==> url_with_query(url@, optional_text(query)) == Some(u@),
{
    let mut parsed = url::Url::parse(url)?;
    parsed.set_query(query);
    Ok(String::from(parsed))
}

/// Whether a byte may stand in the value of an HTTP header.
pub open spec fn is_header_byte(b: u8) -> bool {
    (b >= 32 && b != 127) || b == 9
}

/// Whether a text is made of visible ASCII characters, spaces and tabs.
pub open spec fn is_header_text(text: Seq<char>) -> bool {
    forall|i: int| 0 <= i < text.len() ==> (' ' <= #[trigger] text[i] <= '~') || text[i] == '\t'
}

/// Whether the `http` crate takes a text as the value of a header.
///
/// Trusted: `http::HeaderValue::from_str`, which is `Ok` exactly when every
/// byte of the text is at least 32 and not 127, or a tab.
#[verifier::external_body]
fn is_header_value(text: &str) -> (ok: bool)
    ensures
        ok == (forall|i: int|
            0 <= i < encode_utf8(text@).len() ==> is_header_byte(#[trigger] encode_utf8(text@)[i])),
{
    http::HeaderValue::from_str(text).is_ok()
}

/// One header of a request.
#[derive(Debug)]
pub struct Header {
    pub name: String,
    pub value: String,
}

impl View for Header {
    type V = (Seq<char>, Seq<char>);

    open spec fn view(&self) -> (Seq<char>, Seq<char>) {
        (self.name@, self.value@)
    }
}

/// The request that goes out for one call.
#[derive(Debug)]
pub struct HttpRequest {
    pub method: Method,
    /// The full URL, query included.
    pub url: String,
    pub headers: Vec<Header>,
    /// The form-encoded body, where the method sends one.
    pub body: Option<String>,
}

/// The headers of a request: the user agent and the content type, and the
/// API key where the call sends it.
pub open spec fn request_headers(api_key: Seq<char>, with_key: bool) -> Seq<
    (Seq<char>, Seq<char>),
> {
    if with_key {
        seq![
            ("user-agent"@, "binance-rs"@),
            ("content-type"@, "application/x-www-form-urlencoded"@),
            ("x-mbx-apikey"@, api_key),
        ]
    } else {
        seq![
            ("user-agent"@, "binance-rs"@),
            ("content-type"@, "application/x-www-form-urlencoded"@),
        ]
    }
}

/// Whether the dispatcher sends requests of this method.
pub open spec fn is_dispatched(method: Method) -> bool {
    method is GET || method is POST
}

/// Whether the parameters of a call are signed before they are sent: always
/// in the signed tiers, and on `GET` in the tiers that send the key, where
/// the signature parameter is still appended.
pub open spec fn is_payload_signed(method: Method, security: SecurityType) -> bool {
    security.spec_is_signed() || (method is GET && security.spec_sends_key())
}

/// The parameters of a call as they are sent.
pub open spec fn payload(
    secret: Seq<char>,
    method: Method,
    security: SecurityType,
    query: Option<Seq<char>>,
) -> Option<Seq<char>> {
    if is_payload_signed(method, security) {
        Some(signed_query(secret, query))
    } else {
        query
    }
}

/// The URL of a call: the path resolved against the host, with the given
/// query.
pub open spec fn request_url(host: Seq<char>, path: Seq<char>, query: Option<Seq<char>>) -> Option<
    Seq<char>,
> {
    match url_joined(host, path) {
        Some(url) => url_with_query(url, query),
        None => None,
    }
}

/// The views of a list of headers.
pub open spec fn headers_view(headers: Seq<Header>) -> Seq<(Seq<char>, Seq<char>)> {
    Seq::new(headers.len(), |i: int| headers[i]@)
}

/// A client of the REST interface: the credentials and the host.
///
/// Credentials that are left out are empty strings; signing with an empty
/// secret is still performed.
#[derive(Debug, Clone)]
pub struct Client {
    api_key: String,
    secret_key: String,
    host: String,
}

/// What the outcome of a call must be, given what resolving the URL gave.
pub open spec fn describes_outcome(
    api_key: Seq<char>,
    secret: Seq<char>,
    host: Seq<char>,
    method: Method,
    security: SecurityType,
    path: Seq<char>,
    query: Option<Seq<char>>,
    r: Result<HttpRequest, BinanceApiError>,
) -> bool {
    let sent = payload(secret, method, security, query);
    let url_query = if method is GET {
        sent
    } else {
        None
    };
    if !is_dispatched(method) {
        r matches Err(BinanceApiError::Custom(message)) && message@
            == "the method is not implemented"@
    } else if request_url(host, path, url_query) is None {
        r matches Err(BinanceApiError::URLError(_))
    } else if security.spec_sends_key() && !is_header_text(api_key) {
        r matches Err(BinanceApiError::InvalidHeaderValue)
    } else {
        r matches Ok(request) && {
            &&& request.method == method
            &&& Some(request.url@) == request_url(host, path, url_query)
            &&& headers_view(request.headers@) == request_headers(
                api_key,
                security.spec_sends_key(),
            )
            &&& string_view(request.body) == (if method is POST {
                sent
            } else {
                None
            })
        }
    }
}

/// Whether a list of headers holds one of the given name.
pub open spec fn has_header(headers: Seq<(Seq<char>, Seq<char>)>, name: Seq<char>) -> bool {
    exists|i: int| 0 <= i < headers.len() && (#[trigger] headers[i]).0 == name
}

/// What a request carries as its parameters: the query that its URL was
/// made with on `GET`, its body on `POST`.
pub open spec fn carries(
    host: Seq<char>,
    path: Seq<char>,
    method: Method,
    request: HttpRequest,
    sent: Option<Seq<char>>,
) -> bool {
    if method is GET {
        Some(request.url@) == request_url(host, path, sent) && request.body is None
    } else {
        Some(request.url@) == request_url(host, path, None) && string_view(request.body) == sent
    }
}

/// Authentication goes by the tier, for `GET` and for `POST` alike: the API
/// key travels in a header exactly in the tiers `UserStream` and
/// `MarketData`; the tiers `Trade`, `Margin` and `UserData` send the signed
/// parameters and no key; the public tier sends the parameters as they are,
/// with neither key nor signature.
pub proof fn lemma_authentication_by_tier(
    api_key: Seq<char>,
    secret: Seq<char>,
    host: Seq<char>,
    method: Method,
    security: SecurityType,
    path: Seq<char>,
    query: Option<Seq<char>>,
    request: HttpRequest,
)
    requires
        is_dispatched(method),
        describes_outcome(
            api_key,
            secret,
            host,
            method,
            security,
            path,
            query,
            Ok::<HttpRequest, BinanceApiError>(request),
        ),
    ensures
        has_header(headers_view(request.headers@), "x-mbx-apikey"@) <==> (security is UserStream
            || security is MarketData),
        has_header(headers_view(request.headers@), "x-mbx-apikey"@) ==> headers_view(
            request.headers@,
        )[2] == ("x-mbx-apikey"@, api_key),
        security is Trade || security is Margin || security is UserData ==> carries(
            host,
            path,
            method,
            request,
            Some(signed_query(secret, query)),
        ),
        security is Public ==> carries(host, path, method, request, query),
        (security is UserStream || security is MarketData) && method is GET ==> carries(
            host,
            path,
            method,
            request,
            Some(signed_query(secret, query)),
        ),
        (security is UserStream || security is MarketData) && method is POST ==> carries(
            host,
            path,
            method,
            request,
            query,
        ),
{
    reveal_strlit("x-mbx-apikey");
    reveal_strlit("user-agent");
    reveal_strlit("content-type");
    let headers = headers_view(request.headers@);
    let with_key = security.spec_sends_key();
    assert(headers == request_headers(api_key, with_key));
    assert("user-agent"@ != "x-mbx-apikey"@) by {
        assert("user-agent"@.len() == 10);
        assert("x-mbx-apikey"@.len() == 12);
    }
    assert("content-type"@ != "x-mbx-apikey"@) by {
        assert("content-type"@[0] == 'c');
        assert("x-mbx-apikey"@[0] == 'x');
    }
    if with_key {
        assert(headers[2].0 == "x-mbx-apikey"@);
    } else {
        assert(headers.len() == 2);
        assert(headers[0].0 == "user-agent"@);
        assert(headers[1].0 == "content-type"@);
    }
}

/// An ASCII text has one byte per character, so the two tests of a header
/// value agree on it.
proof fn lemma_header_text_bytes(text: Seq<char>)
    requires
        is_ascii_chars(text),
    ensures
        is_header_text(text) <==> (forall|i: int|
            0 <= i < encode_utf8(text).len() ==> is_header_byte(#[trigger] encode_utf8(text)[i])),
{
    is_ascii_chars_encode_utf8(text);
    let bytes = encode_utf8(text);
    if is_header_text(text) {
        assert forall|i: int| 0 <= i < bytes.len() implies is_header_byte(#[trigger] bytes[i]) by {
            assert(text[i] as u8 == bytes[i]);
            assert((' ' <= text[i] <= '~') || text[i] == '\t');
        }
    }
    if forall|i: int| 0 <= i < bytes.len() ==> is_header_byte(#[trigger] bytes[i]) {
        assert forall|i: int| 0 <= i < text.len() implies (' ' <= #[trigger] text[i] <= '~')
            || text[i] == '\t' by {
            assert(text[i] as u8 == bytes[i]);
            assert(is_header_byte(bytes[i]));
            assert('\0' <= text[i] <= '\u{7f}');
        }
    }
}

/// A text with a character outside ASCII is no header text.
proof fn lemma_header_text_is_ascii(text: Seq<char>)
    requires
        is_header_text(text),
    ensures
        is_ascii_chars(text),
{
    assert forall|i: int| 0 <= i < text.len() implies '\0' <= #[trigger] text[i] <= '\u{7f}' by {
        assert((' ' <= text[i] <= '~') || text[i] == '\t');
    }
}

/// Whether the API key can stand in a header: visible ASCII characters,
/// spaces and tabs only.
pub fn is_valid_api_key(api_key: &str) -> (ok: bool)
    ensures
        ok == is_header_text(api_key@),
{
    if !api_key.is_ascii() {
        proof {
            if is_header_text(api_key@) {
                lemma_header_text_is_ascii(api_key@);
            }
        }
        false
    } else {
        proof {
            lemma_header_text_bytes(api_key@);
        }
        is_header_value(api_key)
    }
}

impl Client {
    /// Whether the host of the client is a URL.
    pub open spec fn well_formed(&self) -> bool {
        url_parsed(self.spec_host()) is Some
    }

    pub closed spec fn spec_api_key(&self) -> Seq<char> {
        self.api_key@
    }

    pub closed spec fn spec_secret_key(&self) -> Seq<char> {
        self.secret_key@
    }

    pub closed spec fn spec_host(&self) -> Seq<char> {
        self.host@
    }

    /// A client for the given host. Credentials that are left out are empty.
    pub fn new(api_key: Option<String>, secret_key: Option<String>, host: &str) -> (client: Self)
        requires
            url_parsed(host@) is Some,
        ensures
            client.well_formed(),
            client.spec_host() == host@,
            client.spec_api_key() == (match api_key {
                Some(k) => k@,
                None => Seq::empty(),
            }),
            client.spec_secret_key() == (match secret_key {
                Some(k) => k@,
                None => Seq::empty(),
            }),
    {
        Client {
            api_key: match api_key {
                Some(k) => k,
                None => String::new(),
            },
            secret_key: match secret_key {
                Some(k) => k,
                None => String::new(),
            },
            host: String::from_str(host),
        }
    }

    /// A client for the given host, or the error of a host that is no URL.
    pub fn try_new(api_key: Option<String>, secret_key: Option<String>, host: &str) -> (r: Result<
        Self,
        BinanceApiError,
    >)
        ensures
            r is Ok <==> url_parsed(host@) is Some,
            r matches Err(e) ==> e is URLError,
            r matches Ok(client) ==> {
                &&& client.well_formed()
                &&& client.spec_host() == host@
                &&& client.spec_api_key() == (match api_key {
                    Some(k) => k@,
                    None => Seq::empty(),
                })
                &&& client.spec_secret_key() == (match secret_key {
                    Some(k) => k@,
                    None => Seq::empty(),
                })
            },
    {
        match parse_url(host) {
            Ok(_) => Ok(Self::new(api_key, secret_key, host)),
            Err(e) => Err(BinanceApiError::URLError(e)),
        }
    }

    /// The API key and the secret key.
    pub fn get_keys(&self) -> (keys: (&str, &str))
        ensures
            keys.0@ == self.spec_api_key(),
            keys.1@ == self.spec_secret_key(),
    {
        (self.api_key.as_str(), self.secret_key.as_str())
    }

    /// The host that the client was made for.
    pub fn host(&self) -> (host: &str)
        ensures
            host@ == self.spec_host(),
    {
        self.host.as_str()
    }

    /// Signs a query string with the secret key of the client.
    pub fn sign_request(&self, request: Option<&str>) -> (signed: String)
        ensures
            signed@ == signed_query(self.spec_secret_key(), optional_text(request)),
    {
        sign_request(self.secret_key.as_str(), request)
    }

    /// The headers of a request. The API key is sent unless `no_key` says
    /// otherwise, and must then be a header text.
    pub fn build_headers(&self, no_key: bool) -> (r: Result<Vec<Header>, BinanceApiError>)
        ensures
            r is Ok <==> no_key || is_header_text(self.spec_api_key()),
            r matches Err(e) ==> e is InvalidHeaderValue,
            r matches Ok(headers) ==> headers_view(headers@) == request_headers(
                self.spec_api_key(),
                !no_key,
            ),
    {
        let mut headers: Vec<Header> = Vec::new();
        headers.push(
            Header { name: String::from_str("user-agent"), value: String::from_str("binance-rs") },
        );
        headers.push(
            Header {
                name: String::from_str("content-type"),
                value: String::from_str("application/x-www-form-urlencoded"),
            },
        );
        if !no_key {
            if !is_valid_api_key(self.api_key.as_str()) {
                return Err(BinanceApiError::InvalidHeaderValue);
            }
            headers.push(
                Header { name: String::from_str("x-mbx-apikey"), value: self.api_key.clone() },
            );
        }
        assert(headers_view(headers@) =~= request_headers(self.spec_api_key(), !no_key));
        Ok(headers)
    }

    /// The URL of a call: the path resolved against the host, with the
    /// given query.
    pub fn build_url(&self, path: &str, query: Option<&str>) -> (r: Result<String, BinanceApiError>)
        ensures
            r is Ok <==> request_url(self.spec_host(), path@, optional_text(query)) is Some,
            r matches Err(e) ==> e is URLError,
            r matches Ok(url) ==> Some(url@) == request_url(
                self.spec_host(),
                path@,
                optional_text(query),
            ),
    {
        match join_url(self.host.as_str(), path) {
            Ok(joined) => match set_url_query(joined.as_str(), query) {
                Ok(url) => Ok(url),
                Err(e) => Err(BinanceApiError::URLError(e)),
            },
            Err(e) => Err(BinanceApiError::URLError(e)),
        }
    }

    /// What the outcome of a call of this client must be.
    pub open spec fn spec_dispatch(
        &self,
        method: Method,
        security: SecurityType,
        path: Seq<char>,
        query: Option<Seq<char>>,
        r: Result<HttpRequest, BinanceApiError>,
    ) -> bool {
        describes_outcome(
            self.spec_api_key(),
            self.spec_secret_key(),
            self.spec_host(),
            method,
            security,
            path,
            query,
            r,
        )
    }

    /// The request that goes out for a call of an endpoint.
    ///
    /// `GET` sends the parameters in the query of the URL, `POST` in the
    /// body. The signed tiers sign them; the tiers that send the key put it
    /// in a header and, on `GET`, still append the signature parameter. Any
    /// other method is refused.
    pub fn request(
        &self,
        method: Method,
        security: SecurityType,
        path: &str,
        query: Option<&str>,
    ) -> (r: Result<HttpRequest, BinanceApiError>)
        ensures
            self.spec_dispatch(method, security, path@, optional_text(query), r),
    {
        let is_get = match method {
            Method::GET => true,
            Method::POST => false,
            _ => {
                return Err(
                    BinanceApiError::Custom(String::from_str("the method is not implemented")),
                );
            },
        };
        let signs = security.is_signed() || (is_get && security.sends_key());
        let sent: Option<String> = if signs {
            Some(self.sign_request(query))
        } else {
            match query {
                Some(q) => Some(String::from_str(q)),
                None => None,
            }
        };
        let sent_text: Option<&str> = match &sent {
            Some(s) => Some(s.as_str()),
            None => None,
        };
        let url = match self.build_url(
            path,
            if is_get {
                sent_text
            } else {
                None
            },
        ) {
            Ok(url) => url,
            Err(e) => {
                return Err(e);
            },
        };
        let headers = match self.build_headers(!security.sends_key()) {
            Ok(headers) => headers,
            Err(e) => {
                return Err(e);
            },
        };
        let body = if is_get {
            None
        } else {
            sent
        };
        Ok(HttpRequest { method, url, headers, body })
    }

    /// Checks the request, encodes it and prepares the call of the endpoint.
    ///
    /// A request that fails its check is refused before anything else is
    /// done. A request that encodes to nothing is sent without parameters.
    pub fn access<E: Endpoint, R: EndpointRequest>(&self, endpoint: &E, data: Option<R>) -> (r:
        Result<HttpRequest, BinanceApiError>)
        requires
            endpoint.spec_is_implemented(),
        ensures
            data matches Some(d) && !d.spec_is_valid() ==> r is Err,
            !(data matches Some(d) && !d.spec_is_valid()) ==> self.spec_dispatch(
                endpoint.spec_action_params().0,
                endpoint.spec_action_params().1,
                endpoint.spec_action_params().2,
                access_query(data),
                r,
            ),
    {
        let (method, security, path) = endpoint.action_params();
        let encoded: Option<String> = match &data {
            Some(d) => {
                match d.validate() {
                    Ok(()) => {},
                    Err(e) => {
                        return Err(e);
                    },
                }
                let text = d.to_string();
                if text.as_str().is_empty() {
                    None
                } else {
                    Some(text)
                }
            },
            None => None,
        };
        let query: Option<&str> = match &encoded {
            Some(s) => Some(s.as_str()),
            None => None,
        };
        self.request(method, security, path.as_str(), query)
    }

    /// `GET` without authentication.
    pub fn get(&self, endpoint: &str, query_string: Option<&str>) -> (r: Result<
        HttpRequest,
        BinanceApiError,
    >)
        ensures
            self.spec_dispatch(
                Method::GET,
                SecurityType::Public,
                endpoint@,
                optional_text(query_string),
                r,
            ),
    {
        self.request(Method::GET, SecurityType::Public, endpoint, query_string)
    }

    /// `GET` with the API key in a header; the signature parameter is
    /// appended to the query.
    pub fn get_key_only(&self, endpoint: &str, query_string: Option<&str>) -> (r: Result<
        HttpRequest,
        BinanceApiError,
    >)
        ensures
            self.spec_dispatch(
                Method::GET,
                SecurityType::UserStream,
                endpoint@,
                optional_text(query_string),
                r,
            ),
    {
        self.request(Method::GET, SecurityType::UserStream, endpoint, query_string)
    }

    /// `GET` with a signed query.
    pub fn get_signed(&self, endpoint: &str, request: Option<&str>) -> (r: Result<
        HttpRequest,
        BinanceApiError,
    >)
        ensures
            self.spec_dispatch(
                Method::GET,
                SecurityType::UserData,
                endpoint@,
                optional_text(request),
                r,
            ),
    {
        self.request(Method::GET, SecurityType::UserData, endpoint, request)
    }

    /// `POST` without authentication.
    pub fn post(&self, endpoint: &str, data: Option<&str>) -> (r: Result<
        HttpRequest,
        BinanceApiError,
    >)
        ensures
            self.spec_dispatch(
                Method::POST,
                SecurityType::Public,
                endpoint@,
                optional_text(data),
                r,
            ),
    {
        self.request(Method::POST, SecurityType::Public, endpoint, data)
    }

    /// `POST` with the API key in a header; the body is sent as it is.
    pub fn post_key_only(&self, endpoint: &str, data: Option<&str>) -> (r: Result<
        HttpRequest,
        BinanceApiError,
    >)
        ensures
            self.spec_dispatch(
                Method::POST,
                SecurityType::UserStream,
                endpoint@,
                optional_text(data),
                r,
            ),
    {
        self.request(Method::POST, SecurityType::UserStream, endpoint, data)
    }

    /// `POST` with a signed body.
    pub fn post_signed(&self, endpoint: &str, request: Option<&str>) -> (r: Result<
        HttpRequest,
        BinanceApiError,
    >)
        ensures
            self.spec_dispatch(
                Method::POST,
                SecurityType::UserData,
                endpoint@,
                optional_text(request),
                r,
            ),
    {
        self.request(Method::POST, SecurityType::UserData, endpoint, request)
    }

    /// What a call that names a listen key must come to: no query, no key
    /// header, the body `listenKey=` and the key.
    pub open spec fn spec_listen_key_call(
        &self,
        method: Method,
        path: Seq<char>,
        listen_key: Seq<char>,
        r: Result<HttpRequest, BinanceApiError>,
    ) -> bool {
        match request_url(self.spec_host(), path, None) {
            None => r matches Err(BinanceApiError::URLError(_)),
            Some(url) => r matches Ok(request) && {
                &&& request.method == method
                &&& request.url@ == url
                &&& headers_view(request.headers@) == request_headers(self.spec_api_key(), false)
                &&& string_view(request.body) == Some("listenKey="@ + listen_key)
            },
        }
    }

    fn listen_key_call(&self, method: Method, endpoint: &str, listen_key: &str) -> (r: Result<
        HttpRequest,
        BinanceApiError,
    >)
        ensures
            self.spec_listen_key_call(method, endpoint@, listen_key@, r),
    {
        let url = match self.build_url(endpoint, None) {
            Ok(url) => url,
            Err(e) => {
                return Err(e);
            },
        };
        let headers = match self.build_headers(true) {
            Ok(headers) => headers,
            Err(e) => {
                return Err(e);
            },
        };
        let body = String::from_str("listenKey=").concat(listen_key);
        Ok(HttpRequest { method, url, headers, body: Some(body) })
    }

    /// `DELETE` of a listen key.
    pub fn delete(&self, endpoint: &str, listen_key: &str) -> (r: Result<
        HttpRequest,
        BinanceApiError,
    >)
        ensures
            self.spec_listen_key_call(Method::DELETE, endpoint@, listen_key@, r),
    {
        self.listen_key_call(Method::DELETE, endpoint, listen_key)
    }

    /// `PUT` of a listen key.
    pub fn put(&self, endpoint: &str, listen_key: &str) -> (r: Result<HttpRequest, BinanceApiError>)
        ensures
            self.spec_listen_key_call(Method::PUT, endpoint@, listen_key@, r),
    {
        self.listen_key_call(Method::PUT, endpoint, listen_key)
    }

    /// `DELETE` with a signed query and the API key in a header.
    pub fn delete_signed(&self, endpoint: &str, request: Option<&str>) -> (r: Result<
        HttpRequest,
        BinanceApiError,
    >)
        ensures
            match request_url(
                self.spec_host(),
                endpoint@,
                Some(signed_query(self.spec_secret_key(), optional_text(request))),
            ) {
                None => r matches Err(BinanceApiError::URLError(_)),
                Some(url) => if !is_header_text(self.spec_api_key()) {
                    r matches Err(BinanceApiError::InvalidHeaderValue)
                } else {
                    r matches Ok(sent) && {
                        &&& sent.method == Method::DELETE
                        &&& sent.url@ == url
                        &&& headers_view(sent.headers@) == request_headers(
                            self.spec_api_key(),
                            true,
                        )
                        &&& sent.body is None
                    }
                },
            },
    {
        let signed = self.sign_request(request);
        let url = match self.build_url(endpoint, Some(signed.as_str())) {
            Ok(url) => url,
            Err(e) => {
                return Err(e);
            },
        };
        let headers = match self.build_headers(false) {
            Ok(headers) => headers,
            Err(e) => {
                return Err(e);
            },
        };
        Ok(HttpRequest { method: Method::DELETE, url, headers, body: None })
    }

    /// What the body of an answer comes to: the error of a text that is no
    /// JSON document, the error that the exchange reports, or the data.
    pub open spec fn spec_envelope(body: Seq<char>, r: Result<Json, BinanceApiError>) -> bool {
        match json_document(body) {
            None => r matches Err(BinanceApiError::JSONValueSerDeError(_)),
            Some(document) => if crate::endpoints::is_error_shape(document) {
                r matches Err(BinanceApiError::ApiReturnError(code, msg)) && Some(code)
                    == document.i64_at("code"@) && Some(msg@) == document.text_at("msg"@)
            } else {
                r matches Ok(data) && data@ == document
            },
        }
    }

    /// Reads the body of an answer and unwraps its envelope.
    pub fn read_envelope(body: &str) -> (r: Result<Json, BinanceApiError>)
        ensures
            Self::spec_envelope(body@, r),
    {
        match Json::parse(body) {
            Ok(document) => Self::unwrap_envelope(document),
            Err(e) => Err(BinanceApiError::JSONValueSerDeError(e)),
        }
    }

    /// What the body of an answer comes to where data of type `T` is asked
    /// for: the error of a text that is no JSON document, the error that the
    /// exchange reports, the data, or the error of data that has not the
    /// shape of `T`. The shape of an error is tried before the shape of `T`.
    pub open spec fn spec_api_return<T: FromJson>(
        body: Seq<char>,
        r: Result<T, BinanceApiError>,
    ) -> bool {
        match json_document(body) {
            None => r matches Err(BinanceApiError::JSONValueSerDeError(_)),
            Some(document) => if crate::endpoints::is_error_shape(document) {
                r matches Err(BinanceApiError::ApiReturnError(code, msg)) && Some(code)
                    == document.i64_at("code"@) && Some(msg@) == document.text_at("msg"@)
            } else if T::has_shape(document) {
                r matches Ok(data) && data.describes(document)
            } else {
                r matches Err(BinanceApiError::JSONValueSerDeError(_))
            },
        }
    }

    /// Reads the body of an answer as data of type `T`.
    pub fn handle_api_return<T: FromJson>(body: &str) -> (r: Result<T, BinanceApiError>)
        ensures
            Self::spec_api_return(body@, r),
    {
        match Self::read_envelope(body) {
            Ok(data) => Self::typed(&data),
            Err(e) => Err(e),
        }
    }

    /// Reads data as a `T`: a value that describes the data, or the error of
    /// data that has not the shape of `T`.
    pub fn typed<T: FromJson>(data: &Json) -> (r: Result<T, BinanceApiError>)
        ensures
            r is Ok <==> T::has_shape(data@),
            r matches Ok(value) ==> value.describes(data@),
            r matches Err(e) ==> e is JSONValueSerDeError,
    {
        match T::from_json(data) {
            Some(value) => Ok(value),
            None => Err(
                BinanceApiError::JSONValueSerDeError(
                    shape_error("data did not match the shape that was asked for"),
                ),
            ),
        }
    }

    /// Unwraps the envelope of an answer: the error that the exchange
    /// reports becomes an error, anything else is the data.
    pub fn unwrap_envelope(document: Json) -> (r: Result<Json, BinanceApiError>)
        ensures
            crate::endpoints::is_error_shape(document@) ==> (r matches Err(
                BinanceApiError::ApiReturnError(code, msg),
            ) && Some(code) == document@.i64_at("code"@) && Some(msg@) == document@.text_at(
                "msg"@,
            )),
            !crate::endpoints::is_error_shape(document@) ==> r == Ok::<Json, BinanceApiError>(
                document,
            ),
    {
        match Response::from_json(document) {
            Response::Error { code, msg } => Err(BinanceApiError::ApiReturnError(code, msg)),
            Response::Data(data) => Ok(data),
        }
    }
}

/// The query that a request encodes to, where it encodes to anything.
pub open spec fn access_query<R: EndpointRequest>(data: Option<R>) -> Option<Seq<char>> {
    match data {
        Some(d) => if d.spec_query().len() == 0 {
            None
        } else {
            Some(d.spec_query())
        },
        None => None,
    }
}

} // verus!
