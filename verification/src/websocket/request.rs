//! The request that opens the transport to the recognition service.

use vstd::prelude::*;
use vstd::string::StringExecFns;
use crate::websocket::protocol::opt_text;

verus! {

/// `url::ParseError`: why a text is not a URL.
#[verifier::external_type_specification]
#[verifier::external_body]
pub struct ExUrlParseError(url::ParseError);

/// `http::request::Builder`: a request in the making.
#[verifier::external_type_specification]
#[verifier::external_body]
pub struct ExRequestBuilder(http::request::Builder);

/// `http::Request`: a request with a body of type `T`.
#[verifier::external_type_specification]
#[verifier::external_body]
#[verifier::reject_recursive_types(T)]
pub struct ExRequest<T>(http::Request<T>);

/// `http::Error`: why a request could not be built.
#[verifier::external_type_specification]
#[verifier::external_body]
pub struct ExHttpError(http::Error);

/// Why the opening request could not be made.
#[derive(Debug, Clone, Copy, PartialEq, Eq, Structural)]
pub enum RequestError {
    /// The address of the service is not a URL.
    InvalidUrl,
    /// A header name or value, or the address, is not fit for a request.
    InvalidRequest,
}

/// The address of the recognition service.
pub open spec fn service_url() -> Seq<char> {
    "wss://dashscope.aliyuncs.com/api-ws/v1/inference/"@
}

/// The host to name where the address of the service names none.
pub open spec fn default_host() -> Seq<char> {
    "dashscope.aliyuncs.com"@
}

/// What `url::Url::parse` makes of a text, as far as the host goes: `None`
/// if the text is not a URL, else the host of the URL, if it has one.
pub uninterp spec fn url_host(url: Seq<char>) -> Option<Option<Seq<char>>>;

/// `url::Url::parse` followed by `url::Url::host_str`: the host of the URL
/// that `url` spells, or the error of the parser.
#[verifier::external_body]
fn parse_host(url: &str) -> (host: Result<Option<String>, url::ParseError>)
    ensures
        match host {
            Ok(h) => url_host(url@) == Some(opt_text(h)),
            Err(_) => url_host(url@) is None,
        },
{
    let parsed = url::Url::parse(url)?;
    Ok(parsed.host_str().map(|h| h.to_string()))
}

/// `tungstenite::handshake::client::generate_key`: a random value for the
/// `Sec-WebSocket-Key` header. Nothing is known of it.
#[verifier::external_body]
fn websocket_key() -> (key: String) {
    tokio_tungstenite::tungstenite::handshake::client::generate_key()
}

/// `http::Request::builder`: a builder with nothing set.
#[verifier::external_body]
fn new_builder() -> (builder: http::request::Builder) {
    http::Request::builder()
}

/// `http::request::Builder::uri`: the builder with the address set. An
/// unfit address shows when the request is finished.
#[verifier::external_body]
fn with_uri(builder: http::request::Builder, uri: &str) -> (next: http::request::Builder) {
    builder.uri(uri)
}

/// `http::request::Builder::header`: the builder with one more header. An
/// unfit name or value shows when the request is finished.
#[verifier::external_body]
fn with_header(builder: http::request::Builder, name: &str, value: &str) -> (next:
    http::request::Builder) {
    builder.header(name, value)
}

/// `http::request::Builder::body` with the empty body: the finished
/// request, or the first error that the builder met.
#[verifier::external_body]
fn finish(builder: http::request::Builder) -> (request: Result<http::Request<()>, http::Error>) {
    builder.body(())
}

/// The address of the recognition service.
pub fn ws_url() -> (url: &'static str)
    ensures
        url@ == service_url(),
{
    "wss://dashscope.aliyuncs.com/api-ws/v1/inference/"
}

/// The host that a parsed address names, or the default host.
pub open spec fn spec_host_or_default(host: Option<Seq<char>>) -> Seq<char> {
    match host {
        Some(h) => h,
        None => default_host(),
    }
}

/// The host that a parsed address names, or the default host.
pub fn host_or_default(host: Option<String>) -> (name: String)
    ensures
        name@ == spec_host_or_default(opt_text(host)),
{
    match host {
        Some(h) => h,
        None => "dashscope.aliyuncs.com".to_string(),
    }
}

/// The host to name in the request to `url`.
pub fn request_host(url: &str) -> (host: Result<String, RequestError>)
    ensures
        match url_host(url@) {
            Some(h) => host matches Ok(name) && name@ == spec_host_or_default(h),
            None => host == Err::<String, RequestError>(RequestError::InvalidUrl),
        },
{
    match parse_host(url) {
        Ok(h) => Ok(host_or_default(h)),
        Err(_) => Err(RequestError::InvalidUrl),
    }
}

/// One header of a request.
#[derive(Debug, Clone, PartialEq, Eq)]
pub struct HeaderField {
    pub name: String,
    pub value: String,
}

impl View for HeaderField {
    type V = (Seq<char>, Seq<char>);

    open spec fn view(&self) -> (Seq<char>, Seq<char>) {
        (self.name@, self.value@)
    }
}

/// The headers of the opening request, in order: the key of the account as
/// a bearer token, the host, the upgrade to the WebSocket protocol in its
/// version 13, and the key of the handshake.
pub open spec fn handshake_headers(api_key: Seq<char>, host: Seq<char>, key: Seq<char>) -> Seq<
    (Seq<char>, Seq<char>),
> {
    seq![
        ("Authorization"@, "bearer "@ + api_key),
        ("Host"@, host),
        ("Connection"@, "Upgrade"@),
        ("Upgrade"@, "websocket"@),
        ("Sec-WebSocket-Version"@, "13"@),
        ("Sec-WebSocket-Key"@, key),
    ]
}

fn field(name: &str, value: String) -> (f: HeaderField)
    ensures
        f@ == (name@, value@),
{
    HeaderField { name: name.to_string(), value }
}

/// Builds the headers of the opening request.
pub fn request_headers(api_key: &str, host: &str, key: &str) -> (fields: Vec<HeaderField>)
    ensures
        fields@.map_values(|f: HeaderField| f@) == handshake_headers(api_key@, host@, key@),
{
    let mut fields: Vec<HeaderField> = Vec::new();
    fields.push(field("Authorization", "bearer ".to_string().concat(api_key)));
    fields.push(field("Host", host.to_string()));
    fields.push(field("Connection", "Upgrade".to_string()));
    fields.push(field("Upgrade", "websocket".to_string()));
    fields.push(field("Sec-WebSocket-Version", "13".to_string()));
    fields.push(field("Sec-WebSocket-Key", key.to_string()));
    assert(fields@.map_values(|f: HeaderField| f@) =~= handshake_headers(api_key@, host@, key@));
    fields
}

/// Builds the request to `url` with the given headers, handed over in order.
fn build_request(url: &str, fields: &Vec<HeaderField>) -> (request: Result<
    http::Request<()>,
    RequestError,
>)
    ensures
        request matches Err(e) ==> e == RequestError::InvalidRequest,
{
    let mut builder = with_uri(new_builder(), url);
    let mut i: usize = 0;
    while i < fields.len()
        invariant
            i <= fields.len(),
        decreases fields.len() - i,
    {
        builder = with_header(builder, fields[i].name.as_str(), fields[i].value.as_str());
        i += 1;
    }
    request_outcome(finish(builder))
}

/// What becomes of the builder's answer: its request is passed on as it is,
/// and whatever it objected to is an `InvalidRequest`.
pub open spec fn spec_request_outcome(built: Result<http::Request<()>, http::Error>) -> Result<
    http::Request<()>,
    RequestError,
> {
    match built {
        Ok(request) => Ok(request),
        Err(_) => Err(RequestError::InvalidRequest),
    }
}

/// Turns the answer of the builder into the outcome of building the request.
pub fn request_outcome(built: Result<http::Request<()>, http::Error>) -> (outcome: Result<
    http::Request<()>,
    RequestError,
>)
    ensures
        outcome == spec_request_outcome(built),
{
    match built {
        Ok(request) => Ok(request),
        Err(_) => Err(RequestError::InvalidRequest),
    }
}

/// Builds the request that opens the transport for the account with the key
/// `api_key`, under a fresh random handshake key. It fails with
/// `InvalidUrl` exactly if the address of the service is not a URL.
pub fn handshake_request(api_key: &str) -> (request: Result<http::Request<()>, RequestError>)
    ensures
        url_host(service_url()) is None <==> request matches Err(RequestError::InvalidUrl),
{
    let url = ws_url();
    let host = match request_host(url) {
        Ok(h) => h,
        Err(e) => {
            return Err(e);
        },
    };
    let key = websocket_key();
    let fields = request_headers(api_key, host.as_str(), key.as_str());
    match build_request(url, &fields) {
        Ok(request) => Ok(request),
        Err(_) => Err(RequestError::InvalidRequest),
    }
}

} // verus!
