use audio2text::websocket::request::{
    host_or_default, request_headers, request_host, request_outcome, ws_url, HeaderField,
};
use audio2text::websocket::{handshake_request, RequestError};

fn field(name: &str, value: &str) -> HeaderField {
    HeaderField { name: name.to_string(), value: value.to_string() }
}

#[test]
fn host_of_the_service_address() {
    assert_eq!(ws_url(), "wss://dashscope.aliyuncs.com/api-ws/v1/inference/");
    assert_eq!(request_host(ws_url()), Ok("dashscope.aliyuncs.com".to_string()));
}

#[test]
fn host_is_what_the_parser_makes_of_the_address() {
    assert_eq!(request_host("wss://user@EXAMPLE.com:8443/path?q=1"), Ok("example.com".to_string()));
    assert_eq!(request_host("https://127.0.0.1/index.html"), Ok("127.0.0.1".to_string()));
}

#[test]
fn address_without_host_gets_the_default_host() {
    assert_eq!(request_host("unix:/run/foo.socket"), Ok("dashscope.aliyuncs.com".to_string()));
    assert_eq!(host_or_default(None), "dashscope.aliyuncs.com");
    assert_eq!(host_or_default(Some("example.org".to_string())), "example.org");
}

#[test]
fn text_that_is_no_url_is_rejected() {
    assert_eq!(request_host("not a url"), Err(RequestError::InvalidUrl));
    assert_eq!(request_host(""), Err(RequestError::InvalidUrl));
}

#[test]
fn headers_of_the_opening_request() {
    assert_eq!(
        request_headers("sk-123", "dashscope.aliyuncs.com", "dGhlIHNhbXBsZSBub25jZQ=="),
        vec![
            field("Authorization", "bearer sk-123"),
            field("Host", "dashscope.aliyuncs.com"),
            field("Connection", "Upgrade"),
            field("Upgrade", "websocket"),
            field("Sec-WebSocket-Version", "13"),
            field("Sec-WebSocket-Key", "dGhlIHNhbXBsZSBub25jZQ=="),
        ]
    );
}

#[test]
fn opening_request_carries_the_headers() {
    let request = handshake_request("sk-123").unwrap();
    assert_eq!(request.uri().to_string(), "wss://dashscope.aliyuncs.com/api-ws/v1/inference/");
    assert_eq!(request.method(), http::Method::GET);
    let headers = request.headers();
    assert_eq!(headers.len(), 6);
    assert_eq!(headers.get("Authorization").unwrap(), "bearer sk-123");
    assert_eq!(headers.get("Host").unwrap(), "dashscope.aliyuncs.com");
    assert_eq!(headers.get("Connection").unwrap(), "Upgrade");
    assert_eq!(headers.get("Upgrade").unwrap(), "websocket");
    assert_eq!(headers.get("Sec-WebSocket-Version").unwrap(), "13");
    let key = headers.get("Sec-WebSocket-Key").unwrap().to_str().unwrap().to_string();
    assert_eq!(key.len(), 24);
    let other = handshake_request("sk-123").unwrap();
    assert_ne!(other.headers().get("Sec-WebSocket-Key").unwrap().to_str().unwrap(), key);
}

#[test]
fn key_unfit_for_a_header_is_rejected() {
    assert_eq!(handshake_request("line\nbreak").unwrap_err(), RequestError::InvalidRequest);
}

#[test]
fn answer_of_the_builder_becomes_the_outcome() {
    let built = http::Request::builder().uri("wss://example.com/").header("Host", "example.com").body(());
    let request = request_outcome(built).unwrap();
    assert_eq!(request.uri().to_string(), "wss://example.com/");
    assert_eq!(request.headers().get("Host").unwrap(), "example.com");
    let refused = http::Request::builder().header("bad name", "x").body(());
    assert_eq!(request_outcome(refused).unwrap_err(), RequestError::InvalidRequest);
}
