use rust_proxy::dispatch::{
    bad_gateway_response, body_read_error_response, body_within_limit, build_target_url,
    build_ws_url, extract_protocols, get_header_value, is_websocket_upgrade, panic_response,
    select_ws_headers, MAX_BODY_SIZE,
};
use rust_proxy::headers::Header;

fn h(name: &str, value: &str) -> Header {
    Header { name: String::from(name), value: String::from(value) }
}

#[test]
fn websocket_iff_upgrade_websocket() {
    assert!(is_websocket_upgrade(&vec![h("Upgrade", "websocket")]));
    assert!(is_websocket_upgrade(&vec![h("upgrade", "WebSocket")]));
    assert!(is_websocket_upgrade(&vec![h("host", "x"), h("UPGRADE", "WEBSOCKET")]));
    assert!(!is_websocket_upgrade(&vec![h("Upgrade", "h2c")]));
    assert!(!is_websocket_upgrade(&vec![h("host", "x")]));
    assert!(!is_websocket_upgrade(&Vec::new()));
}

#[test]
fn first_matching_header_wins() {
    let hs = vec![h("Upgrade", "h2c"), h("Upgrade", "websocket")];
    assert!(!is_websocket_upgrade(&hs));
    assert_eq!(get_header_value(&hs, "upgrade"), Some(String::from("h2c")));
    assert_eq!(get_header_value(&hs, "cookie"), None);
}

#[test]
fn protocols_split_and_trimmed() {
    let hs = vec![h("Sec-WebSocket-Protocol", "chat, superchat ,v2")];
    assert_eq!(extract_protocols(&hs), vec!["chat", "superchat", "v2"]);
    assert_eq!(extract_protocols(&Vec::new()), Vec::<String>::new());
    assert_eq!(extract_protocols(&vec![h("sec-websocket-protocol", "one")]), vec!["one"]);
}

#[test]
fn ws_handshake_forwards_cookie_and_authorization_only() {
    let hs = vec![
        h("Origin", "https://evil.example"),
        h("Cookie", "sid=1"),
        h("Authorization", "Bearer t"),
        h("X-Custom", "1"),
    ];
    let out = select_ws_headers(&hs);
    assert_eq!(out.len(), 2);
    assert_eq!(out[0].name, "cookie");
    assert_eq!(out[0].value, "sid=1");
    assert_eq!(out[1].name, "authorization");
    assert_eq!(out[1].value, "Bearer t");
    assert!(select_ws_headers(&vec![h("X-Custom", "1")]).is_empty());
}

#[test]
fn target_urls() {
    assert_eq!(build_target_url(8081, Some("/hello")), "http://127.0.0.1:8081/hello");
    assert_eq!(build_target_url(8081, Some("/api?x=1")), "http://127.0.0.1:8081/api?x=1");
    assert_eq!(build_target_url(9000, None), "http://127.0.0.1:9000/");
    assert_eq!(build_ws_url(8081, "/ws"), "ws://127.0.0.1:8081/ws");
    assert_eq!(build_ws_url(8081, ""), "ws://127.0.0.1:8081");
}

#[test]
fn body_limit_is_500_mib() {
    assert_eq!(MAX_BODY_SIZE, 500 * 1024 * 1024);
    assert!(body_within_limit(0));
    assert!(body_within_limit(10 * 1024 * 1024));
    assert!(body_within_limit(500 * 1024 * 1024));
    assert!(!body_within_limit(500 * 1024 * 1024 + 1));
    assert!(!body_within_limit(600 * 1024 * 1024));
}

#[test]
fn synthesized_responses_carry_security_headers() {
    let bg = bad_gateway_response();
    assert_eq!(bg.status, 502);
    assert_eq!(bg.body, "Bad Gateway");
    assert_eq!(bg.headers.len(), 4);
    assert_eq!(bg.headers[0].name, "strict-transport-security");

    let br = body_read_error_response();
    assert_eq!(br.status, 400);
    assert_eq!(br.body, "Failed to read request body");
    assert_eq!(br.headers[1].name, "x-content-type-options");

    let pr = panic_response();
    assert_eq!(pr.status, 500);
    assert_eq!(pr.body, "Internal server error");
    assert_eq!(pr.headers[3].value, "strict-origin-when-cross-origin");
}
