use rust_proxy::redirect::{challenge_outcome, classify_port80_request, Port80Action};

#[test]
fn challenge_paths_resolve_into_the_webroot() {
    let action = classify_port80_request(
        "/.well-known/acme-challenge/abc",
        Some("example.com"),
        "/opt/app/acme-webroot",
        8443,
    );
    match action {
        Port80Action::ServeChallenge { file_path } => {
            assert_eq!(file_path, "/opt/app/acme-webroot/.well-known/acme-challenge/abc");
        },
        _ => panic!("expected a challenge file"),
    }
}

#[test]
fn other_paths_redirect_to_https() {
    let action = classify_port80_request("/other", Some("example.com"), "/w", 8443);
    match action {
        Port80Action::Redirect { location } => {
            assert_eq!(location, "https://example.com:8443/other");
        },
        _ => panic!("expected a redirect"),
    }
}

#[test]
fn redirect_strips_the_host_port_and_defaults_to_localhost() {
    match classify_port80_request("/a", Some("example.com:80"), "/w", 8443) {
        Port80Action::Redirect { location } => {
            assert_eq!(location, "https://example.com:8443/a");
        },
        _ => panic!("expected a redirect"),
    }
    match classify_port80_request("/a", None, "/w", 9443) {
        Port80Action::Redirect { location } => {
            assert_eq!(location, "https://localhost:9443/a");
        },
        _ => panic!("expected a redirect"),
    }
}

#[test]
fn challenge_outcomes() {
    let (status, body) = challenge_outcome(true, Some(String::from("token-content")));
    assert_eq!(status, 200);
    assert_eq!(body, "token-content");

    let (status, body) = challenge_outcome(false, None);
    assert_eq!(status, 404);
    assert_eq!(body, "Challenge not found");

    let (status, body) = challenge_outcome(true, None);
    assert_eq!(status, 500);
    assert_eq!(body, "Failed to read challenge");
}
