use rust_proxy::config::{
    select_mode, RunMode, DEFAULT_HTTPS_PORT, DEFAULT_HTTP_PORT, DEFAULT_UPSTREAM_PORT,
    RENEWAL_CHECK_INTERVAL_HOURS, SHUTDOWN_GRACE_SECONDS, UPSTREAM_CONNECT_TIMEOUT_SECONDS,
    UPSTREAM_MAX_IDLE_PER_HOST, UPSTREAM_REQUEST_TIMEOUT_SECONDS,
};

#[test]
fn defaults() {
    assert_eq!(DEFAULT_HTTPS_PORT, 8443);
    assert_eq!(DEFAULT_HTTP_PORT, 8080);
    assert_eq!(DEFAULT_UPSTREAM_PORT, 8081);
    assert_eq!(RENEWAL_CHECK_INTERVAL_HOURS, 12);
    assert_eq!(SHUTDOWN_GRACE_SECONDS, 10);
    assert_eq!(UPSTREAM_REQUEST_TIMEOUT_SECONDS, 300);
    assert_eq!(UPSTREAM_CONNECT_TIMEOUT_SECONDS, 10);
    assert_eq!(UPSTREAM_MAX_IDLE_PER_HOST, 100);
}

#[test]
fn auto_tls_needs_domain_and_email() {
    let r = select_mode(true, None, None, false, None, None, 8443, 8081);
    assert_eq!(r.unwrap_err(), "Error: --domain is required with --auto-ssl");

    let r = select_mode(true, None, None, false, Some(String::from("d.example")), None, 8443, 8081);
    assert_eq!(r.unwrap_err(), "Error: --email is required with --auto-ssl");

    let r = select_mode(
        true,
        None,
        None,
        false,
        Some(String::from("d.example")),
        Some(String::from("a@b")),
        8443,
        8081,
    );
    match r.unwrap() {
        RunMode::AutoTls { domain, email, port, upstream_port } => {
            assert_eq!(domain, "d.example");
            assert_eq!(email, "a@b");
            assert_eq!(port, 8443);
            assert_eq!(upstream_port, 8081);
        },
        _ => panic!("expected auto-TLS"),
    }
}

#[test]
fn manual_tls_takes_both_paths() {
    let r = select_mode(
        false,
        Some(String::from("c.pem")),
        Some(String::from("k.pem")),
        false,
        None,
        None,
        8443,
        8081,
    );
    match r.unwrap() {
        RunMode::ManualTls { cert_path, key_path, port, upstream_port } => {
            assert_eq!(cert_path, "c.pem");
            assert_eq!(key_path, "k.pem");
            assert_eq!(port, 8443);
            assert_eq!(upstream_port, 8081);
        },
        _ => panic!("expected manual TLS"),
    }
}

#[test]
fn no_tls_rewrites_the_default_https_port() {
    match select_mode(false, None, None, true, None, None, 8443, 8081).unwrap() {
        RunMode::NoTls { port, upstream_port } => {
            assert_eq!(port, 8080);
            assert_eq!(upstream_port, 8081);
        },
        _ => panic!("expected no-TLS"),
    }
    match select_mode(false, None, None, true, None, None, 9005, 8081).unwrap() {
        RunMode::NoTls { port, .. } => assert_eq!(port, 9005),
        _ => panic!("expected no-TLS"),
    }
}

#[test]
fn missing_mode_is_a_usage_error() {
    let r = select_mode(false, None, None, false, None, None, 8443, 8081);
    let msg = r.unwrap_err();
    assert!(msg.starts_with("Error: Choose an SSL mode:"));
    assert!(msg.contains("--auto-ssl --domain DOMAIN --email EMAIL"));
    assert!(msg.contains("--cert FILE --key FILE"));
    assert!(msg.contains("--no-ssl"));

    let r = select_mode(false, Some(String::from("c.pem")), None, false, None, None, 8443, 8081);
    assert!(r.is_err());
}
