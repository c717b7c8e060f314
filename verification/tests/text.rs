use rust_proxy::text::{
    eq_ignore_ascii_case, host_without_port, lower_char_exec, split_commas, starts_with, trim,
    u16_to_dec,
};

#[test]
fn lowercases_ascii_letters_only() {
    assert_eq!(lower_char_exec('A'), 'a');
    assert_eq!(lower_char_exec('Z'), 'z');
    assert_eq!(lower_char_exec('a'), 'a');
    assert_eq!(lower_char_exec('-'), '-');
    assert_eq!(lower_char_exec('0'), '0');
}

#[test]
fn case_insensitive_equality() {
    assert!(eq_ignore_ascii_case("WebSocket", "websocket"));
    assert!(eq_ignore_ascii_case("UPGRADE", "upgrade"));
    assert!(eq_ignore_ascii_case("", ""));
    assert!(!eq_ignore_ascii_case("websocket", "websockets"));
    assert!(!eq_ignore_ascii_case("web-socket", "websocket"));
}

#[test]
fn prefix_tests() {
    assert!(starts_with("/.well-known/acme-challenge/abc", "/.well-known/acme-challenge/"));
    assert!(starts_with("notAfter=Jan  1 00:00:00 2030 GMT", "notAfter="));
    assert!(!starts_with("/other", "/.well-known/acme-challenge/"));
    assert!(!starts_with("no", "notAfter="));
    assert!(starts_with("anything", ""));
}

#[test]
fn trims_whitespace() {
    assert_eq!(trim("  chat \t"), "chat");
    assert_eq!(trim("chat"), "chat");
    assert_eq!(trim("   "), "");
    assert_eq!(trim(""), "");
    assert_eq!(trim("\r\na b\n"), "a b");
}

#[test]
fn trims_the_same_characters_as_unicode_trim() {
    let samples = [
        "\u{00A0}x\u{00A0}",
        "\u{2003}two words\u{3000}",
        "\u{0085}\u{1680}y",
        "z\u{202F}\u{205F}\u{2028}\u{2029}",
        "\u{200B}not trimmed\u{200B}",
    ];
    for s in samples {
        assert_eq!(trim(s), s.trim(), "trim differs on {s:?}");
    }
}

#[test]
fn splits_on_every_comma() {
    assert_eq!(split_commas("chat, superchat"), vec!["chat", " superchat"]);
    assert_eq!(split_commas("a,b,c"), vec!["a", "b", "c"]);
    assert_eq!(split_commas(""), vec![""]);
    assert_eq!(split_commas("a,"), vec!["a", ""]);
    assert_eq!(split_commas(",a"), vec!["", "a"]);
}

#[test]
fn renders_ports_in_decimal() {
    assert_eq!(u16_to_dec(8081), "8081");
    assert_eq!(u16_to_dec(0), "0");
    assert_eq!(u16_to_dec(80), "80");
    assert_eq!(u16_to_dec(65535), "65535");
}

#[test]
fn host_stops_at_first_colon() {
    assert_eq!(host_without_port("example.com:8443"), "example.com");
    assert_eq!(host_without_port("example.com"), "example.com");
    assert_eq!(host_without_port(":8080"), "");
    assert_eq!(host_without_port("a:b:c"), "a");
}
