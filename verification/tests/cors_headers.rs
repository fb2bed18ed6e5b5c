use axum::http::HeaderMap;
use axum::http::HeaderName;
use axum::http::HeaderValue;
use r2_proxy::cors::CorsConfig;
use r2_proxy::headers::is_sendable_text;
use r2_proxy::headers::set_headers;

fn texts(items: &[&str]) -> Vec<String> {
    items.iter().map(|item| item.to_string()).collect()
}

fn policy() -> CorsConfig {
    CorsConfig {
        allowed_origins: texts(&["https://a.com", "https://b.com"]),
        allowed_methods: texts(&["GET", "HEAD"]),
        allowed_headers: texts(&["Range", "If-None-Match"]),
        expose_headers: texts(&["ETag"]),
        max_age: Some(600),
        allow_credentials: true,
    }
}

fn field(headers: &HeaderMap, name: &str) -> Option<String> {
    headers.get(name).map(|value| value.to_str().unwrap().to_string())
}

#[test]
fn default_policy_is_the_open_read_only_one() {
    let policy = CorsConfig::default();
    assert_eq!(policy.allowed_origins, texts(&["*"]));
    assert_eq!(policy.allowed_methods, texts(&["GET", "OPTIONS"]));
    assert_eq!(policy.allowed_headers, texts(&["*"]));
    assert_eq!(policy.expose_headers, Vec::<String>::new());
    assert_eq!(policy.max_age, Some(86400));
    assert!(!policy.allow_credentials);
}

#[test]
fn clone_copies_every_field() {
    let copy = policy().clone();
    assert_eq!(copy.allowed_origins, policy().allowed_origins);
    assert_eq!(copy.allowed_methods, policy().allowed_methods);
    assert_eq!(copy.allowed_headers, policy().allowed_headers);
    assert_eq!(copy.expose_headers, policy().expose_headers);
    assert_eq!(copy.max_age, Some(600));
    assert!(copy.allow_credentials);
}

#[test]
fn header_fields_lists_the_fields_in_order() {
    assert_eq!(
        policy().header_fields(),
        vec![
            ("access-control-allow-origin", "https://a.com".to_string()),
            ("access-control-allow-methods", "GET, HEAD".to_string()),
            ("access-control-allow-headers", "Range, If-None-Match".to_string()),
            ("access-control-expose-headers", "ETag".to_string()),
            ("access-control-max-age", "600".to_string()),
            ("access-control-allow-credentials", "true".to_string()),
        ]
    );
}

#[test]
fn header_fields_of_the_default_policy() {
    assert_eq!(
        CorsConfig::default().header_fields(),
        vec![
            ("access-control-allow-origin", "*".to_string()),
            ("access-control-allow-methods", "GET, OPTIONS".to_string()),
            ("access-control-allow-headers", "*".to_string()),
            ("access-control-max-age", "86400".to_string()),
        ]
    );
}

#[test]
fn header_fields_of_an_empty_policy_still_lists_methods_and_headers() {
    let empty = CorsConfig {
        allowed_origins: vec![],
        allowed_methods: vec![],
        allowed_headers: vec![],
        expose_headers: vec![],
        max_age: None,
        allow_credentials: false,
    };
    assert_eq!(
        empty.header_fields(),
        vec![
            ("access-control-allow-methods", String::new()),
            ("access-control-allow-headers", String::new()),
        ]
    );
}

#[test]
fn apply_headers_emits_the_first_origin_only() {
    let mut headers = HeaderMap::new();
    policy().apply_headers(&mut headers);
    assert_eq!(field(&headers, "access-control-allow-origin"), Some("https://a.com".to_string()));
    assert_eq!(headers.get_all("access-control-allow-origin").iter().count(), 1);
    for value in headers.values() {
        assert_ne!(value, "https://b.com");
        assert_ne!(value, "*");
    }
}

#[test]
fn apply_headers_sets_every_field_of_the_policy() {
    let mut headers = HeaderMap::new();
    policy().apply_headers(&mut headers);
    assert_eq!(headers.len(), 6);
    assert_eq!(field(&headers, "access-control-allow-methods"), Some("GET, HEAD".to_string()));
    assert_eq!(
        field(&headers, "access-control-allow-headers"),
        Some("Range, If-None-Match".to_string())
    );
    assert_eq!(field(&headers, "access-control-expose-headers"), Some("ETag".to_string()));
    assert_eq!(field(&headers, "access-control-max-age"), Some("600".to_string()));
    assert_eq!(field(&headers, "access-control-allow-credentials"), Some("true".to_string()));
}

#[test]
fn apply_headers_leaves_out_what_the_policy_does_not_say() {
    let quiet = CorsConfig {
        allowed_origins: vec![],
        allowed_methods: vec![],
        allowed_headers: vec![],
        expose_headers: vec![],
        max_age: None,
        allow_credentials: false,
    };
    let mut headers = HeaderMap::new();
    quiet.apply_headers(&mut headers);
    assert_eq!(headers.len(), 2);
    assert_eq!(field(&headers, "access-control-allow-methods"), Some(String::new()));
    assert_eq!(field(&headers, "access-control-allow-headers"), Some(String::new()));
    assert!(!headers.contains_key("access-control-allow-origin"));
    assert!(!headers.contains_key("access-control-expose-headers"));
    assert!(!headers.contains_key("access-control-max-age"));
    assert!(!headers.contains_key("access-control-allow-credentials"));
}

#[test]
fn apply_headers_replaces_what_was_held_and_keeps_the_rest() {
    let mut headers = HeaderMap::new();
    headers.insert("content-type", HeaderValue::from_static("text/html"));
    headers.append("access-control-allow-origin", HeaderValue::from_static("https://x.com"));
    headers.append("access-control-allow-origin", HeaderValue::from_static("https://y.com"));
    policy().apply_headers(&mut headers);
    assert_eq!(headers.get_all("access-control-allow-origin").iter().count(), 1);
    assert_eq!(field(&headers, "access-control-allow-origin"), Some("https://a.com".to_string()));
    assert_eq!(field(&headers, "content-type"), Some("text/html".to_string()));
    assert_eq!(headers.keys_len(), 7);
}

#[test]
fn is_sendable_tells_control_characters_apart() {
    assert!(policy().is_sendable());
    assert!(CorsConfig::default().is_sendable());
    let mut bad = policy();
    bad.allowed_methods = texts(&["GET", "PO\nST"]);
    assert!(!bad.is_sendable());
    let mut second_origin = policy();
    second_origin.allowed_origins = texts(&["https://a.com", "bad\r\n"]);
    assert!(second_origin.is_sendable());
}

#[test]
fn try_apply_headers_changes_nothing_where_a_text_cannot_be_sent() {
    let mut bad = policy();
    bad.expose_headers = texts(&["ETag\u{7f}"]);
    let mut headers = HeaderMap::new();
    headers.insert("etag", HeaderValue::from_static("abc"));
    assert!(!bad.try_apply_headers(&mut headers));
    assert_eq!(headers.len(), 1);
    assert_eq!(field(&headers, "etag"), Some("abc".to_string()));
}

#[test]
fn try_apply_headers_applies_a_sendable_policy() {
    let mut headers = HeaderMap::new();
    assert!(policy().try_apply_headers(&mut headers));
    assert_eq!(headers.len(), 6);
    assert_eq!(field(&headers, "access-control-allow-origin"), Some("https://a.com".to_string()));
}

#[test]
fn is_sendable_text_agrees_with_the_header_value_parser() {
    let samples = [
        "", "plain", "tab\there", "line\nbreak", "\r", "\0", "\u{1f}", " ", "~", "\u{7f}",
        "\u{80}", "é", "日本語", "a\u{7f}b", "public, max-age=7200",
    ];
    for sample in samples {
        assert_eq!(is_sendable_text(sample), HeaderValue::from_str(sample).is_ok(), "{:?}", sample);
    }
}

#[test]
fn set_headers_keeps_the_bytes_of_each_text() {
    let mut headers = HeaderMap::new();
    let fields = vec![
        ("x-note", "caf\u{e9}".to_string()),
        ("x-note", "th\u{e9}".to_string()),
        ("x-other", "1".to_string()),
    ];
    set_headers(&mut headers, &fields);
    assert_eq!(headers.len(), 2);
    assert_eq!(headers.get("x-note").unwrap().as_bytes(), "th\u{e9}".as_bytes());
    assert_eq!(headers.get("x-other").unwrap().as_bytes(), b"1");
}

fn map_with_names(count: usize) -> HeaderMap {
    let mut headers = HeaderMap::new();
    for i in 0..count {
        let name = HeaderName::from_bytes(format!("x-{}", i).as_bytes()).unwrap();
        headers.insert(name, HeaderValue::from_static("1"));
    }
    headers
}

#[test]
fn try_apply_headers_applies_up_to_the_limit_of_names() {
    let mut headers = map_with_names(6548);
    assert!(policy().try_apply_headers(&mut headers));
    assert_eq!(headers.keys_len(), 6554);
    assert_eq!(field(&headers, "access-control-max-age"), Some("600".to_string()));
    assert_eq!(field(&headers, "x-0"), Some("1".to_string()));
}

#[test]
fn try_apply_headers_changes_nothing_above_the_limit_of_names() {
    let mut headers = map_with_names(6549);
    assert!(!policy().try_apply_headers(&mut headers));
    assert_eq!(headers.keys_len(), 6549);
    assert!(!headers.contains_key("access-control-allow-origin"));
}

#[test]
fn apply_headers_a_second_time_changes_nothing() {
    let mut headers = HeaderMap::new();
    headers.insert("content-type", HeaderValue::from_static("text/html"));
    policy().apply_headers(&mut headers);
    let once = headers.clone();
    policy().apply_headers(&mut headers);
    assert_eq!(headers, once);
    assert_eq!(headers.keys_len(), 7);
    assert_eq!(headers.len(), 7);
}

#[test]
fn set_headers_counts_a_name_once() {
    let mut headers = HeaderMap::new();
    let fields = vec![
        ("x-a", "1".to_string()),
        ("x-b", "2".to_string()),
        ("x-a", "3".to_string()),
    ];
    set_headers(&mut headers, &fields);
    assert_eq!(headers.keys_len(), 2);
    set_headers(&mut headers, &fields);
    assert_eq!(headers.keys_len(), 2);
    assert_eq!(field(&headers, "x-a"), Some("3".to_string()));
    assert_eq!(field(&headers, "x-b"), Some("2".to_string()));
}
