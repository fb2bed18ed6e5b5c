use r2_proxy::cors::CorsConfig;
use r2_proxy::directory::DirectoryCache;
use r2_proxy::directory::DirectorySnapshot;
use r2_proxy::errors::ProxyError;

fn pair(name: &str, bucket: &str) -> (String, String) {
    (name.to_string(), bucket.to_string())
}

fn policy(origin: &str) -> CorsConfig {
    CorsConfig {
        allowed_origins: vec![origin.to_string()],
        allowed_methods: vec!["GET".to_string()],
        allowed_headers: vec!["*".to_string()],
        expose_headers: vec![],
        max_age: None,
        allow_credentials: false,
    }
}

#[test]
fn empty_snapshot_allows_nothing() {
    let snapshot = DirectorySnapshot::empty();
    assert_eq!(snapshot.whitelist_len(), 0);
    assert_eq!(snapshot.cors_len(), 0);
    assert_eq!(snapshot.lookup_bucket("@"), None);
    assert!(snapshot.lookup_cors("@").is_none());
}

#[test]
fn from_entries_trims_and_drops_empty_pairs() {
    let whitelist = vec![pair("docs", " my-bucket "), pair("", " x")];
    let snapshot = DirectorySnapshot::from_entries(&whitelist, &vec![]);
    assert_eq!(snapshot.whitelist_len(), 1);
    assert_eq!(snapshot.lookup_bucket("docs"), Some("my-bucket".to_string()));
    assert_eq!(snapshot.lookup_bucket(""), None);
    assert_eq!(snapshot.lookup_bucket(" x"), None);
}

#[test]
fn from_entries_drops_a_pair_whose_bucket_is_white_space() {
    let whitelist = vec![pair("a", "   "), pair(" \t", "b"), pair(" c ", "\tbucket-c\n")];
    let snapshot = DirectorySnapshot::from_entries(&whitelist, &vec![]);
    assert_eq!(snapshot.whitelist_len(), 1);
    assert_eq!(snapshot.lookup_bucket("a"), None);
    assert_eq!(snapshot.lookup_bucket("c"), Some("bucket-c".to_string()));
    assert_eq!(snapshot.lookup_bucket(" c "), None);
}

#[test]
fn from_entries_lets_the_later_pair_win() {
    let whitelist = vec![pair("docs", "old"), pair(" docs", "new"), pair("docs ", " ")];
    let snapshot = DirectorySnapshot::from_entries(&whitelist, &vec![]);
    assert_eq!(snapshot.whitelist_len(), 1);
    assert_eq!(snapshot.lookup_bucket("docs"), Some("new".to_string()));
}

#[test]
fn from_entries_keeps_names_case_sensitive() {
    let whitelist = vec![pair("Docs", "upper"), pair("docs", "lower")];
    let snapshot = DirectorySnapshot::from_entries(&whitelist, &vec![]);
    assert_eq!(snapshot.whitelist_len(), 2);
    assert_eq!(snapshot.lookup_bucket("Docs"), Some("upper".to_string()));
    assert_eq!(snapshot.lookup_bucket("docs"), Some("lower".to_string()));
}

#[test]
fn from_entries_stores_policies_under_their_names_as_written() {
    let cors = vec![
        ("foo".to_string(), policy("https://old.example")),
        (" bar ".to_string(), policy("https://bar.example")),
        ("foo".to_string(), policy("https://new.example")),
    ];
    let snapshot = DirectorySnapshot::from_entries(&vec![], &cors);
    assert_eq!(snapshot.cors_len(), 2);
    assert_eq!(
        snapshot.lookup_cors("foo").unwrap().allowed_origins,
        vec!["https://new.example".to_string()]
    );
    assert!(snapshot.lookup_cors("bar").is_none());
    assert_eq!(
        snapshot.lookup_cors(" bar ").unwrap().allowed_origins,
        vec!["https://bar.example".to_string()]
    );
}

#[test]
fn from_parsed_takes_a_missing_payload_for_an_empty_one() {
    let snapshot = DirectorySnapshot::from_parsed(None, None);
    assert_eq!(snapshot.whitelist_len(), 0);
    assert_eq!(snapshot.cors_len(), 0);
    let snapshot = DirectorySnapshot::from_parsed(
        Some(vec![pair("foo", "bucket1")]),
        Some(vec![("foo".to_string(), policy("*"))]),
    );
    assert_eq!(snapshot.lookup_bucket("foo"), Some("bucket1".to_string()));
    assert!(snapshot.lookup_cors("foo").is_some());
}

#[test]
fn new_cache_allows_nothing() {
    let cache = DirectoryCache::new();
    assert_eq!(cache.lookup_bucket("foo"), None);
    assert!(cache.lookup_cors("foo").is_none());
    assert_eq!(cache.snapshot().whitelist_len(), 0);
}

#[test]
fn replace_changes_whitelist_and_policies_together() {
    let mut cache = DirectoryCache::new();
    cache.replace(DirectorySnapshot::from_entries(
        &vec![pair("old", "bucket-old")],
        &vec![("old".to_string(), policy("https://old.example"))],
    ));
    assert_eq!(cache.lookup_bucket("old"), Some("bucket-old".to_string()));
    assert!(cache.lookup_cors("old").is_some());
    cache.replace(DirectorySnapshot::from_entries(
        &vec![pair("new", "bucket-new")],
        &vec![("new".to_string(), policy("https://new.example"))],
    ));
    assert_eq!(cache.lookup_bucket("old"), None);
    assert!(cache.lookup_cors("old").is_none());
    assert_eq!(cache.lookup_bucket("new"), Some("bucket-new".to_string()));
    assert!(cache.lookup_cors("new").is_some());
}

#[test]
fn refresh_reads_the_whitelist_document() {
    let mut cache = DirectoryCache::new();
    let text = r#"[["foo", "bucket1"], [" bar ", " bucket2 "], ["", "x"]]"#.to_string();
    let outcome = cache.refresh(Ok(Some(text)), Ok(None));
    assert!(outcome.is_ok());
    assert_eq!(cache.snapshot().whitelist_len(), 2);
    assert_eq!(cache.lookup_bucket("foo"), Some("bucket1".to_string()));
    assert_eq!(cache.lookup_bucket("bar"), Some("bucket2".to_string()));
    assert_eq!(cache.snapshot().cors_len(), 0);
}

#[test]
fn refresh_installs_the_policies_it_is_given() {
    let mut cache = DirectoryCache::new();
    let outcome =
        cache.refresh(Ok(None), Ok(Some(vec![("foo".to_string(), policy("https://a.com"))])));
    assert!(outcome.is_ok());
    assert_eq!(cache.snapshot().whitelist_len(), 0);
    assert_eq!(
        cache.lookup_cors("foo").unwrap().allowed_origins,
        vec!["https://a.com".to_string()]
    );
}

#[test]
fn refresh_with_a_malformed_whitelist_erases_every_entry() {
    let mut cache = DirectoryCache::new();
    cache.replace(DirectorySnapshot::from_entries(&vec![pair("foo", "bucket1")], &vec![]));
    let malformed = [
        "not json",
        "",
        "{\"foo\": \"bucket1\"}",
        "[[\"foo\"]]",
        "[[\"foo\", \"a\", \"b\"]]",
        "[[\"foo\", 1]]",
        "[[\"foo\", \"bucket1\"]] trailing",
    ];
    for text in malformed {
        cache.replace(DirectorySnapshot::from_entries(&vec![pair("foo", "bucket1")], &vec![]));
        let outcome = cache.refresh(Ok(Some(text.to_string())), Ok(None));
        assert!(outcome.is_ok(), "{:?}", text);
        assert_eq!(cache.snapshot().whitelist_len(), 0, "{:?}", text);
        assert_eq!(cache.lookup_bucket("foo"), None, "{:?}", text);
    }
}

#[test]
fn refresh_with_missing_payloads_erases_every_entry() {
    let mut cache = DirectoryCache::new();
    cache.replace(DirectorySnapshot::from_entries(
        &vec![pair("foo", "bucket1")],
        &vec![("foo".to_string(), policy("*"))],
    ));
    assert!(cache.refresh(Ok(None), Ok(None)).is_ok());
    assert_eq!(cache.snapshot().whitelist_len(), 0);
    assert_eq!(cache.snapshot().cors_len(), 0);
}

#[test]
fn refresh_is_skipped_where_the_whitelist_fetch_failed() {
    let mut cache = DirectoryCache::new();
    cache.replace(DirectorySnapshot::from_entries(
        &vec![pair("foo", "bucket1")],
        &vec![("foo".to_string(), policy("*"))],
    ));
    let outcome = cache.refresh(
        Err(ProxyError::KvError("KV request failed: dns".to_string())),
        Ok(Some(vec![])),
    );
    match outcome {
        Err(ProxyError::KvError(reason)) => assert_eq!(reason, "KV request failed: dns"),
        other => panic!("{:?}", other),
    }
    assert_eq!(cache.lookup_bucket("foo"), Some("bucket1".to_string()));
    assert!(cache.lookup_cors("foo").is_some());
}

#[test]
fn refresh_is_skipped_where_the_cors_fetch_failed() {
    let mut cache = DirectoryCache::new();
    cache.replace(DirectorySnapshot::from_entries(
        &vec![pair("foo", "bucket1")],
        &vec![("foo".to_string(), policy("*"))],
    ));
    let outcome = cache.refresh(
        Ok(Some(r#"[["bar", "bucket2"]]"#.to_string())),
        Err(ProxyError::KvError("KV API error: 500 Internal Server Error - ".to_string())),
    );
    assert!(matches!(outcome, Err(ProxyError::KvError(_))));
    assert_eq!(cache.lookup_bucket("foo"), Some("bucket1".to_string()));
    assert_eq!(cache.lookup_bucket("bar"), None);
    assert!(cache.lookup_cors("foo").is_some());
}

#[test]
fn refresh_reports_the_whitelist_failure_first() {
    let mut cache = DirectoryCache::new();
    let outcome = cache.refresh(
        Err(ProxyError::KvError("first".to_string())),
        Err(ProxyError::KvError("second".to_string())),
    );
    match outcome {
        Err(ProxyError::KvError(reason)) => assert_eq!(reason, "first"),
        other => panic!("{:?}", other),
    }
}
