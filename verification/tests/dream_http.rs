use reverie::dream_http::{ClientError, DreamHttpClient, RecentResponse, WireEvent, DEFAULT_BASE_URL};
use reverie::fetch::{is_success, FetchOutcome, LogLevel};

fn client() -> DreamHttpClient {
    DreamHttpClient::new(Some("http://example.test".into()))
}

#[test]
fn recent_sends_correct_query() {
    let uri = client().recent_uri(Some("1-0"), 50, "memory-io,dream");
    assert!(uri.contains("/events/recent"), "{uri}");
    assert!(uri.contains("limit=50"), "{uri}");
    assert!(uri.contains("after=1-0"), "{uri}");
    assert!(uri.contains("categories=memory-io,dream"), "{uri}");
}

#[test]
fn recent_uri_is_exact() {
    assert_eq!(
        client().recent_uri(Some("1-0"), 50, "memory-io,dream"),
        "http://example.test/events/recent?limit=50&after=1-0&categories=memory-io,dream"
    );
    assert_eq!(client().recent_uri(None, 10, ""), "http://example.test/events/recent?limit=10");
    assert_eq!(client().recent_uri(Some(""), 0, ""), "http://example.test/events/recent?limit=0");
    assert_eq!(
        client().recent_uri(Some("a b&c"), 100, "x#y"),
        "http://example.test/events/recent?limit=100&after=a+b%26c&categories=x%23y"
    );
}

#[test]
fn default_base_url_is_local_daemon() {
    assert_eq!(DEFAULT_BASE_URL, "http://localhost:7437");
    let c = DreamHttpClient::new(None);
    assert_eq!(c.recent_uri(None, 1, ""), "http://localhost:7437/events/recent?limit=1");
}

#[test]
fn recent_parses_body() {
    let mut c = client();
    let resp = RecentResponse {
        events: vec![WireEvent {
            id: "1-0".into(),
            ts_ms: 1,
            category: "memory-io".into(),
            type_: "obs.capture".into(),
            summary: "x".into(),
            fields: serde_json::Value::Object(serde_json::Map::new()),
        }],
        next_after: Some("1-0".into()),
    };
    let (r, level) = c.settle_recent(FetchOutcome::Parsed(resp));
    let r = r.unwrap();
    assert_eq!(r.events.len(), 1);
    assert_eq!(r.events[0].type_, "obs.capture");
    assert_eq!(r.next_after.as_deref(), Some("1-0"));
    assert_eq!(level, None);
}

#[test]
fn recent_returns_transport_error_on_connection_failure() {
    let mut c = client();
    let (r, _) = c.settle_recent(FetchOutcome::Transport);
    assert!(matches!(r, Err(ClientError::Transport)));
}

#[test]
fn recent_returns_status_error_on_5xx() {
    let mut c = client();
    let (r, _) = c.settle_recent(FetchOutcome::Status(503));
    assert!(matches!(r, Err(ClientError::Status(503))));
}

#[test]
fn first_failure_is_loud_until_a_success() {
    let mut c = client();
    assert_eq!(c.settle_recent(FetchOutcome::Transport).1, Some(LogLevel::Info));
    assert_eq!(c.settle_recent(FetchOutcome::Status(500)).1, Some(LogLevel::Debug));
    assert_eq!(c.settle_recent(FetchOutcome::Unreadable).1, Some(LogLevel::Debug));
    assert_eq!(c.settle_recent(FetchOutcome::Malformed).1, None);
    let ok = RecentResponse { events: vec![], next_after: None };
    assert!(c.settle_recent(FetchOutcome::Parsed(ok)).0.is_ok());
    assert_eq!(c.settle_recent(FetchOutcome::Transport).1, Some(LogLevel::Info));
}

#[test]
fn malformed_body_is_a_transport_error() {
    let mut c = client();
    let (r, level) = c.settle_recent(FetchOutcome::Malformed);
    assert!(matches!(r, Err(ClientError::Transport)));
    assert_eq!(level, None);
}

#[test]
fn success_means_2xx() {
    assert!(!is_success(199));
    assert!(is_success(200));
    assert!(is_success(201));
    assert!(is_success(299));
    assert!(!is_success(300));
    assert!(!is_success(503));
}

#[test]
fn responses_can_be_copied() {
    let resp = reverie::dream_http::RecentResponse {
        events: vec![reverie::dream_http::WireEvent {
            id: "1-0".into(),
            ts_ms: 5,
            category: "dream".into(),
            type_: "d".into(),
            summary: "s".into(),
            fields: serde_json::Value::Bool(true),
        }],
        next_after: Some("1-0".into()),
    };
    let copy = resp.clone();
    assert_eq!(copy.events[0].id, "1-0");
    assert_eq!(copy.events[0].fields, serde_json::Value::Bool(true));
    assert_eq!(copy.next_after.as_deref(), Some("1-0"));
}
