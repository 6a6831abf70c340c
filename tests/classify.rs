use langston_studio::classify::{classify_request, RequestKind, SLOW_ASSET_SECS};
use langston_studio::context::RequestContext;
use langston_studio::ids::RequestIds;

#[test]
fn message_path_is_streaming() {
    assert_eq!(classify_request("/api/session/abc/message"), RequestKind::StreamingMessage);
    assert_eq!(classify_request("/api/session/abc/message?x=1"), RequestKind::StreamingMessage);
}

#[test]
fn session_paths_are_session_api() {
    assert_eq!(classify_request("/api/session"), RequestKind::SessionApi);
    assert_eq!(classify_request("/api/session/abc"), RequestKind::SessionApi);
}

#[test]
fn other_api_paths_are_api() {
    assert_eq!(classify_request("/api/config"), RequestKind::Api);
    assert_eq!(classify_request("/api/message"), RequestKind::Api);
}

#[test]
fn scripts_styles_and_fonts_are_static_assets() {
    assert_eq!(classify_request("/assets/index-1a2b.js"), RequestKind::StaticAsset);
    assert_eq!(classify_request("/assets/index.css"), RequestKind::StaticAsset);
    assert_eq!(classify_request("/fonts/inter.woff2"), RequestKind::StaticAsset);
}

#[test]
fn root_and_html_are_pages() {
    assert_eq!(classify_request("/"), RequestKind::Page);
    assert_eq!(classify_request("/index.html"), RequestKind::Page);
}

#[test]
fn anything_else_is_other() {
    assert_eq!(classify_request("/favicon.ico"), RequestKind::Other);
    assert_eq!(classify_request(""), RequestKind::Other);
    assert_eq!(classify_request("//"), RequestKind::Other);
}

#[test]
fn api_rule_wins_over_asset_rule() {
    assert_eq!(classify_request("/api/files/app.js"), RequestKind::Api);
}

#[test]
fn labels_name_each_kind() {
    assert_eq!(RequestKind::StreamingMessage.label(), "message (streaming)");
    assert_eq!(RequestKind::SessionApi.label(), "session API");
    assert_eq!(RequestKind::Api.label(), "API");
    assert_eq!(RequestKind::StaticAsset.label(), "static asset");
    assert_eq!(RequestKind::Page.label(), "page");
    assert_eq!(RequestKind::Other.label(), "other");
}

#[test]
fn static_assets_are_logged_only_when_slow() {
    assert!(!RequestKind::StaticAsset.logged_in_full());
    assert!(RequestKind::Page.logged_in_full());
    assert!(!RequestKind::StaticAsset.completion_logged(SLOW_ASSET_SECS));
    assert!(RequestKind::StaticAsset.completion_logged(SLOW_ASSET_SECS + 1));
    assert!(RequestKind::Api.completion_logged(0));
}

#[test]
fn request_ids_start_at_one_and_increase() {
    let mut ids = RequestIds::new();
    assert_eq!(ids.peek(), 1);
    let a = ids.next_id().unwrap();
    let b = ids.next_id().unwrap();
    let c = ids.next_id().unwrap();
    assert_eq!((a, b, c), (1, 2, 3));
    assert_eq!(ids.peek(), 4);
}

#[test]
fn contexts_carry_increasing_ids_and_their_kind() {
    let mut ids = RequestIds::new();
    let first = RequestContext::open(&mut ids, "POST".to_string(), "/api/session/s1/message".to_string()).unwrap();
    let second = RequestContext::open(&mut ids, "GET".to_string(), "/app.css".to_string()).unwrap();
    assert!(first.id < second.id);
    assert_eq!(first.method, "POST");
    assert_eq!(first.target, "/api/session/s1/message");
    assert_eq!(first.kind, RequestKind::StreamingMessage);
    assert_eq!(second.kind, RequestKind::StaticAsset);
}
