use langston_studio::forward::Header;
use langston_studio::response::{bad_gateway, body_mode, first_header_value, is_server_error, plan_response, BodyMode, BAD_GATEWAY};

fn header(name: &str, value: &str) -> Header {
    Header { name: name.as_bytes().to_vec(), value: value.as_bytes().to_vec() }
}

fn names(hs: &[Header]) -> Vec<String> {
    hs.iter().map(|h| String::from_utf8(h.name.clone()).unwrap()).collect()
}

#[test]
fn html_is_buffered_and_loses_content_length() {
    let head = plan_response(
        200,
        vec![header("content-type", "text/html; charset=utf-8"), header("content-length", "120"), header("etag", "e1")],
    );
    assert_eq!(head.status, 200);
    assert_eq!(head.mode, BodyMode::Document);
    assert_eq!(names(&head.headers), vec!["content-type", "etag"]);
}

#[test]
fn plain_response_keeps_status_and_every_header() {
    let head = plan_response(
        200,
        vec![header("content-type", "application/json"), header("content-length", "2"), header("x-a", "1")],
    );
    assert_eq!(head.status, 200);
    assert_eq!(head.mode, BodyMode::Stream { flagged: false });
    assert_eq!(names(&head.headers), vec!["content-type", "content-length", "x-a"]);
    assert_eq!(head.headers[1].value, b"2".to_vec());
}

#[test]
fn event_streams_and_chunked_bodies_are_flagged() {
    assert_eq!(body_mode(&vec![header("content-type", "text/event-stream")]), BodyMode::Stream { flagged: true });
    assert_eq!(body_mode(&vec![header("content-type", "text/x-component")]), BodyMode::Stream { flagged: true });
    assert_eq!(
        body_mode(&vec![header("content-type", "application/json"), header("transfer-encoding", "chunked")]),
        BodyMode::Stream { flagged: true }
    );
    assert_eq!(body_mode(&Vec::new()), BodyMode::Stream { flagged: false });
}

#[test]
fn only_the_first_content_type_counts() {
    let hs = vec![header("Content-Type", "application/json"), header("content-type", "text/html")];
    assert_eq!(first_header_value(&hs, b"content-type"), b"application/json");
    assert_eq!(body_mode(&hs), BodyMode::Stream { flagged: false });
    assert_eq!(first_header_value(&hs, b"etag"), b"");
}

#[test]
fn bad_gateway_names_the_error() {
    let r = bad_gateway("error sending request: connection refused");
    assert_eq!(r.status, BAD_GATEWAY);
    assert_eq!(r.status, 502);
    assert_eq!(names(&r.headers), vec!["content-type"]);
    assert_eq!(r.headers[0].value, b"text/plain".to_vec());
    assert_eq!(r.body, "Proxy error: error sending request: connection refused");
}

#[test]
fn server_errors_are_five_hundreds() {
    assert!(!is_server_error(499));
    assert!(is_server_error(500));
    assert!(is_server_error(599));
    assert!(!is_server_error(600));
}
