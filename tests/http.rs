use backend::http::{
    build_response, classify_request, generic_response, preflight_response, respond, RequestKind,
};
use backend::status::Status;

const PREFLIGHT: &str = "HTTP/1.1 204 No Content\r\n\
                         Access-Control-Allow-Origin: *\r\n\
                         Access-Control-Allow-Methods: GET, POST, OPTIONS\r\n\
                         Access-Control-Allow-Headers: Content-Type\r\n\
                         Content-Length: 0\r\n\
                         Connection: close\r\n\r\n";

fn content_length(response: &str) -> usize {
    let line = response
        .split("\r\n")
        .find(|l| l.starts_with("Content-Length: "))
        .expect("no Content-Length header");
    line["Content-Length: ".len()..].parse().unwrap()
}

fn body_of(response: &str) -> &str {
    let at = response.find("\r\n\r\n").unwrap();
    &response[at + 4..]
}

#[test]
fn options_request_is_preflight() {
    let req = b"OPTIONS /api HTTP/1.1\r\nHost: x\r\n\r\n";
    assert_eq!(classify_request(req), RequestKind::Preflight);
}

#[test]
fn bare_options_word_is_preflight() {
    assert_eq!(classify_request(b"OPTIONS"), RequestKind::Preflight);
}

#[test]
fn lowercase_options_is_generic() {
    assert_eq!(classify_request(b"options / HTTP/1.1\r\n\r\n"), RequestKind::Generic);
}

#[test]
fn get_request_is_generic() {
    assert_eq!(classify_request(b"GET / HTTP/1.1\r\n\r\n"), RequestKind::Generic);
}

#[test]
fn truncated_options_is_generic() {
    assert_eq!(classify_request(b"OPTION"), RequestKind::Generic);
}

#[test]
fn empty_request_is_generic() {
    assert_eq!(classify_request(b""), RequestKind::Generic);
}

#[test]
fn preflight_response_is_byte_exact() {
    assert_eq!(preflight_response(), PREFLIGHT);
}

#[test]
fn generic_response_is_byte_exact() {
    let body = "{\"message\":\"Rust backend is running!\"}";
    let expected = "HTTP/1.1 200 OK\r\n\
                    Content-Type: application/json\r\n\
                    Access-Control-Allow-Origin: *\r\n\
                    Content-Length: 38\r\n\
                    Connection: close\r\n\
                    \r\n\
                    {\"message\":\"Rust backend is running!\"}";
    assert_eq!(generic_response(body), expected);
}

#[test]
fn content_length_counts_bytes_not_chars() {
    let body = "{\"message\":\"h\u{e9}llo\"}";
    let r = generic_response(body);
    assert_eq!(content_length(&r), 20);
    assert_eq!(content_length(&r), body_of(&r).len());
}

#[test]
fn content_length_matches_body_in_every_response() {
    let status = Status::new("Rust backend is running!");
    for req in [&b"OPTIONS * HTTP/1.1\r\n\r\n"[..], &b"GET / HTTP/1.1\r\n\r\n"[..], &b""[..], &b"POST /x"[..]] {
        let r = respond(req, &status);
        assert_eq!(content_length(&r), body_of(&r).len());
    }
}

#[test]
fn preflight_answer_has_no_body() {
    let status = Status::new("Rust backend is running!");
    let r = respond(b"OPTIONS / HTTP/1.1\r\n\r\n", &status);
    assert!(r.starts_with("HTTP/1.1 204 No Content\r\n"));
    assert_eq!(body_of(&r), "");
}

#[test]
fn generic_answer_is_json_message() {
    let status = Status::new("Rust backend is running!");
    let r = respond(b"GET /health HTTP/1.1\r\n\r\n", &status);
    assert!(r.starts_with("HTTP/1.1 200 OK\r\n"));
    assert!(r.contains("\r\nContent-Type: application/json\r\n"));
    let value: serde_json::Value = serde_json::from_str(body_of(&r)).unwrap();
    assert_eq!(value["message"], "Rust backend is running!");
}

#[test]
fn empty_read_gets_complete_ok_response() {
    let status = Status::new("Rust backend is running!");
    let r = respond(b"", &status);
    assert!(r.starts_with("HTTP/1.1 200 OK\r\n"));
    assert_eq!(body_of(&r), "{\"message\":\"Rust backend is running!\"}");
    assert_eq!(content_length(&r), 38);
}

#[test]
fn build_response_uses_given_body_for_generic() {
    let r = build_response(b"GET /", "{}");
    assert!(r.ends_with("Content-Length: 2\r\nConnection: close\r\n\r\n{}"));
}

#[test]
fn build_response_ignores_body_for_preflight() {
    assert_eq!(build_response(b"OPTIONS /", "{}"), PREFLIGHT);
}

#[test]
fn status_to_json_wraps_message() {
    assert_eq!(Status::new("hi").to_json(), "{\"message\":\"hi\"}");
    assert_eq!(Status::new("").to_json(), "{\"message\":\"\"}");
}
