use request_engine::classify::classify_headers;
use request_engine::normalize::build_request;
use request_engine::sizes::headers_size;
use request_engine::types::{RequestError, RequestOptions};
use request_engine::urls::validate_url;

fn pair(k: &str, v: &str) -> (String, String) {
    (k.to_string(), v.to_string())
}

fn options(
    method: &str,
    headers: Vec<(String, String)>,
    body: Option<&str>,
    content_type: Option<&str>,
) -> RequestOptions {
    RequestOptions {
        method: method.to_string(),
        url: "http://example.com/".to_string(),
        headers,
        body: body.map(|s| s.to_string()),
        content_type: content_type.map(|s| s.to_string()),
        cookies: vec![],
    }
}

#[test]
fn cookie_headers_are_stripped_in_any_case() {
    let opts = options(
        "GET",
        vec![pair("Cookie", "a=1"), pair("Accept", "*/*"), pair("COOKIE", "b=2"), pair(
            "cOoKiE", "c=3",
        )],
        None,
        None,
    );
    let p = build_request(opts).unwrap();
    assert_eq!(p.headers.len(), 1);
    assert_eq!(p.headers[0].0, "Accept");
    assert_eq!(p.headers[0].1, "*/*");
}

#[test]
fn content_type_is_attached_when_owed() {
    let opts = options("POST", vec![pair("Accept", "*/*")], Some("{}"), Some("application/json"));
    let p = build_request(opts).unwrap();
    assert_eq!(p.headers.len(), 2);
    assert_eq!(p.headers[1].0, "content-type");
    assert_eq!(p.headers[1].1, "application/json");
    assert_eq!(p.body.as_deref(), Some("{}"));
}

#[test]
fn existing_content_type_header_wins() {
    let opts = options(
        "POST",
        vec![pair("Content-Type", "text/plain")],
        Some("x"),
        Some("application/json"),
    );
    let p = build_request(opts).unwrap();
    assert_eq!(p.headers.len(), 1);
    assert_eq!(p.headers[0].1, "text/plain");
}

#[test]
fn content_type_is_not_attached_without_body() {
    let opts = options("GET", vec![], None, Some("application/json"));
    let p = build_request(opts).unwrap();
    assert_eq!(p.headers.len(), 0);
}

#[test]
fn invalid_header_name_is_rejected() {
    let opts = options("GET", vec![pair("bad header", "x")], None, None);
    assert_eq!(build_request(opts).unwrap_err(), RequestError::InvalidHeader);
}

#[test]
fn invalid_header_value_is_rejected() {
    let opts = options("GET", vec![pair("x-test", "line\nbreak")], None, None);
    assert_eq!(build_request(opts).unwrap_err(), RequestError::InvalidHeader);
}

#[test]
fn invalid_content_type_value_is_rejected() {
    let opts = options("POST", vec![], Some("x"), Some("bad\nvalue"));
    assert_eq!(build_request(opts).unwrap_err(), RequestError::InvalidHeader);
}

#[test]
fn invalid_method_token_is_rejected() {
    let opts = options("GE T", vec![], None, None);
    assert_eq!(build_request(opts).unwrap_err(), RequestError::InvalidMethod);
}

#[test]
fn empty_method_is_rejected() {
    let opts = options("", vec![], None, None);
    assert_eq!(build_request(opts).unwrap_err(), RequestError::InvalidMethod);
}

#[test]
fn custom_method_token_is_accepted() {
    let opts = options("PURGE", vec![], None, None);
    let p = build_request(opts).unwrap();
    assert_eq!(p.method, "PURGE");
}

#[test]
fn header_errors_come_before_method_errors() {
    let opts = options("GE T", vec![pair("bad header", "x")], None, None);
    assert_eq!(build_request(opts).unwrap_err(), RequestError::InvalidHeader);
}

#[test]
fn png_is_binary() {
    assert!(classify_headers(&vec![pair("content-type", "image/png")]));
}

#[test]
fn svg_is_text() {
    assert!(!classify_headers(&vec![pair("content-type", "image/svg+xml")]));
}

#[test]
fn json_is_text() {
    assert!(!classify_headers(&vec![pair("content-type", "application/json")]));
}

#[test]
fn classification_ignores_ascii_case() {
    assert!(classify_headers(&vec![pair("Content-Type", "IMAGE/PNG")]));
    assert!(!classify_headers(&vec![pair("Content-Type", "Image/SVG+xml")]));
}

#[test]
fn octet_stream_audio_and_video_are_binary() {
    assert!(classify_headers(&vec![pair("content-type", "application/octet-stream")]));
    assert!(classify_headers(&vec![pair("content-type", "audio/mpeg")]));
    assert!(classify_headers(&vec![pair("content-type", "video/mp4")]));
}

#[test]
fn missing_content_type_is_text() {
    assert!(!classify_headers(&vec![pair("x-test", "1")]));
}

#[test]
fn first_content_type_header_decides() {
    let h = vec![pair("content-type", "image/png"), pair("content-type", "text/plain")];
    assert!(classify_headers(&h));
}

#[test]
fn header_size_counts_name_value_and_separators() {
    assert_eq!(headers_size(&vec![pair("ab", "cd")]), 8);
    assert_eq!(headers_size(&vec![pair("location", "/n"), pair("set-cookie", "a=1")]), 31);
    assert_eq!(headers_size(&vec![]), 0);
}

#[test]
fn url_validation_matches_the_transport() {
    assert!(validate_url("http://example.com/a?b=c").is_ok());
    assert_eq!(validate_url("not a url").unwrap_err(), RequestError::InvalidUrl);
    assert_eq!(validate_url("").unwrap_err(), RequestError::InvalidUrl);
}

#[test]
fn redirect_loop_message_matches() {
    assert_eq!(
        RequestError::RedirectLoopExceeded.message(),
        "Maximum redirect limit (10) exceeded. The server might be in a redirect loop."
    );
    assert_eq!(RequestError::CloneFailure.message(), "Failed to clone request");
    assert_eq!(RequestError::NoResponse.message(), "No response received");
}
