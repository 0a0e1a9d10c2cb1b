use hyper::header::{HeaderMap, HeaderValue, CONTENT_LENGTH};
use net_request::{Body, Method, Protocol, Request};

fn sample() -> Request {
    let mut headers = HeaderMap::new();
    headers.insert(CONTENT_LENGTH, HeaderValue::from_static("3"));
    Request::new(
        Method::Post,
        Protocol::Http11,
        "/upload?x=1".to_string(),
        Body::new(3),
        headers,
    )
}

#[test]
fn request_metadata_is_kept() {
    let request = sample();
    assert_eq!(request.method(), Method::Post);
    assert_eq!(request.protocol(), Protocol::Http11);
    assert_eq!(request.uri(), "/upload?x=1");
    assert_eq!(request.headers().get(CONTENT_LENGTH).unwrap(), "3");
    assert_eq!(request.method(), Method::Post);
}

#[test]
fn request_hands_over_its_unread_body() {
    let mut body = sample().into_body();
    assert_eq!(body.declared_len(), 3);
    assert!(!body.is_complete());
    assert!(body.accept(b"abc").is_ok());
    assert_eq!(body.text().unwrap(), "abc");
}
