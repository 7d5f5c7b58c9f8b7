use azure_core::{BytesStream, CollectedResponse, ErrorKind, HeaderName, HeaderValue, Headers, Response};

#[test]
fn collected_json_accepts_valid_json() {
    let r = CollectedResponse::new(
        200,
        Headers::new(),
        br#"{"name":"secret-name","version":"v1","attributes":{"enabled":true}}"#.to_vec(),
    );
    let v = r.json().unwrap();
    assert_eq!(v["name"].as_str(), Some("secret-name"));
    assert_eq!(v["attributes"]["enabled"].as_bool(), Some(true));
    assert_eq!(r.status(), 200);
}

#[test]
fn collected_json_rejects_malformed() {
    let r = CollectedResponse::new(500, Headers::new(), b"{\"name\":".to_vec());
    let e = r.json().unwrap_err();
    assert_eq!(e.kind(), &ErrorKind::DataConversion);
    assert!(e.source().is_some());
}

#[test]
fn from_response_buffers_the_body() {
    let mut h = Headers::new();
    h.insert(HeaderName::from_static("etag"), HeaderValue::from_static("W/1"));
    let response = Response::new(201, h, BytesStream::new(b"[1,2]".to_vec()));
    assert_eq!(response.headers().get_str(&HeaderName::from_static("etag")).unwrap(), "W/1");
    let c = CollectedResponse::from_response(response).unwrap();
    assert_eq!(c.status(), 201);
    assert_eq!(c.body(), &b"[1,2]".to_vec());
    assert!(c.json().unwrap().is_array());
}

#[test]
fn stream_hands_out_one_chunk() {
    let mut s = BytesStream::new(b"abc".to_vec());
    assert_eq!(s.next_chunk(), Some(b"abc".to_vec()));
    assert_eq!(s.next_chunk(), None);
    let mut empty = BytesStream::new(Vec::new());
    assert_eq!(empty.next_chunk(), None);
}

#[test]
fn response_json_rejects_empty_body() {
    let response = Response::new(200, Headers::new(), BytesStream::new(Vec::new()));
    assert_eq!(response.json().unwrap_err().kind(), &ErrorKind::DataConversion);
}
