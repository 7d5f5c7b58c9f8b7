use azure_core::headers::{Header, IF_MATCH};
use azure_core::{ensure_no_uppercase, ErrorKind, HeaderName, HeaderValue, Headers};

struct IfMatch(&'static str);

impl Header for IfMatch {
    fn name(&self) -> HeaderName {
        HeaderName::from_static(IF_MATCH)
    }
    fn value(&self) -> HeaderValue {
        HeaderValue::from_static(self.0)
    }
}

#[test]
fn insert_replaces_by_name() {
    let mut h = Headers::new();
    h.insert(HeaderName::from_static("a"), HeaderValue::from_static("1"));
    h.insert(HeaderName::from_static("b"), HeaderValue::from_static("2"));
    h.insert(HeaderName::from_static("a"), HeaderValue::from_static("3"));
    assert_eq!(h.get_str(&HeaderName::from_static("a")).unwrap(), "3");
    assert_eq!(h.get_optional_string(&HeaderName::from_static("b")), Some("2".to_string()));
    assert_eq!(h.iter().len(), 2);
}

#[test]
fn missing_header_is_data_conversion() {
    let h = Headers::default();
    let e = h.get_str(&HeaderName::from_static("etag")).unwrap_err();
    assert_eq!(e.kind(), &ErrorKind::DataConversion);
    assert_eq!(e.display(), "header not found etag");
    assert_eq!(h.get_optional_str(&HeaderName::from_static("etag")), None);
}

#[test]
fn parse_header_values() {
    let mut h = Headers::new();
    h.insert(HeaderName::from_static("content-length"), HeaderValue::from_static("42"));
    h.insert(HeaderName::from_static("x-bad"), HeaderValue::from_static("nope"));
    let n: u64 = h.get_as(&HeaderName::from_static("content-length")).unwrap();
    assert_eq!(n, 42);
    let bad = h.get_as::<u64>(&HeaderName::from_static("x-bad")).unwrap_err();
    assert_eq!(bad.kind(), &ErrorKind::DataConversion);
    assert_eq!(bad.display(), "unable to parse header 'x-bad: nope'");
    let none: Option<u64> = h.get_optional_as(&HeaderName::from_static("x-none")).unwrap();
    assert_eq!(none, None);
}

#[test]
fn get_with_runs_the_parser() {
    let mut h = Headers::new();
    h.insert(HeaderName::from_static("x-len"), HeaderValue::from_static("abcd"));
    let len = h
        .get_with(&HeaderName::from_static("x-len"), |v| Ok(v.as_str().len()))
        .unwrap();
    assert_eq!(len, 4);
    let missing = h.get_optional_with(&HeaderName::from_static("x-none"), |v| Ok(v.as_str().len()));
    assert!(matches!(missing, Ok(None)));
}

#[test]
fn add_inserts_header_values() {
    let mut h = Headers::new();
    h.add(IfMatch("W/abc"));
    h.add(None::<IfMatch>);
    assert_eq!(h.get_str(&HeaderName::from_static("if-match")).unwrap(), "W/abc");
    assert_eq!(h.iter().len(), 1);
}

#[test]
fn header_names_from_owned_text_are_lowercased() {
    let n = HeaderName::from_string("X-Custom-Header".to_string());
    assert_eq!(n.as_str(), "x-custom-header");
    assert!(ensure_no_uppercase("if-none-match"));
    assert!(!ensure_no_uppercase("If-None-Match"));
}
