use azure_core::Etag;

#[test]
fn weak() {
    let etag: Etag = "W/abcd1234".into();
    assert!(etag.is_weak());
}

#[test]
fn strong() {
    let etag: Etag = "abcd1234".into();
    assert!(!etag.is_weak());
}

#[test]
fn contains_quotes() {
    let etag: Etag = "abcd1234".into();
    assert_eq!(r#"abcd1234"#, etag.to_string());
}

#[test]
fn weak_etag_renders_its_text() {
    let etag: Etag = "W/abcd1234".into();
    assert_eq!("W/abcd1234", etag.to_string());
    assert_eq!("W/abcd1234", etag.as_str());
}

#[test]
fn short_and_lowercase_prefixes_are_strong() {
    let w: Etag = "W".into();
    assert!(!w.is_weak());
    let lower: Etag = "w/abc".into();
    assert!(!lower.is_weak());
    let empty: Etag = String::new().into();
    assert!(!empty.is_weak());
    let parsed: Etag = "W/x".parse().unwrap();
    assert!(parsed.is_weak());
}

#[test]
fn new_etag_holds_its_text() {
    let etag = Etag::new("W/\"xyz\"".to_string());
    assert!(etag.is_weak());
    assert_eq!(etag.to_string(), "W/\"xyz\"");
}
