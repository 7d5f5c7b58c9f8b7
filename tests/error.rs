use azure_core::{Error, ErrorKind, ResultExt};

#[test]
fn kind_displays() {
    let k = ErrorKind::HttpResponse {
        status: 404,
        error_code: None,
    };
    assert_eq!(k.display(), "HttpResponse(404, unknown)");
    let k = ErrorKind::HttpResponse {
        status: 409,
        error_code: Some("Conflict".to_string()),
    };
    assert_eq!(k.display(), "HttpResponse(409, Conflict)");
    assert_eq!(ErrorKind::Io.display(), "Io");
    assert_eq!(ErrorKind::Credential.display(), "Credential");
    assert_eq!(ErrorKind::Other.display(), "Other");
}

#[test]
fn every_error_has_one_kind() {
    let simple = ErrorKind::Io.into_error();
    assert_eq!(simple.kind(), &ErrorKind::Io);
    assert_eq!(simple.display(), "Io");
    assert!(simple.source().is_none());

    let custom = Error::new(ErrorKind::Credential, "no token".to_string());
    assert_eq!(custom.kind(), &ErrorKind::Credential);
    assert_eq!(custom.display(), "no token");
    assert_eq!(custom.source(), Some(&"no token".to_string()));

    let msg = Error::message(ErrorKind::Other, "explained".to_string());
    assert_eq!(msg.display(), "explained");
    assert!(msg.source().is_none());

    let lazy = Error::with_message(ErrorKind::DataConversion, || format!("n = {}", 3));
    assert_eq!(lazy.kind(), &ErrorKind::DataConversion);
    assert_eq!(lazy.display(), "n = 3");

    let from: Error = ErrorKind::Other.into();
    assert_eq!(from.kind(), &ErrorKind::Other);
}

#[test]
fn context_keeps_the_cause() {
    let inner = Error::new(ErrorKind::Io, "connection reset".to_string());
    let outer = inner.context(ErrorKind::Other, "while sending".to_string());
    assert_eq!(outer.kind(), &ErrorKind::Other);
    assert_eq!(outer.display(), "while sending");
    assert_eq!(outer.source(), Some(&"connection reset".to_string()));
}

#[test]
fn result_adapters_wrap_the_error() {
    let failed: Result<u8, Error> = Err(Error::message(ErrorKind::Io, "broken pipe".to_string()));
    let e = failed.map_kind(ErrorKind::Other).unwrap_err();
    assert_eq!(e.kind(), &ErrorKind::Other);
    assert_eq!(e.display(), "broken pipe");
    assert_eq!(e.source(), Some(&"broken pipe".to_string()));

    let failed: Result<u8, Error> = Err(ErrorKind::Io.into_error());
    let e = failed.context(ErrorKind::DataConversion, "reading".to_string()).unwrap_err();
    assert_eq!(e.kind(), &ErrorKind::DataConversion);
    assert_eq!(e.display(), "reading");
    assert_eq!(e.source(), Some(&"Io".to_string()));

    let failed: Result<u8, Error> = Err(ErrorKind::Credential.into_error());
    let e = failed
        .with_context(ErrorKind::Other, || "token".to_string())
        .unwrap_err();
    assert_eq!(e.display(), "token");

    let ok: Result<u8, Error> = Ok(5);
    assert_eq!(ok.context(ErrorKind::Other, "unused".to_string()).unwrap(), 5);
}
