use azure_core::{
    ApiKeyAuthenticationPolicy, ClientOptions, Context, ContextKind, ContextValue,
    CustomHeaderPolicy, HeaderName, Pipeline, Policy, Request, RetryOptions, TransportOptions,
    TransportPolicy,
};

const SECRET: &str = r#"{"name":"secret-name","version":"v1","attributes":{"enabled":true}}"#;

fn request() -> Request {
    let url = url::Url::parse("https://vault.azure.net/secrets/name?api-version=7.5").unwrap();
    Request::new(url, "GET")
}

fn options(body: &str) -> ClientOptions {
    ClientOptions::new(RetryOptions::none(), TransportOptions::new(body.as_bytes().to_vec()))
}

#[test]
fn end_to_end_with_bearer_token() {
    let auth = Policy::ApiKeyAuthentication(ApiKeyAuthenticationPolicy::new(
        "token123".to_string(),
        "https://vault.azure.net/.default".to_string(),
    ));
    let pipeline = Pipeline::new(None, None, &options(SECRET), Vec::new(), vec![auth]);
    let ctx = Context::new();
    let mut req = request();
    let response = pipeline.send(&ctx, &mut req).unwrap();
    assert_eq!(response.status(), 200);
    assert_eq!(
        req.headers()
            .get_optional_str(&HeaderName::from_static("authorization")),
        Some("Bearer token123")
    );
    assert_eq!(
        response
            .headers()
            .get_optional_str(&HeaderName::from_static("authorization")),
        Some("Bearer token123")
    );
    let secret = response.json().unwrap();
    assert_eq!(secret["name"].as_str(), Some("secret-name"));
    assert_eq!(secret["version"].as_str(), Some("v1"));
    assert_eq!(secret["attributes"]["enabled"].as_bool(), Some(true));
}

#[test]
fn short_circuit_skips_the_rest() {
    // The first policy answers by itself: the probe after it never runs.
    let first = Policy::Transport(TransportPolicy::new(TransportOptions::new(b"first".to_vec())));
    let probe = Policy::CustomHeader(CustomHeaderPolicy::new(
        "x-probe".to_string(),
        "ran".to_string(),
    ));
    let pipeline = Pipeline::new(None, None, &options("last"), vec![first, probe], Vec::new());
    let ctx = Context::new();
    let mut req = request();
    let response = pipeline.send(&ctx, &mut req).unwrap();
    assert_eq!(
        req.headers().get_optional_str(&HeaderName::from_static("x-probe")),
        None
    );
    let (_, _, body) = response.deconstruct();
    assert_eq!(body.collect().unwrap(), b"first".to_vec());
}

#[test]
fn policies_run_in_order() {
    let call = Policy::CustomHeader(CustomHeaderPolicy::new("X-Order".to_string(), "call".to_string()));
    let retry = Policy::CustomHeader(CustomHeaderPolicy::new("x-order".to_string(), "retry".to_string()));
    let mut opts = options("{}");
    opts.per_call_policies.push(Policy::CustomHeader(CustomHeaderPolicy::new(
        "x-client".to_string(),
        "yes".to_string(),
    )));
    let pipeline = Pipeline::new(Some("core"), Some("0.1.0"), &opts, vec![call], vec![retry]);
    let ctx = Context::new();
    let mut req = request();
    pipeline.send(&ctx, &mut req).unwrap();
    // The per-retry policy runs after the per-call one, so its value stays.
    assert_eq!(
        req.headers().get_optional_str(&HeaderName::from_static("x-order")),
        Some("retry")
    );
    assert_eq!(
        req.headers().get_optional_str(&HeaderName::from_static("x-client")),
        Some("yes")
    );
}

#[test]
fn shared_pipeline_keeps_contexts_apart() {
    let pipeline = Pipeline::new(None, None, &options("{}"), Vec::new(), Vec::new());
    let shared = pipeline.clone();
    let parent = Context::new();
    let mut first = Context::with_context(&parent);
    first.insert(ContextValue::CorrelationId("one".to_string()));
    let mut second = Context::with_context(&parent);
    second.insert(ContextValue::CorrelationId("two".to_string()));
    let mut r1 = request();
    let mut r2 = request();
    let a = pipeline.send(&first, &mut r1).unwrap();
    let b = shared.send(&second, &mut r2).unwrap();
    assert_eq!(a.status(), 200);
    assert_eq!(b.status(), 200);
    assert_eq!(
        first.value(ContextKind::CorrelationId),
        Some(&ContextValue::CorrelationId("one".to_string()))
    );
    assert_eq!(
        second.value(ContextKind::CorrelationId),
        Some(&ContextValue::CorrelationId("two".to_string()))
    );
    assert!(parent.is_empty());
}

#[test]
fn request_path_and_query() {
    let req = request();
    assert_eq!(req.path_and_query(), "/secrets/name?api-version=7.5");
    assert_eq!(req.method(), "GET");
    let plain = Request::new(url::Url::parse("https://example.com/a/b").unwrap(), "PATCH");
    assert_eq!(plain.path_and_query(), "/a/b");
    assert_eq!(azure_core::join_path_and_query("/p", Some("q=1")), "/p?q=1");
    assert_eq!(azure_core::join_path_and_query("/p", None), "/p");
}

#[test]
fn request_set_json_and_body() {
    let mut req = request();
    assert!(req.body().is_empty());
    let value = serde_json::Value::Bool(true);
    req.set_json(&value).unwrap();
    assert_eq!(req.body().len(), 4);
    let list = serde_json::Value::Array(vec![serde_json::Value::from(1), serde_json::Value::from("a")]);
    req.set_json(&list).unwrap();
    assert_eq!(req.body().len(), b"[1,\"a\"]".len());
    assert!(matches!(req.body(), azure_core::Body::Bytes(b) if b == b"[1,\"a\"]"));
    req.set_body(azure_core::Body::Bytes(vec![1, 2]));
    assert_eq!(req.body().len(), 2);
}

#[test]
fn transport_answers_with_fixed_headers() {
    let transport = TransportOptions::new(b"{}".to_vec());
    let mut req = request();
    req.insert_header(HeaderName::from_static("x-sent"), azure_core::HeaderValue::from_static("1"));
    let response = transport.send(&Context::new(), &mut req).unwrap();
    assert_eq!(response.status(), 200);
    assert_eq!(response.headers().iter().len(), 0);
    assert_eq!(
        req.headers().get_optional_str(&HeaderName::from_static("x-sent")),
        Some("1")
    );
}
