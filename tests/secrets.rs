use azure_core::{
    ClientMethodOptions, Context, ContextKind, ContextValue, Etag, HeaderName, Request,
    UpdateSecretPropertiesOptions,
};
use azure_core::options::{ClientMethodOptionsBuilder, RetryMode};
use azure_core::{ExponentialRetryOptions, FixedRetryOptions, RetryOptions};

fn request() -> Request {
    Request::new(url::Url::parse("https://vault.azure.net/secrets/s/v").unwrap(), "PATCH")
}

#[test]
fn conditions_become_headers() {
    let options = UpdateSecretPropertiesOptions {
        if_match: Some(Etag::from("W/abcd1234")),
        if_none_match: Some(Etag::from("abcd1234")),
    };
    let mut req = request();
    options.insert_conditions(&mut req);
    assert_eq!(
        req.headers().get_str(&HeaderName::from_static("if-match")).unwrap(),
        "W/abcd1234"
    );
    assert_eq!(
        req.headers().get_str(&HeaderName::from_static("if-none-match")).unwrap(),
        "abcd1234"
    );
}

#[test]
fn no_conditions_no_headers() {
    let options = UpdateSecretPropertiesOptions::default();
    let mut req = request();
    options.insert_conditions(&mut req);
    assert_eq!(req.headers().iter().len(), 0);
}

struct Builder {
    options: ClientMethodOptions,
}

impl ClientMethodOptionsBuilder for Builder {
    fn options(&self) -> &ClientMethodOptions {
        &self.options
    }
    fn options_mut(&mut self) -> &mut ClientMethodOptions {
        &mut self.options
    }
}

#[test]
fn builder_sets_the_context() {
    let mut b = Builder {
        options: ClientMethodOptions::default(),
    };
    assert!(b.options().context().is_empty());
    let mut ctx = Context::new();
    ctx.insert(ContextValue::Integer(9));
    b.with_context(ctx);
    assert_eq!(
        b.options().context().value(ContextKind::Integer),
        Some(&ContextValue::Integer(9))
    );
}

#[test]
fn retry_options_record_the_mode() {
    assert_eq!(RetryOptions::none().mode(), RetryMode::Disabled);
    assert_eq!(
        RetryOptions::fixed(FixedRetryOptions::default()).mode(),
        RetryMode::Fixed(FixedRetryOptions {})
    );
    assert_eq!(
        RetryOptions::default().mode(),
        RetryMode::Exponential(ExponentialRetryOptions {})
    );
}
