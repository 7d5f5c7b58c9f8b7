//! The request pipeline core: request-scoped context, the request and
//! response model, the error taxonomy and the chain of policies that every
//! client operation is sent through.

pub mod context;
pub mod error;
pub mod etag;
pub mod headers;
pub mod json;
pub mod options;
pub mod pipeline;
pub mod policies;
pub mod request;
pub mod request_content;
pub mod response;
pub mod secrets;
pub mod stream;
pub mod trace;

pub use context::{Context, ContextKind, ContextValue};
pub use error::{Error, ErrorKind, ResultExt};
pub use etag::Etag;
pub use headers::{ensure_no_uppercase, HeaderName, HeaderValue, Headers};
pub use options::{
    ClientMethodOptions, ClientOptions, ExponentialRetryOptions, FixedRetryOptions, RetryOptions,
    TransportOptions,
};
pub use pipeline::Pipeline;
pub use policies::{ApiKeyAuthenticationPolicy, CustomHeaderPolicy, Policy, TransportPolicy};
pub use request::{join_path_and_query, Body, Request};
pub use request_content::RequestContent;
pub use response::{CollectedResponse, RawResponse, Response, ResponseBody};
pub use secrets::{GetSecretOptions, Secret, SecretProperties, UpdateSecretPropertiesOptions};
pub use stream::BytesStream;
pub use trace::Span;
