use crate::context::Context;
use crate::headers::Headers;
use crate::policies::Policy;
use crate::response::{Response, ResponseView};
use crate::stream::{copy_range, BytesStream};
use crate::error::Error;
use crate::request::Request;
use vstd::prelude::*;

verus! {

#[derive(Clone, Debug, Default, PartialEq, Eq, Structural)]
pub struct ExponentialRetryOptions {}

#[derive(Clone, Debug, Default, PartialEq, Eq, Structural)]
pub struct FixedRetryOptions {}

/// How a failed attempt is retried.
#[derive(Clone, Debug, PartialEq, Eq, Structural)]
pub enum RetryMode {
    Exponential(ExponentialRetryOptions),
    Fixed(FixedRetryOptions),
    Disabled,
}

/// The retry strategy of a client.
#[derive(Clone, Debug)]
pub struct RetryOptions {
    mode: RetryMode,
}

impl RetryOptions {
    pub closed spec fn mode_spec(&self) -> RetryMode {
        self.mode
    }

    pub fn exponential(options: ExponentialRetryOptions) -> (r: RetryOptions)
        ensures
            r.mode_spec() == RetryMode::Exponential(options),
    {
        RetryOptions { mode: RetryMode::Exponential(options) }
    }

    pub fn fixed(options: FixedRetryOptions) -> (r: RetryOptions)
        ensures
            r.mode_spec() == RetryMode::Fixed(options),
    {
        RetryOptions { mode: RetryMode::Fixed(options) }
    }

    pub fn none() -> (r: RetryOptions)
        ensures
            r.mode_spec() == RetryMode::Disabled,
    {
        RetryOptions { mode: RetryMode::Disabled }
    }

    pub fn mode(&self) -> (r: RetryMode)
        ensures
            r == self.mode_spec(),
    {
        match &self.mode {
            RetryMode::Exponential(_) => RetryMode::Exponential(ExponentialRetryOptions {  }),
            RetryMode::Fixed(_) => RetryMode::Fixed(FixedRetryOptions {  }),
            RetryMode::Disabled => RetryMode::Disabled,
        }
    }
}

impl Default for RetryOptions {
    fn default() -> (r: RetryOptions)
        ensures
            r.mode_spec() == RetryMode::Exponential(ExponentialRetryOptions {  }),
    {
        RetryOptions::exponential(ExponentialRetryOptions {  })
    }
}

/// The terminal exchange, simulated in memory: a fixed response body
/// replayed with status 200 and no headers.
#[derive(Clone, Debug)]
pub struct TransportOptions {
    body: Vec<u8>,
}

impl View for TransportOptions {
    type V = Seq<u8>;

    closed spec fn view(&self) -> Seq<u8> {
        self.body@
    }
}

/// The response that a transport replaying `body` gives.
pub open spec fn replayed(body: Seq<u8>) -> ResponseView {
    ResponseView { status: 200, headers: Map::empty(), body }
}

impl TransportOptions {
    /// A transport that answers every request with `response_body`.
    pub fn new(response_body: Vec<u8>) -> (r: TransportOptions)
        ensures
            r@ == response_body@,
    {
        TransportOptions { body: response_body }
    }

    /// A copy of these options.
    pub fn duplicate(&self) -> (r: TransportOptions)
        ensures
            r@ == self@,
    {
        let bytes = copy_range(&self.body, 0, self.body.len());
        assert(bytes@ == self.body@);
        TransportOptions { body: bytes }
    }

    /// Performs the exchange: the fixed body, as a one-chunk stream, with
    /// status 200 and no headers. The request is not changed.
    pub fn send(&self, ctx: &Context, request: &mut Request) -> (r: Result<Response, Error>)
        ensures
            *final(request) == *old(request),
            r is Ok && r->Ok_0@ == replayed(self@),
    {
        let bytes = copy_range(&self.body, 0, self.body.len());
        assert(bytes@ == self.body@);
        let stream = BytesStream::new(bytes);
        Ok(Response::new(200, Headers::new(), stream))
    }
}

impl Default for TransportOptions {
    fn default() -> (r: TransportOptions)
        ensures
            r@ == Seq::<u8>::empty(),
    {
        TransportOptions { body: Vec::new() }
    }
}

/// The options of a client: its retry strategy, its transport, and the
/// policies it adds to every call and to every attempt.
#[derive(Debug)]
pub struct ClientOptions {
    pub retry: RetryOptions,
    pub transport: TransportOptions,
    pub per_call_policies: Vec<Policy>,
    pub per_retry_policies: Vec<Policy>,
}

impl ClientOptions {
    /// Options with the given retry strategy and transport, and no policies.
    pub fn new(retry: RetryOptions, transport: TransportOptions) -> (r: ClientOptions)
        ensures
            r.retry == retry,
            r.transport == transport,
            r.per_call_policies@.len() == 0,
            r.per_retry_policies@.len() == 0,
    {
        ClientOptions {
            retry,
            transport,
            per_call_policies: Vec::new(),
            per_retry_policies: Vec::new(),
        }
    }

    pub fn retry(&self) -> (r: &RetryOptions)
        ensures
            *r == self.retry,
    {
        &self.retry
    }

    pub fn transport(&self) -> (r: &TransportOptions)
        ensures
            *r == self.transport,
    {
        &self.transport
    }
}

impl Default for ClientOptions {
    fn default() -> (r: ClientOptions)
        ensures
            r.retry.mode_spec() == RetryMode::Exponential(ExponentialRetryOptions {  }),
            r.transport@ == Seq::<u8>::empty(),
            r.per_call_policies@.len() == 0,
            r.per_retry_policies@.len() == 0,
    {
        ClientOptions::new(RetryOptions::default(), TransportOptions::default())
    }
}

/// The options of one client operation: the context it runs in.
#[derive(Debug)]
pub struct ClientMethodOptions {
    context: Context,
}

impl ClientMethodOptions {
    pub closed spec fn context_spec(&self) -> Context {
        self.context
    }

    pub fn new(context: Context) -> (r: ClientMethodOptions)
        ensures
            r.context_spec() == context,
    {
        ClientMethodOptions { context }
    }

    pub fn context(&self) -> (r: &Context)
        ensures
            *r == self.context_spec(),
    {
        &self.context
    }

    /// Makes `context` the operation's context.
    pub fn set_context(&mut self, context: Context)
        ensures
            final(self).context_spec() == context,
    {
        self.context = context;
    }
}

impl Default for ClientMethodOptions {
    fn default() -> (r: ClientMethodOptions)
        ensures
            r.context_spec().size() == 0,
    {
        ClientMethodOptions { context: Context::new() }
    }
}

/// Gives a client builder the setters of the client's options.
pub trait ClientOptionsBuilder {
    fn options(&self) -> &ClientOptions;

    fn options_mut(&mut self) -> &mut ClientOptions;

    fn with_retry(&mut self, retry: RetryOptions) -> &mut Self {
        self.options_mut().retry = retry;
        self
    }

    fn with_transport(&mut self, transport: TransportOptions) -> &mut Self {
        self.options_mut().transport = transport;
        self
    }
}

/// Gives an operation builder the setters of the operation's options.
pub trait ClientMethodOptionsBuilder {
    fn options(&self) -> &ClientMethodOptions;

    fn options_mut(&mut self) -> &mut ClientMethodOptions;

    fn with_context(&mut self, context: Context) -> &mut Self {
        self.options_mut().set_context(context);
        self
    }
}

} // verus!
