use crate::context::Context;
use crate::error::Error;
use crate::headers::{lowercase_of, no_ascii_upper, HeaderName, HeaderValue, AUTHORIZATION};
use crate::options::{replayed, TransportOptions};
use crate::request::{Request, RequestView};
use crate::response::{Response, ResponseView};
use vstd::prelude::*;
use vstd::string::*;

verus! {

/// What a policy stands for.
pub ghost enum PolicyView {
    CustomHeader { name: Seq<char>, value: Seq<char> },
    ApiKeyAuthentication { token: Seq<char>, scope: Seq<char> },
    Transport { body: Seq<u8> },
}

/// Whether a policy hands the request on to the rest of the chain.
pub open spec fn delegates(p: PolicyView) -> bool {
    !(p is Transport)
}

/// The value of the bearer header for `token`.
pub open spec fn bearer(token: Seq<char>) -> Seq<char> {
    "Bearer "@ + token
}

/// What a delegating policy does to the request before handing it on.
pub open spec fn applied(p: PolicyView, req: RequestView) -> RequestView {
    match p {
        PolicyView::CustomHeader { name, value } => RequestView {
            headers: req.headers.insert(lowercase_of(name), value),
            ..req
        },
        PolicyView::ApiKeyAuthentication { token, scope } => RequestView {
            headers: req.headers.insert("authorization"@, bearer(token)),
            ..req
        },
        PolicyView::Transport { body } => req,
    }
}

/// What a delegating policy does to the response on its way back.
pub open spec fn returned(p: PolicyView, resp: ResponseView) -> ResponseView {
    match p {
        PolicyView::ApiKeyAuthentication { token, scope } => ResponseView {
            headers: resp.headers.insert("authorization"@, bearer(token)),
            ..resp
        },
        _ => resp,
    }
}

/// A chain that ends in a policy that does not delegate, so that every
/// delegating policy in it has a rest to hand on to.
pub open spec fn terminated(chain: Seq<PolicyView>) -> bool {
    chain.len() > 0 && !delegates(chain.last())
}

/// The request as the chain leaves it, and the response it gives.
pub open spec fn run(chain: Seq<PolicyView>, req: RequestView) -> (RequestView, ResponseView)
    decreases chain.len(),
{
    if chain.len() == 0 {
        (req, arbitrary())
    } else {
        match chain[0] {
            PolicyView::Transport { body } => (req, replayed(body)),
            _ => {
                let (sent, resp) = run(chain.drop_first(), applied(chain[0], req));
                (sent, returned(chain[0], resp))
            },
        }
    }
}

/// How many policies of the chain run: each delegating one from the front,
/// up to and including the first that does not delegate.
pub open spec fn invoked(chain: Seq<PolicyView>) -> nat
    decreases chain.len(),
{
    if chain.len() == 0 {
        0
    } else if !delegates(chain[0]) {
        1
    } else {
        1 + invoked(chain.drop_first())
    }
}

/// The views of a slice of policies.
pub open spec fn views(s: Seq<Policy>) -> Seq<PolicyView> {
    s.map_values(|p: Policy| p@)
}

/// Inserts a fixed header, then hands on.
#[derive(Clone, Debug)]
pub struct CustomHeaderPolicy {
    name: String,
    value: String,
}

impl View for CustomHeaderPolicy {
    type V = PolicyView;

    closed spec fn view(&self) -> PolicyView {
        PolicyView::CustomHeader { name: self.name@, value: self.value@ }
    }
}

impl CustomHeaderPolicy {
    pub fn new(name: String, value: String) -> (r: CustomHeaderPolicy)
        ensures
            r@ == (PolicyView::CustomHeader { name: name@, value: value@ }),
    {
        CustomHeaderPolicy { name, value }
    }
}

/// Inserts a bearer `authorization` header for the token it holds, hands on,
/// and puts the same header on the response that comes back.
#[derive(Clone, Debug)]
pub struct ApiKeyAuthenticationPolicy {
    token: String,
    scope: String,
}

impl View for ApiKeyAuthenticationPolicy {
    type V = PolicyView;

    closed spec fn view(&self) -> PolicyView {
        PolicyView::ApiKeyAuthentication { token: self.token@, scope: self.scope@ }
    }
}

impl ApiKeyAuthenticationPolicy {
    pub fn new(token: String, scope: String) -> (r: ApiKeyAuthenticationPolicy)
        ensures
            r@ == (PolicyView::ApiKeyAuthentication { token: token@, scope: scope@ }),
    {
        ApiKeyAuthenticationPolicy { token, scope }
    }
}

/// The last link of a chain: performs the exchange and never hands on.
#[derive(Clone, Debug)]
pub struct TransportPolicy {
    transport_options: TransportOptions,
}

impl View for TransportPolicy {
    type V = PolicyView;

    closed spec fn view(&self) -> PolicyView {
        PolicyView::Transport { body: self.transport_options@ }
    }
}

impl TransportPolicy {
    pub fn new(transport_options: TransportOptions) -> (r: TransportPolicy)
        ensures
            r@ == (PolicyView::Transport { body: transport_options@ }),
    {
        TransportPolicy { transport_options }
    }
}

/// One unit of middleware in a pipeline.
#[derive(Clone, Debug)]
pub enum Policy {
    CustomHeader(CustomHeaderPolicy),
    ApiKeyAuthentication(ApiKeyAuthenticationPolicy),
    Transport(TransportPolicy),
}

impl View for Policy {
    type V = PolicyView;

    open spec fn view(&self) -> PolicyView {
        match self {
            Policy::CustomHeader(p) => p@,
            Policy::ApiKeyAuthentication(p) => p@,
            Policy::Transport(p) => p@,
        }
    }
}

impl Policy {
    /// A copy of this policy.
    pub fn duplicate(&self) -> (r: Policy)
        ensures
            r@ == self@,
    {
        match self {
            Policy::CustomHeader(p) => Policy::CustomHeader(
                CustomHeaderPolicy { name: p.name.clone(), value: p.value.clone() },
            ),
            Policy::ApiKeyAuthentication(p) => Policy::ApiKeyAuthentication(
                ApiKeyAuthenticationPolicy { token: p.token.clone(), scope: p.scope.clone() },
            ),
            Policy::Transport(p) => Policy::Transport(
                TransportPolicy { transport_options: p.transport_options.duplicate() },
            ),
        }
    }

    /// Processes `request`: a delegating policy acts on it and calls
    /// `next[0]` with `next[1..]`; a terminal one answers it.
    pub fn send(&self, ctx: &Context, request: &mut Request, next: &[Policy]) -> (r: Result<
        Response,
        Error,
    >)
        requires
            terminated(seq![self@] + views(next@)),
        ensures
            r is Ok,
            final(request)@ == run(seq![self@] + views(next@), old(request)@).0,
            r->Ok_0@ == run(seq![self@] + views(next@), old(request)@).1,
        decreases next@.len(), 2nat,
    {
        let ghost chain = seq![self@] + views(next@);
        assert(chain.drop_first() == views(next@));
        assert(chain[0] == self@);
        match self {
            Policy::CustomHeader(p) => {
                assert(chain.last() == views(next@).last());
                p.send(ctx, request, next)
            },
            Policy::ApiKeyAuthentication(p) => {
                assert(chain.last() == views(next@).last());
                p.send(ctx, request, next)
            },
            Policy::Transport(p) => p.send(ctx, request, next),
        }
    }
}

/// Hands `request` to `next[0]` with `next[1..]`.
fn send_next(ctx: &Context, request: &mut Request, next: &[Policy]) -> (r: Result<Response, Error>)
    requires
        terminated(views(next@)),
    ensures
        r is Ok,
        final(request)@ == run(views(next@), old(request)@).0,
        r->Ok_0@ == run(views(next@), old(request)@).1,
    decreases next@.len(), 0nat,
{
    let rest = vstd::slice::slice_subrange(next, 1, next.len());
    let ghost chain = views(next@);
    assert(views(rest@) == chain.drop_first());
    assert(chain == seq![next@[0]@] + views(rest@));
    next[0].send(ctx, request, rest)
}

impl CustomHeaderPolicy {
    pub fn send(&self, ctx: &Context, request: &mut Request, next: &[Policy]) -> (r: Result<
        Response,
        Error,
    >)
        requires
            terminated(views(next@)),
        ensures
            r is Ok,
            final(request)@ == run(
                views(next@),
                applied(self@, old(request)@),
            ).0,
            r->Ok_0@ == returned(self@, run(views(next@), applied(self@, old(request)@)).1),
        decreases next@.len(), 1nat,
    {
        let name = HeaderName::from_string(self.name.clone());
        let value = HeaderValue::from_cow(self.value.clone());
        request.insert_header(name, value);
        send_next(ctx, request, next)
    }
}

impl ApiKeyAuthenticationPolicy {
    pub fn send(&self, ctx: &Context, request: &mut Request, next: &[Policy]) -> (r: Result<
        Response,
        Error,
    >)
        requires
            terminated(views(next@)),
        ensures
            r is Ok,
            final(request)@ == run(
                views(next@),
                applied(self@, old(request)@),
            ).0,
            r->Ok_0@ == returned(self@, run(views(next@), applied(self@, old(request)@)).1),
        decreases next@.len(), 1nat,
    {
        proof {
            reveal_strlit("authorization");
            reveal_strlit("Bearer ");
        }
        let name = HeaderName::from_static(AUTHORIZATION);
        let mut value = String::from_str("Bearer ");
        value.append(self.token.as_str());
        let value = HeaderValue::from_cow(value);
        request.insert_header(name.duplicate(), value.duplicate());
        match send_next(ctx, request, next) {
            Ok(mut response) => {
                response.insert_header(name, value);
                Ok(response)
            },
            Err(e) => Err(e),
        }
    }
}

impl TransportPolicy {
    pub fn send(&self, ctx: &Context, request: &mut Request, next: &[Policy]) -> (r: Result<
        Response,
        Error,
    >)
        ensures
            r is Ok,
            final(request)@ == old(request)@,
            self@ is Transport,
            r->Ok_0@ == replayed(self@->Transport_body),
    {
        self.transport_options.send(ctx, request)
    }
}

} // verus!
