use crate::context::Context;
use crate::error::Error;
use crate::options::ClientOptions;
use crate::options::replayed;
use crate::policies::{
    applied, bearer, returned, delegates, invoked, run, terminated, views, Policy, PolicyView, TransportPolicy,
};
use crate::request::{Request, RequestView};
use crate::response::{Response, ResponseView};
use vstd::prelude::*;

verus! {

/// Appends a copy of each policy of `src` to `dst`.
fn extend_copies(dst: &mut Vec<Policy>, src: &Vec<Policy>)
    ensures
        views(final(dst)@) == views(old(dst)@) + views(src@),
{
    let ghost start = views(dst@);
    let mut i: usize = 0;
    while i < src.len()
        invariant
            i <= src@.len(),
            views(dst@) == start + views(src@.subrange(0, i as int)),
        decreases src@.len() - i,
    {
        let p = src[i].duplicate();
        let ghost before = dst@;
        dst.push(p);
        proof {
            assert(views(dst@) == views(before) + seq![p@]);
            assert(views(src@.subrange(0, i + 1)) == views(src@.subrange(0, i as int)) + seq![
                src@[i as int]@,
            ]);
        }
        i = i + 1;
    }
    assert(src@.subrange(0, src@.len() as int) == src@);
}

/// Appends the policies of `src` to `dst`, which leaves `src` empty.
fn extend_moved(dst: &mut Vec<Policy>, src: Vec<Policy>)
    ensures
        views(final(dst)@) == views(old(dst)@) + views(src@),
{
    let mut src = src;
    let ghost moved = src@;
    dst.append(&mut src);
    assert(views(dst@) == views(old(dst)@) + views(moved));
}

/// An ordered, immutable chain of policies that ends in a transport. It can
/// be shared by many calls at once: a call owns its own context and request.
#[derive(Debug)]
pub struct Pipeline {
    pipeline: Vec<Policy>,
}

impl View for Pipeline {
    type V = Seq<PolicyView>;

    closed spec fn view(&self) -> Seq<PolicyView> {
        views(self.pipeline@)
    }
}

impl Pipeline {
    #[verifier::type_invariant]
    closed spec fn ends_in_transport(&self) -> bool {
        terminated(views(self.pipeline@))
    }

    /// The chain for a client: the operation's per-call policies, the
    /// client's per-call policies, the operation's per-retry policies, the
    /// client's per-retry policies, then the client's transport.
    pub fn new(
        crate_name: Option<&'static str>,
        crate_version: Option<&'static str>,
        options: &ClientOptions,
        per_call_policies: Vec<Policy>,
        per_retry_policies: Vec<Policy>,
    ) -> (r: Pipeline)
        ensures
            r@ == views(per_call_policies@) + views(options.per_call_policies@) + views(
                per_retry_policies@,
            ) + views(options.per_retry_policies@) + seq![
                PolicyView::Transport { body: options.transport@ },
            ],
            terminated(r@),
    {
        let mut pipeline: Vec<Policy> = Vec::new();
        extend_moved(&mut pipeline, per_call_policies);
        extend_copies(&mut pipeline, &options.per_call_policies);
        extend_moved(&mut pipeline, per_retry_policies);
        extend_copies(&mut pipeline, &options.per_retry_policies);
        let transport = Policy::Transport(TransportPolicy::new(options.transport.duplicate()));
        let ghost before = pipeline@;
        pipeline.push(transport);
        assert(views(pipeline@) == views(before) + seq![transport@]);
        Pipeline { pipeline }
    }

    /// Sends `request` down the chain, from its first policy.
    pub fn send(&self, ctx: &Context, request: &mut Request) -> (r: Result<Response, Error>)
        ensures
            r is Ok,
            final(request)@ == run(self@, old(request)@).0,
            r->Ok_0@ == run(self@, old(request)@).1,
    {
        proof {
            use_type_invariant(self);
        }
        let all = self.pipeline.as_slice();
        let rest = vstd::slice::slice_subrange(all, 1, all.len());
        assert(views(all@) == seq![all@[0]@] + views(rest@));
        self.pipeline[0].send(ctx, request, rest)
    }
}

impl Clone for Pipeline {
    fn clone(&self) -> (r: Pipeline)
        ensures
            r@ == self@,
    {
        proof {
            use_type_invariant(self);
        }
        let mut pipeline: Vec<Policy> = Vec::new();
        extend_copies(&mut pipeline, &self.pipeline);
        assert(views(pipeline@) == views(self.pipeline@));
        Pipeline { pipeline }
    }
}

/// A policy that does not delegate is the only one that runs: the policies
/// after it change neither the request nor the response, and the request
/// leaves the chain as it came in.
pub proof fn lemma_short_circuit(
    first: PolicyView,
    rest: Seq<PolicyView>,
    other: Seq<PolicyView>,
    req: RequestView,
)
    requires
        !delegates(first),
    ensures
        invoked(seq![first] + rest) == 1,
        run(seq![first] + rest, req) == run(seq![first] + other, req),
        run(seq![first] + rest, req).0 == req,
{
    assert((seq![first] + rest)[0] == first);
    assert((seq![first] + other)[0] == first);
}

/// An authentication policy in front of a transport: the request leaves the
/// chain with the bearer header for the token, and the response, with status
/// 200 and the transport's body, comes back carrying that header.
pub proof fn lemma_bearer_reaches_response(
    token: Seq<char>,
    scope: Seq<char>,
    body: Seq<u8>,
    req: RequestView,
)
    ensures
        ({
            let chain = seq![
                PolicyView::ApiKeyAuthentication { token, scope },
                PolicyView::Transport { body },
            ];
            let sent = RequestView {
                headers: req.headers.insert("authorization"@, bearer(token)),
                ..req
            };
            &&& run(chain, req).0 == sent
            &&& run(chain, req).1 == ResponseView {
                status: 200,
                headers: map!["authorization"@ => bearer(token)],
                body,
            }
        }),
{
    let chain = seq![
        PolicyView::ApiKeyAuthentication { token, scope },
        PolicyView::Transport { body },
    ];
    let tail = seq![PolicyView::Transport { body }];
    let sent = applied(chain[0], req);
    assert(chain.drop_first() == tail);
    assert(tail[0] == PolicyView::Transport { body });
    assert(run(tail, sent) == (sent, replayed(body)));
    assert(run(chain, req) == (sent, returned(chain[0], replayed(body))));
    assert(Map::<Seq<char>, Seq<char>>::empty().insert("authorization"@, bearer(token))
        =~= map!["authorization"@ => bearer(token)]);
}

/// A delegating policy runs and acts on the request; the rest of the chain
/// then runs on what it made, and the policy acts on the response on its way
/// back.
pub proof fn lemma_delegation(first: PolicyView, rest: Seq<PolicyView>, req: RequestView)
    requires
        delegates(first),
    ensures
        invoked(seq![first] + rest) == 1 + invoked(rest),
        run(seq![first] + rest, req) == (
            run(rest, applied(first, req)).0,
            returned(first, run(rest, applied(first, req)).1),
        ),
{
    assert((seq![first] + rest)[0] == first);
    assert((seq![first] + rest).drop_first() == rest);
}

} // verus!
