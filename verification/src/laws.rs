//! What holds of a whole call, proved from the contracts of its steps.

use vstd::prelude::*;
use crate::error::ProxyError;
use crate::message::{converts_to, Request, Response};
use crate::proxier::{dispatches, port_chars, responds, Proxier, Rewrite};

verus! {

/// Where the handle rewrites nothing but the target, the request that reaches
/// the client has the caller's method and header lines, the handle's target,
/// and the caller's body in the client's form.
pub proof fn lemma_client_gets_callers_head<A, B, C: From<B>, E, T>(
    adapter: Proxier<A>,
    request: Request<B>,
    order: Rewrite<'_, B>,
    rewritten: Request<B>,
    next: Result<Request<C>, ProxyError<E, T>>,
)
    requires
        adapter.orders(request, order),
        order.request.same_but_target(rewritten),
        dispatches::<B, C, E, T>(Ok(rewritten), next),
    ensures
        next is Ok,
        next->Ok_0.head().method == request.head().method,
        next->Ok_0.head().headers == request.head().headers,
        next->Ok_0.head().target == rewritten.head().target,
        converts_to(request.body, next->Ok_0.body),
{
}

/// A request goes to the client exactly when the handle could rewrite it. A
/// failure of the handle ends the call as a request-construction failure that
/// carries the handle's error, and is never a transport failure.
pub proof fn lemma_build_failure_sends_nothing<B, C: From<B>, E, T>(
    rewritten: Result<Request<B>, E>,
    next: Result<Request<C>, ProxyError<E, T>>,
)
    requires
        dispatches::<B, C, E, T>(rewritten, next),
    ensures
        next is Ok <==> rewritten is Ok,
        rewritten is Err ==> next->Err_0 == ProxyError::<E, T>::BuildRequest(rewritten->Err_0),
        next is Err ==> !(next->Err_0 is Transport),
{
}

/// Whatever the client answers, the caller gets it: a response with the same
/// status and header lines, whatever the status is, or the client's error
/// unchanged as a transport failure, never a request-construction failure.
pub proof fn lemma_client_answer_is_passed_on<B: From<C>, C, E, T>(
    outcome: Result<Response<C>, T>,
    result: Result<Response<B>, ProxyError<E, T>>,
)
    requires
        responds::<B, C, E, T>(outcome, result),
    ensures
        result is Ok <==> outcome is Ok,
        outcome is Ok ==> result->Ok_0.head() == outcome->Ok_0.head(),
        outcome is Err ==> result->Err_0 == ProxyError::<E, T>::Transport(outcome->Err_0),
        result is Err ==> !(result->Err_0 is BuildRequest),
{
}

/// Where converting a body to the client's form and back always gives the
/// body again, and the client answers with the very body it was sent, the
/// caller's response holds the body of the request.
pub proof fn lemma_echo_returns_the_body<B: From<C>, C: From<B>, E, T>(
    rewritten: Request<B>,
    sent: Request<C>,
    echoed: Response<C>,
    result: Result<Response<B>, ProxyError<E, T>>,
)
    requires
        forall|c: C, b: B|
            #![trigger converts_to(rewritten.body, c), converts_to(c, b)]
            converts_to(rewritten.body, c) && converts_to(c, b) ==> b == rewritten.body,
        dispatches::<B, C, E, T>(Ok(rewritten), Ok(sent)),
        echoed.body == sent.body,
        responds::<B, C, E, T>(Ok(echoed), result),
    ensures
        result is Ok,
        result->Ok_0.body == rewritten.body,
        result->Ok_0.head() == echoed.head(),
{
}

/// Two calls on adapters with the same target, such as an adapter and its
/// clone, share nothing but that target: each order carries its own request,
/// whichever call was started first.
pub proof fn lemma_calls_share_only_the_target<A, B>(
    first: Proxier<A>,
    second: Proxier<A>,
    request_a: Request<B>,
    request_b: Request<B>,
    order_a: Rewrite<'_, B>,
    order_b: Rewrite<'_, B>,
)
    requires
        second.target_name() == first.target_name(),
        second.target_port() == first.target_port(),
        first.orders(request_a, order_a),
        second.orders(request_b, order_b),
    ensures
        order_a.request.head() == request_a.head() && order_a.request.body == request_a.body,
        order_b.request.head() == request_b.head() && order_b.request.body == request_b.body,
        order_a.name@ == order_b.name@,
        port_chars(order_a.port) == port_chars(order_b.port),
{
}

} // verus!
