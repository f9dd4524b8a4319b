//! The adapter and the steps of one call through it.

use vstd::prelude::*;
use crate::error::ProxyError;
use crate::message::{Request, Response};

verus! {

/// What a port selector stands for in contracts: its characters, if there is
/// one.
pub open spec fn port_chars(port: Option<&str>) -> Option<Seq<char>> {
    match port {
        Some(p) => Some(p@),
        None => None,
    }
}

/// Forwards requests to the proxy endpoint of one named resource.
///
/// It holds the handle that knows how such a resource is addressed, the
/// resource's name and, optionally, a port. Name and port are fixed when the
/// adapter is made; another target takes another adapter.
pub struct Proxier<A> {
    api: A,
    name: String,
    port: Option<String>,
}

/// Whether an adapter can take a call.
#[derive(Debug, PartialEq, Eq)]
pub enum Readiness<E> {
    /// The adapter has answered, with or without a failure.
    Ready(Result<(), E>),
    /// The caller has to wait and ask again.
    Pending,
}

/// The first step of a call: what the resource handle is asked to rewrite,
/// and for which target.
#[derive(Debug, PartialEq, Eq)]
pub struct Rewrite<'a, B> {
    pub name: &'a str,
    pub port: Option<&'a str>,
    pub request: Request<B>,
}

impl<A> Proxier<A> {
    /// The handle that the adapter was made with.
    pub closed spec fn handle(&self) -> A {
        self.api
    }

    /// The characters of the target's name.
    pub closed spec fn target_name(&self) -> Seq<char> {
        self.name@
    }

    /// The characters of the port selector, if there is one.
    pub closed spec fn target_port(&self) -> Option<Seq<char>> {
        match self.port {
            Some(p) => Some(p@),
            None => None,
        }
    }

    /// The adapter names a target: its name is not empty.
    pub open spec fn wf(&self) -> bool {
        self.target_name().len() > 0
    }

    /// `order` asks for `request` to be rewritten for this adapter's target.
    pub open spec fn orders<B>(&self, request: Request<B>, order: Rewrite<'_, B>) -> bool {
        &&& order.name@ == self.target_name()
        &&& port_chars(order.port) == self.target_port()
        &&& order.request.head() == request.head()
        &&& order.request.body == request.body
    }

    /// Makes the adapter for the resource `name` and the port `port`, on a
    /// handle that is already bound to the resource's kind and namespace.
    pub fn new(api: A, name: &str, port: Option<&str>) -> (p: Self)
        requires
            name@.len() > 0,
        ensures
            p.wf(),
            p.handle() == api,
            p.target_name() == name@,
            p.target_port() == port_chars(port),
    {
        let port = match port {
            Some(s) => Some(s.to_owned()),
            None => None,
        };
        Proxier { api, name: name.to_owned(), port }
    }

    /// The handle, for the code that carries out the steps of a call.
    pub fn api(&self) -> (a: &A)
        ensures
            *a == self.handle(),
    {
        &self.api
    }

    /// The adapter can take a call at once, whatever happened before: it
    /// holds nothing that a call would have to wait for.
    pub fn poll_ready<E>(&self) -> (r: Readiness<E>)
        ensures
            r == Readiness::<E>::Ready(Ok(())),
    {
        Readiness::Ready(Ok(()))
    }

    /// Starts a call: names the target for which the handle has to rewrite
    /// `request`. The adapter keeps nothing of the call.
    pub fn call<B>(&self, request: Request<B>) -> (order: Rewrite<'_, B>)
        ensures
            self.orders(request, order),
    {
        let port = match &self.port {
            Some(p) => Some(p.as_str()),
            None => None,
        };
        Rewrite { name: self.name.as_str(), port, request }
    }
}

impl<A: Clone> Clone for Proxier<A> {
    /// A clone shares the handle's clone and has the same target.
    fn clone(&self) -> (c: Self)
        ensures
            call_ensures(A::clone, (&self.handle(),), c.handle()),
            c.target_name() == self.target_name(),
            c.target_port() == self.target_port(),
    {
        let port = match &self.port {
            Some(p) => Some(p.clone()),
            None => None,
        };
        Proxier { api: self.api.clone(), name: self.name.clone(), port }
    }
}

/// `next` is what follows the handle's answer `rewritten`: its failure, handed
/// on as a request-construction failure with nothing to send, or the request
/// as the handle rewrote it, with the body in the client's form.
pub open spec fn dispatches<B, C: From<B>, E, T>(
    rewritten: Result<Request<B>, E>,
    next: Result<Request<C>, ProxyError<E, T>>,
) -> bool {
    match rewritten {
        Ok(request) => next is Ok && request.reshaped_as(next->Ok_0),
        Err(e) => next == Err::<Request<C>, ProxyError<E, T>>(ProxyError::BuildRequest(e)),
    }
}

/// `result` is what the caller gets for the client's answer `outcome`: its
/// failure, handed on unchanged as a transport failure, or its response with
/// the body in the caller's form.
pub open spec fn responds<B: From<C>, C, E, T>(
    outcome: Result<Response<C>, T>,
    result: Result<Response<B>, ProxyError<E, T>>,
) -> bool {
    match outcome {
        Ok(response) => result is Ok && response.reshaped_as(result->Ok_0),
        Err(t) => result == Err::<Response<B>, ProxyError<E, T>>(ProxyError::Transport(t)),
    }
}

/// The second step of a call, on the handle's answer. A failure ends the call
/// before anything is sent; otherwise the result is the request for the
/// client.
pub fn dispatch<B, C: From<B>, E, T>(rewritten: Result<Request<B>, E>) -> (next: Result<
    Request<C>,
    ProxyError<E, T>,
>)
    ensures
        dispatches(rewritten, next),
{
    match rewritten {
        Ok(request) => Ok(request.convert_body()),
        Err(e) => Err(ProxyError::BuildRequest(e)),
    }
}

/// The last step of a call, on the client's answer. The status is not looked
/// at: any response is a success.
pub fn respond<B: From<C>, C, E, T>(outcome: Result<Response<C>, T>) -> (result: Result<
    Response<B>,
    ProxyError<E, T>,
>)
    ensures
        responds(outcome, result),
{
    match outcome {
        Ok(response) => Ok(response.convert_body()),
        Err(t) => Err(ProxyError::Transport(t)),
    }
}

} // verus!
