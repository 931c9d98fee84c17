//! Messages and the ways a handler can respond to one.
//!
//! A message names the type of its response. A handler answers with one of
//! several response kinds: a value at once ([`Mr`], [`MessageResponse`], or
//! the unit response), a future whose value is the answer ([`Fr`]), an
//! optional response, or a result whose error half goes to the service's
//! error handler. Whatever the kind, the answer ends up in [`reply`], which
//! hands it to whoever is waiting for it.
use vstd::prelude::*;
use vstd::future::FutureAdditionalSpecFns;
use crate::channel::{ready_future, reply_send};

verus! {

/// Implemented by values that can be sent to services as messages.
pub trait Message: Send + 'static {
    /// The type of the response that handlers produce for this message.
    type Response: Send + 'static;
}

/// Actions that can be taken after a service has handled an error.
#[derive(Debug, Clone, Copy, PartialEq, Eq, Structural)]
pub enum ErrorAction {
    /// Continue processing messages.
    Continue,
    /// Stop processing messages.
    Stop,
}

/// What became of a response that was to be sent back to a caller.
#[derive(Debug, PartialEq, Eq)]
pub enum Delivery<R> {
    /// Nobody asked for the response (the message was sent without waiting
    /// for one), so nothing was sent and the response was dropped.
    Unrequested,
    /// The response was handed to the waiting caller.
    Delivered,
    /// The caller stopped waiting; the response comes back unsent.
    Refused(R),
}

/// How the outcome of handing a response to a reply channel is reported:
/// no channel means nobody asked, success means delivered, and a value that
/// came back means the caller had gone.
pub fn delivery_of<R>(sent: Option<Result<(), R>>) -> (d: Delivery<R>)
    ensures
        sent is None ==> d == Delivery::<R>::Unrequested,
        sent matches Some(Ok(_)) ==> d == Delivery::<R>::Delivered,
        sent matches Some(Err(v)) ==> d == Delivery::<R>::Refused(v),
{
    match sent {
        None => Delivery::Unrequested,
        Some(Ok(())) => Delivery::Delivered,
        Some(Err(v)) => Delivery::Refused(v),
    }
}

/// Sends `value` back to the caller waiting on `tx`, if there is one.
///
/// Without a reply channel nothing is sent. With one, `value` itself is
/// handed to it: either it is delivered, or the caller has gone and the
/// very same value comes back.
pub fn reply<R>(tx: Option<tokio::sync::oneshot::Sender<R>>, value: R) -> (d: Delivery<R>)
    ensures
        tx is None <==> d is Unrequested,
        d matches Delivery::Refused(v) ==> v == value,
{
    match tx {
        None => delivery_of(None),
        Some(tx) => {
            let sent = reply_send(tx, value);
            delivery_of(Some(sent))
        },
    }
}

/// Response that a handler gives directly, as a value ready at once.
pub struct Mr<M: Message>(pub M::Response);

impl<M: Message> Mr<M> {
    /// Sends the wrapped value to the caller waiting on `tx`, if any.
    pub fn respond(self, tx: Option<tokio::sync::oneshot::Sender<M::Response>>) -> (d: Delivery<M::Response>)
        ensures
            tx is None <==> d is Unrequested,
            d matches Delivery::Refused(v) ==> v == self.0,
    {
        reply(tx, self.0)
    }
}

/// Response type from a handler which returns the response value itself.
pub struct MessageResponse<R>(pub R);

impl<R> MessageResponse<R> {
    /// Sends the wrapped value to the caller waiting on `tx`, if any.
    pub fn respond(self, tx: Option<tokio::sync::oneshot::Sender<R>>) -> (d: Delivery<R>)
        ensures
            tx is None <==> d is Unrequested,
            d matches Delivery::Refused(v) ==> v == self.0,
    {
        reply(tx, self.0)
    }
}

/// The unit response: the handler has nothing to say, and a waiting caller
/// is told so with `()`.
pub fn respond_unit(tx: Option<tokio::sync::oneshot::Sender<()>>) -> (d: Delivery<()>)
    ensures
        tx is None <==> d is Unrequested,
        d is Refused ==> d == Delivery::<()>::Refused(()),
{
    reply(tx, ())
}

/// Where a composite response goes.
#[derive(Debug, PartialEq, Eq)]
pub enum Route<R, E> {
    /// The inner response answers the caller.
    Respond(R),
    /// The error goes to the service's error handler; the caller gets no
    /// response.
    Report(E),
    /// There is nothing to answer; the caller gets no response.
    Silent,
}

/// An optional response answers the caller when there is one and is
/// silent otherwise.
pub fn route_option<R, E>(response: Option<R>) -> (r: Route<R, E>)
    ensures
        response matches Some(v) ==> r == Route::<R, E>::Respond(v),
        response is None ==> r == Route::<R, E>::Silent,
{
    match response {
        Some(v) => Route::Respond(v),
        None => Route::Silent,
    }
}

/// A result response answers the caller with its success half and hands
/// its error half to the service's error handler.
pub fn route_result<R, E>(response: Result<R, E>) -> (r: Route<R, E>)
    ensures
        response matches Ok(v) ==> r == Route::<R, E>::Respond(v),
        response matches Err(e) ==> r == Route::<R, E>::Report(e),
{
    match response {
        Ok(v) => Route::Respond(v),
        Err(e) => Route::Report(e),
    }
}

/// Response whose value is produced by a future. The future runs in a task
/// of its own, apart from the service, and its output is the answer.
pub struct Fr<F> {
    /// The future whose output is the response.
    pub future: F,
}

impl<F> Fr<F> {
    /// A future response from the given future.
    pub fn new(future: F) -> (r: Fr<F>)
        ensures
            r.future == future,
    {
        Fr { future }
    }

    /// A future response from a future that has not been boxed yet; it is
    /// boxed when it is spawned.
    pub fn new_box(future: F) -> (r: Fr<F>)
        ensures
            r.future == future,
    {
        Fr { future }
    }

    /// The future whose output answers the caller.
    pub fn into_future(self) -> (f: F)
        ensures
            f == self.future,
    {
        self.future
    }
}

/// Another name for [`Fr`].
pub type FutureResponse<F> = Fr<F>;

impl<R> Fr<std::future::Ready<R>> {
    /// A future response whose value is already known: its future yields
    /// `value`.
    pub fn ready(value: R) -> (r: Fr<std::future::Ready<R>>)
        ensures
            r.future@ == value,
    {
        Fr { future: ready_future(value) }
    }
}

} // verus!
