//! Envelopes: what travels through a service's mailbox, and what the
//! service is to do once it has handled one.
use vstd::prelude::*;
use crate::msg::{ErrorAction, Message};

verus! {

/// What the processing loop of a service does after it has handled an
/// envelope. `F` is the type of a future the loop is asked to await.
#[derive(Debug, PartialEq, Eq)]
pub enum ServiceAction<F> {
    /// Stop the service.
    Stop,
    /// Go on with the next message.
    Continue,
    /// Await the future on the processing loop before handling anything
    /// else.
    Execute(F),
}

/// A message together with the channel its response goes back on, if the
/// sender is waiting for one.
#[verifier::reject_recursive_types(M)]
pub struct Envelope<M: Message> {
    /// The message itself.
    pub msg: M,
    /// Present if the sender waits for a response.
    pub tx: Option<tokio::sync::oneshot::Sender<M::Response>>,
}

impl<M: Message> Envelope<M> {
    /// Puts a message and its optional reply channel into an envelope.
    pub fn new(msg: M, tx: Option<tokio::sync::oneshot::Sender<M::Response>>) -> (r: Box<Envelope<M>>)
        ensures
            r.msg == msg,
            r.tx == tx,
    {
        Box::new(Envelope { msg, tx })
    }
}

/// Envelope carrying an item received from a stream attached to a service,
/// bound for the service's stream handler.
pub struct StreamEnvelope<M> {
    /// The item received from the stream.
    pub msg: M,
}

impl<M> StreamEnvelope<M> {
    /// Puts a stream item into an envelope.
    pub fn new(msg: M) -> (r: Box<StreamEnvelope<M>>)
        ensures
            r.msg == msg,
    {
        Box::new(StreamEnvelope { msg })
    }
}

/// Envelope carrying an error (such as one from writing to an attached
/// sink), bound for the service's error handler.
pub struct ErrorEnvelope<M> {
    /// The error to handle.
    pub msg: M,
}

impl<M> ErrorEnvelope<M> {
    /// Puts an error into an envelope.
    pub fn new(error: M) -> (r: Box<ErrorEnvelope<M>>)
        ensures
            r.msg == error,
    {
        Box::new(ErrorEnvelope { msg: error })
    }
}

/// Envelope that makes the service stop.
pub struct StopEnvelope;

impl StopEnvelope {
    /// Handling a stop envelope always stops the service.
    pub fn action<F>(&self) -> (a: ServiceAction<F>)
        ensures
            a is Stop,
    {
        ServiceAction::Stop
    }
}

/// What the processing loop does after the service's error handler has
/// answered with `decision`: the loop stops exactly when the handler says
/// so.
pub fn action_after_error<F>(decision: ErrorAction) -> (a: ServiceAction<F>)
    ensures
        decision is Stop <==> a is Stop,
        decision is Continue <==> a is Continue,
{
    match decision {
        ErrorAction::Continue => ServiceAction::Continue,
        ErrorAction::Stop => ServiceAction::Stop,
    }
}

/// What the processing loop does after the response to a message has been
/// dealt with. `error_decision` is the answer of the service's error
/// handler when the response was an error handed to it, and `None` when no
/// error was handled.
pub open spec fn response_action<F>(error_decision: Option<ErrorAction>) -> ServiceAction<F> {
    match error_decision {
        Some(ErrorAction::Stop) => ServiceAction::Stop,
        _ => ServiceAction::Continue,
    }
}

/// Decides what the processing loop does after a response: the service
/// stops exactly when the response was an error and the error handler
/// answered [`ErrorAction::Stop`]; otherwise it goes on.
pub fn action_after_response<F>(error_decision: Option<ErrorAction>) -> (a: ServiceAction<F>)
    ensures
        a == response_action::<F>(error_decision),
{
    match error_decision {
        Some(decision) => action_after_error(decision),
        None => ServiceAction::Continue,
    }
}

} // verus!
