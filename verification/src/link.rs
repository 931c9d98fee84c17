//! Links: the handles through which messages reach a service.
//!
//! A link is the sending half of a service's mailbox. Sending never waits;
//! it fails only when the service's mailbox no longer accepts messages.
use vstd::prelude::*;
use crate::channel::{mailbox_send, mailbox_sender_clone};

verus! {

/// Errors that can occur while working with a link.
#[derive(Debug, Clone, Copy, PartialEq, Eq, Structural)]
pub enum LinkError {
    /// The service's mailbox did not accept the message.
    Send,
    /// No response came back from the service.
    Recv,
}

/// Result of an operation on a link.
pub type LinkResult<T> = Result<T, LinkError>;

/// Kinds of mail that can tell their receiver to stop.
///
/// A link needs one such message to implement [`Link::stop`].
pub trait StopSignal: Sized {
    /// The message that makes the receiving service stop.
    fn stop_signal() -> Self;
}

/// A link to a service whose mailbox carries values of type `T`.
///
/// Links are cheap to clone, and every clone reaches the same mailbox.
#[verifier::reject_recursive_types(T)]
pub struct Link<T> {
    sender: tokio::sync::mpsc::UnboundedSender<T>,
}

/// How the outcome of putting a value into a mailbox is reported to the
/// caller: success stays success, and a refused value becomes
/// [`LinkError::Send`].
pub fn send_outcome<T>(sent: Result<(), T>) -> (r: LinkResult<()>)
    ensures
        sent is Ok ==> r == Ok::<(), LinkError>(()),
        sent is Err ==> r == Err::<(), LinkError>(LinkError::Send),
{
    match sent {
        Ok(()) => Ok(()),
        Err(_) => Err(LinkError::Send),
    }
}

/// How the outcome of awaiting a reply is reported to the caller: a reply
/// is handed through, and a reply channel that was dropped without an
/// answer becomes [`LinkError::Recv`].
pub fn reply_outcome<R>(received: Result<R, tokio::sync::oneshot::error::RecvError>) -> (r: LinkResult<R>)
    ensures
        received matches Ok(v) ==> r == Ok::<R, LinkError>(v),
        received is Err ==> r == Err::<R, LinkError>(LinkError::Recv),
{
    match received {
        Ok(v) => Ok(v),
        Err(_) => Err(LinkError::Recv),
    }
}

impl<T> Link<T> {
    /// Wraps the sending half of a mailbox.
    pub fn from_sender(sender: tokio::sync::mpsc::UnboundedSender<T>) -> (r: Link<T>)
        ensures
            r.sender() == sender,
    {
        Link { sender }
    }

    /// The sending half of the mailbox this link reaches.
    pub closed spec fn sender(&self) -> tokio::sync::mpsc::UnboundedSender<T> {
        self.sender
    }

    /// Puts `value` into the service's mailbox.
    ///
    /// The result is `Ok(())` when the mailbox accepted the value and
    /// `Err(LinkError::Send)` when it did not (the service has stopped or
    /// closed its mailbox); no other error can come back.
    pub fn tx(&self, value: T) -> (r: LinkResult<()>)
        ensures
            r is Ok || r == Err::<(), LinkError>(LinkError::Send),
    {
        let sent = self.try_tx(value);
        send_outcome(sent)
    }

    /// Puts `value` into the service's mailbox, handing it back if the
    /// mailbox does not accept it: a refusal returns exactly `value`.
    pub fn try_tx(&self, value: T) -> (r: Result<(), T>)
        ensures
            r matches Err(v) ==> v == value,
    {
        mailbox_send(&self.sender, value)
    }

    /// Another link to the same mailbox: the same value as this one.
    pub fn duplicate(&self) -> (r: Link<T>)
        ensures
            r == *self,
    {
        Link { sender: mailbox_sender_clone(&self.sender) }
    }
}

impl<T: StopSignal> Link<T> {
    /// Tells the service to stop processing messages. Messages already in
    /// its mailbox ahead of the stop signal are still handled; none after
    /// it. A service that has already stopped is left as it is.
    pub fn stop(&self) {
        let _ = self.tx(T::stop_signal());
    }
}

impl<T> Clone for Link<T> {
    fn clone(&self) -> (r: Self)
        ensures
            r == *self,
    {
        self.duplicate()
    }
}

} // verus!
