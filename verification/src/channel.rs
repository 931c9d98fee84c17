//! The channels that services communicate through.
//!
//! Mailboxes are tokio's unbounded multi-producer channels and replies
//! travel over tokio's oneshot channels. The channel types are declared
//! here so that the library's own types can hold them, and each call into
//! tokio that the library makes sits behind one small wrapper whose
//! contract states what tokio documents for it.
use vstd::prelude::*;
use vstd::future::FutureAdditionalSpecFns;

verus! {

/// The sending half of a service mailbox (tokio's unbounded channel).
#[verifier::external_type_specification]
#[verifier::external_body]
#[verifier::reject_recursive_types(T)]
pub struct ExUnboundedSender<T>(tokio::sync::mpsc::UnboundedSender<T>);

/// The receiving half of a service mailbox.
#[verifier::external_type_specification]
#[verifier::external_body]
#[verifier::reject_recursive_types(T)]
pub struct ExUnboundedReceiver<T>(tokio::sync::mpsc::UnboundedReceiver<T>);

/// The sending half of the oneshot channel that carries a reply.
#[verifier::external_type_specification]
#[verifier::external_body]
#[verifier::reject_recursive_types(T)]
pub struct ExOneshotSender<T>(tokio::sync::oneshot::Sender<T>);

/// The error that awaiting a oneshot receiver yields when the sending half
/// was dropped without a value being sent.
#[verifier::external_type_specification]
#[verifier::external_body]
pub struct ExOneshotRecvError(tokio::sync::oneshot::error::RecvError);

/// A future that is ready with a value from the start (`std::future::Ready`).
#[verifier::external_type_specification]
#[verifier::external_body]
#[verifier::reject_recursive_types(T)]
pub struct ExReady<T>(std::future::Ready<T>);

/// Calls `tokio::sync::mpsc::unbounded_channel`, which creates a new, open
/// channel and returns its two halves. Nothing is claimed of the halves.
#[verifier::external_body]
pub(crate) fn new_mailbox<T>() -> (tokio::sync::mpsc::UnboundedSender<T>, tokio::sync::mpsc::UnboundedReceiver<T>) {
    tokio::sync::mpsc::unbounded_channel()
}

/// Calls `UnboundedSender::send`. tokio documents that the call fails when the
/// receiving half has been closed or dropped, and that the error then carries
/// the value that was passed in; the claim is that an `Err` holds exactly
/// `value`. Whether the call succeeds depends on the receiving half, which
/// another task may close at any moment, so it is not stated. (tokio aborts
/// the process if the number of queued messages would overflow a `usize`.)
#[verifier::external_body]
pub(crate) fn mailbox_send<T>(tx: &tokio::sync::mpsc::UnboundedSender<T>, value: T) -> (r: Result<(), T>)
    ensures
        r matches Err(v) ==> v == value,
{
    match tx.send(value) {
        Ok(()) => Ok(()),
        Err(e) => Err(e.0),
    }
}

/// Calls `Clone::clone` on an `UnboundedSender`. A sender holds nothing but a
/// shared pointer to its channel, and the clone holds the same pointer (the
/// count of senders that it raises lives in the channel itself); the claim
/// is that the clone is the same value as `tx`.
#[verifier::external_body]
pub(crate) fn mailbox_sender_clone<T>(tx: &tokio::sync::mpsc::UnboundedSender<T>) -> (r: tokio::sync::mpsc::UnboundedSender<T>)
    ensures
        r == *tx,
{
    tx.clone()
}

/// Calls `UnboundedReceiver::close`, which stops the channel from accepting
/// further messages while leaving buffered ones to be received. The effect
/// lives in state shared with the senders and is not stated.
#[verifier::external_body]
pub(crate) fn mailbox_close<T>(rx: &mut tokio::sync::mpsc::UnboundedReceiver<T>) {
    rx.close()
}

/// Calls `tokio::sync::oneshot::Sender::send`. tokio documents that when the
/// receiving half has been dropped the value is handed back in the `Err`; the
/// claim is that an `Err` holds exactly `value`. Whether the receiver is still
/// there depends on another task and is not stated.
#[verifier::external_body]
pub(crate) fn reply_send<T>(tx: tokio::sync::oneshot::Sender<T>, value: T) -> (r: Result<(), T>)
    ensures
        r matches Err(v) ==> v == value,
{
    tx.send(value)
}

/// Calls `std::future::ready`, which makes a future that is immediately ready
/// with `value`; the claim is that the future's output (its view) is `value`.
#[verifier::external_body]
pub(crate) fn ready_future<T>(value: T) -> (r: std::future::Ready<T>)
    ensures
        r@ == value,
{
    std::future::ready(value)
}

} // verus!
