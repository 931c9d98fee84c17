//! Sinks attached to a service.
//!
//! A sink service owns a sink and a mailbox of its own, reached through a
//! [`SinkLink`]. It takes the requests in its mailbox in order: write an
//! item at once, feed an item to be written on the next flush, flush, or
//! stop. When the sink reports an error, the error goes to the error handler
//! of the service the sink is attached to; if that service no longer accepts
//! messages, the sink service ends.
use vstd::prelude::*;
use crate::channel::new_mailbox;
use crate::link::{send_outcome, Link, LinkResult};

verus! {

/// The requests a sink service receives.
#[derive(Debug, PartialEq, Eq)]
pub enum SinkMessage<I> {
    /// Write an item at once.
    Send(I),
    /// Feed an item, to be written when the sink is flushed.
    Feed(I),
    /// Flush the items fed so far.
    Flush,
    /// Stop processing requests, dropping the sink.
    Stop,
}

/// Link to a sink service. Cheap to clone.
#[verifier::reject_recursive_types(I)]
pub struct SinkLink<I>(Link<SinkMessage<I>>);

impl<I> SinkLink<I> {
    /// Asks for `item` to be written as soon as the requests before it are
    /// done; no flush is needed. Fails with [`LinkError::Send`] only, when
    /// the sink service has ended.
    ///
    /// [`LinkError::Send`]: crate::link::LinkError::Send
    pub fn sink(&self, item: I) -> (r: LinkResult<()>)
        ensures
            r is Ok || r == Err::<(), crate::link::LinkError>(crate::link::LinkError::Send),
    {
        send_outcome(self.try_sink(item))
    }

    /// Puts the request `SinkMessage::Send(item)` into the sink service's mailbox; if the
    /// sink service has ended, exactly that request comes back.
    pub fn try_sink(&self, item: I) -> (r: Result<(), SinkMessage<I>>)
        ensures
            r matches Err(m) ==> m == SinkMessage::Send(item),
    {
        self.0.try_tx(SinkMessage::Send(item))
    }

    /// Feeds `item` to the sink; it is written on the next flush. Fails with
    /// [`LinkError::Send`] only, when the sink service has ended.
    ///
    /// [`LinkError::Send`]: crate::link::LinkError::Send
    pub fn feed(&self, item: I) -> (r: LinkResult<()>)
        ensures
            r is Ok || r == Err::<(), crate::link::LinkError>(crate::link::LinkError::Send),
    {
        send_outcome(self.try_feed(item))
    }

    /// Puts the request `SinkMessage::Feed(item)` into the sink service's mailbox; if the
    /// sink service has ended, exactly that request comes back.
    pub fn try_feed(&self, item: I) -> (r: Result<(), SinkMessage<I>>)
        ensures
            r matches Err(m) ==> m == SinkMessage::Feed(item),
    {
        self.0.try_tx(SinkMessage::Feed(item))
    }

    /// Asks the sink service to flush the items fed so far. Fails with
    /// [`LinkError::Send`] only, when the sink service has ended.
    ///
    /// [`LinkError::Send`]: crate::link::LinkError::Send
    pub fn flush(&self) -> (r: LinkResult<()>)
        ensures
            r is Ok || r == Err::<(), crate::link::LinkError>(crate::link::LinkError::Send),
    {
        send_outcome(self.try_flush())
    }

    /// Puts the request `SinkMessage::Flush` into the sink service's mailbox; if the
    /// sink service has ended, exactly that request comes back.
    pub fn try_flush(&self) -> (r: Result<(), SinkMessage<I>>)
        ensures
            r matches Err(m) ==> m == SinkMessage::<I>::Flush,
    {
        self.0.try_tx(SinkMessage::Flush)
    }

    /// Asks the sink service to stop and drop its sink; requests after this
    /// one are not carried out. Fails with [`LinkError::Send`] only, when
    /// the sink service has ended.
    ///
    /// [`LinkError::Send`]: crate::link::LinkError::Send
    pub fn stop(&self) -> (r: LinkResult<()>)
        ensures
            r is Ok || r == Err::<(), crate::link::LinkError>(crate::link::LinkError::Send),
    {
        send_outcome(self.try_stop())
    }

    /// Puts the request `SinkMessage::Stop` into the sink service's mailbox; if the
    /// sink service has ended, exactly that request comes back.
    pub fn try_stop(&self) -> (r: Result<(), SinkMessage<I>>)
        ensures
            r matches Err(m) ==> m == SinkMessage::<I>::Stop,
    {
        self.0.try_tx(SinkMessage::Stop)
    }
}

impl<I> Clone for SinkLink<I> {
    fn clone(&self) -> (r: Self)
        ensures
            r == *self,
    {
        SinkLink(self.0.duplicate())
    }
}

/// Service writing to `sink` on behalf of the service behind `link`, whose
/// mailbox carries values of type `T`.
#[verifier::reject_recursive_types(T)]
#[verifier::reject_recursive_types(I)]
pub struct SinkService<T, Si, I> {
    /// The sink written to.
    pub sink: Si,
    /// Link to the service whose error handler hears of sink errors.
    pub link: Link<T>,
    /// The sink service's own mailbox.
    pub rx: tokio::sync::mpsc::UnboundedReceiver<SinkMessage<I>>,
}

impl<T, Si, I> SinkService<T, Si, I> {
    /// A sink service for `sink`, reporting errors through `link`, together
    /// with the link to the new sink service's own mailbox.
    pub fn new(sink: Si, link: Link<T>) -> (r: (SinkService<T, Si, I>, SinkLink<I>))
        ensures
            r.0.sink == sink,
            r.0.link == link,
    {
        let (tx, rx) = new_mailbox();
        let sink_link = SinkLink(Link::from_sender(tx));
        (SinkService { sink, link, rx }, sink_link)
    }

    /// Reports a sink error, in an envelope for the linked service's error
    /// handler, and tells whether to go on. The answer depends on whether
    /// that service still accepts messages, which another task decides.
    pub fn report(&self, envelope: T) -> (r: bool) {
        let reported = self.link.tx(envelope);
        keep_writing(reported)
    }
}

/// What the sink service does with a request.
#[derive(Debug, PartialEq, Eq)]
pub enum SinkCommand<I> {
    /// Write the item to the sink at once (send and flush).
    Write(I),
    /// Feed the item to the sink.
    Feed(I),
    /// Flush the sink.
    Flush,
    /// End the sink service.
    Finish,
}

/// The decision of the sink service on receiving `msg` from its mailbox
/// (`None` once the mailbox is closed and empty).
pub open spec fn sink_command_spec<I>(msg: Option<SinkMessage<I>>) -> SinkCommand<I> {
    match msg {
        None => SinkCommand::Finish,
        Some(SinkMessage::Send(item)) => SinkCommand::Write(item),
        Some(SinkMessage::Feed(item)) => SinkCommand::Feed(item),
        Some(SinkMessage::Flush) => SinkCommand::Flush,
        Some(SinkMessage::Stop) => SinkCommand::Finish,
    }
}

/// Decides what to do with a request: items are written or fed as they
/// come, flushes flush, and a stop request, like a closed and drained
/// mailbox, ends the service.
pub fn sink_command<I>(msg: Option<SinkMessage<I>>) -> (c: SinkCommand<I>)
    ensures
        c == sink_command_spec(msg),
{
    match msg {
        None => SinkCommand::Finish,
        Some(m) => match m {
            SinkMessage::Send(item) => SinkCommand::Write(item),
            SinkMessage::Feed(item) => SinkCommand::Feed(item),
            SinkMessage::Flush => SinkCommand::Flush,
            SinkMessage::Stop => SinkCommand::Finish,
        },
    }
}

/// What follows an operation on the sink.
#[derive(Debug, PartialEq, Eq)]
pub enum AfterWrite<E> {
    /// Go on with the next request.
    Next,
    /// Report this error to the linked service.
    Report(E),
}

/// A successful sink operation goes on with the next request; a failed one
/// has its error reported.
pub fn after_write<E>(result: Result<(), E>) -> (a: AfterWrite<E>)
    ensures
        result is Ok ==> a == AfterWrite::<E>::Next,
        result matches Err(e) ==> a == AfterWrite::<E>::Report(e),
{
    match result {
        Ok(()) => AfterWrite::Next,
        Err(e) => AfterWrite::Report(e),
    }
}

/// Whether to go on after reporting an error: only while the linked
/// service accepts messages.
pub fn keep_writing(reported: LinkResult<()>) -> (r: bool)
    ensures
        r == reported is Ok,
{
    reported.is_ok()
}

/// How many requests a sink service takes from its mailbox, given the
/// requests in order, whether each sink operation succeeded, and whether
/// each error report was accepted; after the last request the mailbox is
/// closed and empty.
pub open spec fn sink_run<I>(msgs: Seq<SinkMessage<I>>, written: Seq<bool>, reported: Seq<bool>) -> nat
    decreases msgs.len(),
{
    if msgs.len() == 0 {
        0
    } else {
        match sink_command_spec(Some(msgs[0])) {
            SinkCommand::Finish => 1,
            _ => if written[0] || reported[0] {
                1 + sink_run(msgs.drop_first(), written.drop_first(), reported.drop_first())
            } else {
                1
            },
        }
    }
}

/// Whether the sink service ends at request `i`: a stop request, or a
/// failed operation whose error could not be reported.
pub open spec fn ends_at<I>(msgs: Seq<SinkMessage<I>>, written: Seq<bool>, reported: Seq<bool>, i: int) -> bool {
    msgs[i] is Stop || (!written[i] && !reported[i])
}

/// The sink service carries out requests in order up to the first one it
/// ends at, and that one is the last it takes: in particular nothing asked
/// after a stop is carried out.
pub proof fn law_sink_ends_at_first_halt<I>(
    msgs: Seq<SinkMessage<I>>,
    written: Seq<bool>,
    reported: Seq<bool>,
    i: int,
)
    requires
        0 <= i < msgs.len(),
        written.len() == msgs.len(),
        reported.len() == msgs.len(),
        ends_at(msgs, written, reported, i),
        forall|j: int| 0 <= j < i ==> !#[trigger] ends_at(msgs, written, reported, j),
    ensures
        sink_run(msgs, written, reported) == i + 1,
    decreases i,
{
    if i > 0 {
        let (m, w, r) = (msgs.drop_first(), written.drop_first(), reported.drop_first());
        assert forall|j: int| 0 <= j < i - 1 implies !#[trigger] ends_at(m, w, r, j) by {
            assert(!ends_at(msgs, written, reported, j + 1));
        }
        assert(!ends_at(msgs, written, reported, 0));
        assert(ends_at(m, w, r, i - 1));
        law_sink_ends_at_first_halt(m, w, r, i - 1);
    }
}

/// Without a stop request and with every error either absent or reported,
/// the sink service carries out every request until its mailbox is closed
/// and drained.
pub proof fn law_sink_drains_mailbox<I>(msgs: Seq<SinkMessage<I>>, written: Seq<bool>, reported: Seq<bool>)
    requires
        written.len() == msgs.len(),
        reported.len() == msgs.len(),
        forall|j: int| 0 <= j < msgs.len() ==> !#[trigger] ends_at(msgs, written, reported, j),
    ensures
        sink_run(msgs, written, reported) == msgs.len(),
    decreases msgs.len(),
{
    if msgs.len() > 0 {
        let (m, w, r) = (msgs.drop_first(), written.drop_first(), reported.drop_first());
        assert forall|j: int| 0 <= j < m.len() implies !#[trigger] ends_at(m, w, r, j) by {
            assert(!ends_at(msgs, written, reported, j + 1));
        }
        assert(!ends_at(msgs, written, reported, 0));
        law_sink_drains_mailbox(m, w, r);
    }
}

/// The items that requests carry, in order: those of write and feed
/// requests.
pub open spec fn request_items<I>(msgs: Seq<SinkMessage<I>>) -> Seq<I>
    decreases msgs.len(),
{
    if msgs.len() == 0 {
        Seq::empty()
    } else {
        let rest = request_items(msgs.drop_first());
        match msgs[0] {
            SinkMessage::Send(item) => seq![item] + rest,
            SinkMessage::Feed(item) => seq![item] + rest,
            _ => rest,
        }
    }
}

/// The items a sink service hands to its sink, written or fed, in the order
/// it hands them over, for the same run as [`sink_run`].
pub open spec fn sink_run_items<I>(msgs: Seq<SinkMessage<I>>, written: Seq<bool>, reported: Seq<bool>) -> Seq<I>
    decreases msgs.len(),
{
    if msgs.len() == 0 {
        Seq::empty()
    } else {
        let this: Seq<I> = match sink_command_spec(Some(msgs[0])) {
            SinkCommand::Write(item) => seq![item],
            SinkCommand::Feed(item) => seq![item],
            _ => Seq::empty(),
        };
        match sink_command_spec(Some(msgs[0])) {
            SinkCommand::Finish => this,
            _ => if written[0] || reported[0] {
                this + sink_run_items(msgs.drop_first(), written.drop_first(), reported.drop_first())
            } else {
                this
            },
        }
    }
}

proof fn lemma_sink_run_bounded<I>(msgs: Seq<SinkMessage<I>>, written: Seq<bool>, reported: Seq<bool>)
    ensures
        sink_run(msgs, written, reported) <= msgs.len(),
        msgs.len() > 0 ==> sink_run(msgs, written, reported) >= 1,
    decreases msgs.len(),
{
    if msgs.len() > 0 {
        lemma_sink_run_bounded(msgs.drop_first(), written.drop_first(), reported.drop_first());
    }
}

/// The sink gets exactly the items of the write and feed requests that the
/// sink service takes from its mailbox, in mailbox order: none is left out,
/// repeated or moved, and none from a request it did not take.
pub proof fn law_sink_items_in_mailbox_order<I>(msgs: Seq<SinkMessage<I>>, written: Seq<bool>, reported: Seq<bool>)
    ensures
        sink_run_items(msgs, written, reported) == request_items(
            msgs.take(sink_run(msgs, written, reported) as int),
        ),
    decreases msgs.len(),
{
    reveal_with_fuel(request_items, 2);
    if msgs.len() == 0 {
        assert(msgs.take(0) =~= Seq::<SinkMessage<I>>::empty());
    } else {
        let (m, w, r) = (msgs.drop_first(), written.drop_first(), reported.drop_first());
        lemma_sink_run_bounded(msgs, written, reported);
        lemma_sink_run_bounded(m, w, r);
        let n = sink_run(msgs, written, reported) as int;
        let taken = msgs.take(n);
        assert(n >= 1);
        assert(taken[0] == msgs[0]);
        match sink_command_spec(Some(msgs[0])) {
            SinkCommand::Finish => {
                assert(taken.drop_first() =~= Seq::<SinkMessage<I>>::empty());
            },
            _ => {
                if written[0] || reported[0] {
                    law_sink_items_in_mailbox_order(m, w, r);
                    assert(taken.drop_first() =~= m.take(n - 1));
                } else {
                    assert(taken.drop_first() =~= Seq::<SinkMessage<I>>::empty());
                }
            },
        }
        assert(sink_run_items(msgs, written, reported) =~= request_items(taken));
    }
}

} // verus!
