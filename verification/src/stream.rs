//! Streams attached to a service.
//!
//! A stream service reads items from a stream and forwards each, in order,
//! to the stream handler of the service it is attached to. It ends when the
//! stream ends, and then optionally stops that service; if the service no
//! longer accepts messages it ends at once, without stopping anything.
use vstd::prelude::*;
use crate::link::{Link, LinkResult, StopSignal};

verus! {

/// Reads the items of `stream` and forwards them through `link`.
#[verifier::reject_recursive_types(T)]
pub struct StreamService<T, St> {
    /// The stream to consume.
    pub stream: St,
    /// Link to the service that handles the items.
    pub link: Link<T>,
    /// Whether to stop that service when the stream ends.
    pub stop: bool,
}

/// What the stream service does with what it read from the stream.
#[derive(Debug, PartialEq, Eq)]
pub enum StreamStep<I> {
    /// Forward this item to the service.
    Forward(I),
    /// The stream has ended: stop the linked service, then end.
    StopLinked,
    /// The stream has ended: end without touching the linked service.
    Finish,
}

/// The decision of the stream service on reading `next` from the stream
/// (`None` once the stream has ended).
pub open spec fn stream_step_spec<I>(stop: bool, next: Option<I>) -> StreamStep<I> {
    match next {
        Some(item) => StreamStep::Forward(item),
        None => if stop {
            StreamStep::StopLinked
        } else {
            StreamStep::Finish
        },
    }
}

/// Decides what to do with what was read from the stream: an item is
/// forwarded, and the end of the stream stops the linked service exactly
/// when `stop` was asked for.
pub fn stream_step<I>(stop: bool, next: Option<I>) -> (s: StreamStep<I>)
    ensures
        s == stream_step_spec(stop, next),
{
    match next {
        Some(item) => StreamStep::Forward(item),
        None => if stop {
            StreamStep::StopLinked
        } else {
            StreamStep::Finish
        },
    }
}

/// Whether to read on after forwarding an item: only while the linked
/// service accepts messages.
pub fn keep_forwarding(sent: LinkResult<()>) -> (r: bool)
    ensures
        r == sent is Ok,
{
    sent.is_ok()
}

impl<T, St> StreamService<T, St> {
    /// A stream service reading `stream` for the service behind `link`.
    pub fn new(stream: St, link: Link<T>, stop: bool) -> (r: StreamService<T, St>)
        ensures
            r.stream == stream,
            r.link == link,
            r.stop == stop,
    {
        StreamService { stream, link, stop }
    }

    /// Forwards an envelope holding a stream item to the linked service and
    /// tells whether to read on. The answer depends on whether the service
    /// still accepts messages, which another task decides.
    pub fn forward(&self, envelope: T) -> (r: bool) {
        let sent = self.link.tx(envelope);
        keep_forwarding(sent)
    }
}

impl<T: StopSignal, St> StreamService<T, St> {
    /// Ends the stream service after its stream has ended: the linked service
    /// is told to stop if and only if that was asked for. Returns whether it
    /// was told.
    pub fn finish(&self) -> (r: bool)
        ensures
            r == self.stop,
    {
        match stream_step::<()>(self.stop, None) {
            StreamStep::StopLinked => {
                self.link.stop();
                true
            },
            _ => false,
        }
    }
}

/// What a stream service does over a whole stream: given the items of the
/// stream and, for each item offered to the service, whether the service
/// accepted it, the number of items offered (a refused item counts, as it
/// was offered) and whether the linked service was told to stop at the end.
pub open spec fn stream_run<I>(stop: bool, items: Seq<I>, sent: Seq<LinkResult<()>>) -> (nat, bool)
    decreases items.len(),
{
    if items.len() == 0 {
        match stream_step_spec(stop, None::<I>) {
            StreamStep::StopLinked => (0, true),
            _ => (0, false),
        }
    } else {
        match stream_step_spec(stop, Some(items[0])) {
            StreamStep::Forward(_) => if sent[0] is Ok {
                let rest = stream_run(stop, items.drop_first(), sent.drop_first());
                (rest.0 + 1, rest.1)
            } else {
                (1, false)
            },
            _ => (0, false),
        }
    }
}

/// When the service accepts every item, all items of the stream are
/// forwarded in order, and the service is stopped at the end exactly when
/// `stop` was asked for.
pub proof fn law_stream_forwards_all<I>(stop: bool, items: Seq<I>, sent: Seq<LinkResult<()>>)
    requires
        sent.len() == items.len(),
        forall|j: int| 0 <= j < sent.len() ==> #[trigger] sent[j] is Ok,
    ensures
        stream_run(stop, items, sent) == (items.len(), stop),
    decreases items.len(),
{
    if items.len() > 0 {
        let rest = sent.drop_first();
        assert forall|j: int| 0 <= j < rest.len() implies #[trigger] rest[j] is Ok by {
            assert(rest[j] == sent[j + 1]);
        }
        assert(sent[0] is Ok);
        law_stream_forwards_all(stop, items.drop_first(), rest);
    }
}

/// When the service refuses the item at position `k` (and accepted all
/// before it), offering ends with that item, and the service is not told
/// to stop, whatever `stop` asked for.
pub proof fn law_stream_ends_on_refusal<I>(stop: bool, items: Seq<I>, sent: Seq<LinkResult<()>>, k: int)
    requires
        0 <= k < items.len(),
        sent.len() == items.len(),
        sent[k] is Err,
        forall|j: int| 0 <= j < k ==> #[trigger] sent[j] is Ok,
    ensures
        stream_run(stop, items, sent) == ((k + 1) as nat, false),
    decreases k,
{
    if k > 0 {
        let rest = sent.drop_first();
        assert forall|j: int| 0 <= j < k - 1 implies #[trigger] rest[j] is Ok by {
            assert(rest[j] == sent[j + 1]);
        }
        assert(sent[0] is Ok);
        assert(rest[k - 1] == sent[k]);
        law_stream_ends_on_refusal(stop, items.drop_first(), rest, k - 1);
    }
}

} // verus!
