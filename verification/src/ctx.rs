//! The context of a running service: its mailbox and the link that reaches
//! it, and the decisions of the loop that processes the mailbox.
//!
//! The processing loop receives one envelope at a time, lets the service
//! handle it, and then does what the resulting [`ServiceAction`] says:
//! stop, go on, or await a future before anything else is handled. When
//! the mailbox is closed and empty the loop ends.
use vstd::prelude::*;
use crate::channel::{mailbox_close, new_mailbox};
use crate::envelope::{response_action, ServiceAction};
use crate::msg::ErrorAction;
use crate::link::Link;

verus! {

/// Backing context of a service: the receiving half of its mailbox and
/// the link it keeps, from which further links are cloned.
#[verifier::reject_recursive_types(T)]
pub struct ServiceContext<T> {
    rx: tokio::sync::mpsc::UnboundedReceiver<T>,
    link: Link<T>,
}

impl<T> ServiceContext<T> {
    /// The link this context hands out copies of.
    pub closed spec fn link_spec(&self) -> Link<T> {
        self.link
    }

    /// The receiving half of the mailbox.
    pub closed spec fn inbox_spec(&self) -> tokio::sync::mpsc::UnboundedReceiver<T> {
        self.rx
    }

    /// Creates a context with a fresh, open mailbox and its first link.
    pub fn new() -> (r: ServiceContext<T>) {
        let (tx, rx) = new_mailbox();
        let link = Link::from_sender(tx);
        ServiceContext { rx, link }
    }

    /// Closes the mailbox: from now on links can no longer put messages
    /// into it, while the messages already in it are still received and
    /// handled until none remain. The context's link is left as it was.
    pub fn stop(&mut self)
        ensures
            final(self).link_spec() == old(self).link_spec(),
    {
        mailbox_close(&mut self.rx)
    }

    /// A new link to this service: a copy of the link the context keeps.
    pub fn link(&self) -> (r: Link<T>)
        ensures
            r == self.link_spec(),
    {
        self.link.duplicate()
    }

    /// The link this context keeps, for use without cloning it.
    pub fn shared_link(&self) -> (r: &Link<T>)
        ensures
            *r == self.link_spec(),
    {
        &self.link
    }

    /// The receiving half of the mailbox, for the processing loop to
    /// receive from. The context's link is not touched.
    pub fn inbox(&mut self) -> (r: &mut tokio::sync::mpsc::UnboundedReceiver<T>)
        ensures
            *r == old(self).inbox_spec(),
            final(self).inbox_spec() == *final(r),
            final(self).link_spec() == old(self).link_spec(),
    {
        &mut self.rx
    }
}

/// What the processing loop does next.
#[derive(Debug, PartialEq, Eq)]
pub enum LoopStep<F> {
    /// Leave the loop; the service stops.
    Finish,
    /// Receive the next envelope.
    Next,
    /// Await this future, then receive the next envelope.
    Await(F),
}

/// The decision of the processing loop, given what receiving from the
/// mailbox produced: nothing, because the mailbox is closed and drained,
/// or an envelope whose handling led to the given action.
pub open spec fn loop_step<F>(received: Option<ServiceAction<F>>) -> LoopStep<F> {
    match received {
        None => LoopStep::Finish,
        Some(ServiceAction::Stop) => LoopStep::Finish,
        Some(ServiceAction::Continue) => LoopStep::Next,
        Some(ServiceAction::Execute(fut)) => LoopStep::Await(fut),
    }
}

/// Decides what the processing loop does after a receive.
///
/// The loop ends when the mailbox is closed and empty or the handled
/// envelope asked to stop; a future to execute is awaited before the next
/// envelope is received, so no other message is handled while it runs.
pub fn next_step<F>(received: Option<ServiceAction<F>>) -> (s: LoopStep<F>)
    ensures
        s == loop_step(received),
{
    match received {
        None => LoopStep::Finish,
        Some(action) => match action {
            ServiceAction::Stop => LoopStep::Finish,
            ServiceAction::Continue => LoopStep::Next,
            ServiceAction::Execute(fut) => LoopStep::Await(fut),
        },
    }
}

/// How many envelopes the processing loop handles when the envelopes it
/// receives, in mailbox order, lead to `actions`, after which the mailbox
/// is closed and empty.
pub open spec fn handled_count<F>(actions: Seq<ServiceAction<F>>) -> nat
    decreases actions.len(),
{
    if actions.len() == 0 {
        0
    } else {
        match loop_step(Some(actions[0])) {
            LoopStep::Finish => 1,
            _ => 1 + handled_count(actions.drop_first()),
        }
    }
}

/// After a stop, nothing more is handled: if the first envelope that asks
/// the service to stop is at position `i` of the mailbox, the loop handles
/// exactly the envelopes up to and including it.
pub proof fn law_stop_is_final<F>(actions: Seq<ServiceAction<F>>, i: int)
    requires
        0 <= i < actions.len(),
        actions[i] is Stop,
        forall|j: int| 0 <= j < i ==> !(#[trigger] actions[j] is Stop),
    ensures
        handled_count(actions) == i + 1,
    decreases i,
{
    if i > 0 {
        let rest = actions.drop_first();
        assert forall|j: int| 0 <= j < i - 1 implies !(#[trigger] rest[j] is Stop) by {
            assert(rest[j] == actions[j + 1]);
        }
        assert(!(actions[0] is Stop));
        law_stop_is_final(rest, i - 1);
    }
}

/// Without a stop, the mailbox is drained: every envelope received is
/// handled until the mailbox, closed by the service, is empty.
pub proof fn law_drains_mailbox<F>(actions: Seq<ServiceAction<F>>)
    requires
        forall|j: int| 0 <= j < actions.len() ==> !(#[trigger] actions[j] is Stop),
    ensures
        handled_count(actions) == actions.len(),
    decreases actions.len(),
{
    if actions.len() > 0 {
        let rest = actions.drop_first();
        assert forall|j: int| 0 <= j < rest.len() implies !(#[trigger] rest[j] is Stop) by {
            assert(rest[j] == actions[j + 1]);
        }
        assert(!(actions[0] is Stop));
        law_drains_mailbox(rest);
    }
}

/// An error response whose error handler answers [`ErrorAction::Stop`]
/// stops the service: if the first envelope that asks to stop is a message
/// whose error response was answered so, at position `i` of the mailbox,
/// nothing queued after it is handled.
pub proof fn law_error_stop_is_final<F>(actions: Seq<ServiceAction<F>>, i: int)
    requires
        0 <= i < actions.len(),
        actions[i] == response_action::<F>(Some(ErrorAction::Stop)),
        forall|j: int| 0 <= j < i ==> !(#[trigger] actions[j] is Stop),
    ensures
        handled_count(actions) == i + 1,
{
    law_stop_is_final(actions, i);
}

/// What the processing loop does, in the order it does it.
pub enum LoopEvent<F> {
    /// Handles the envelope at this position of the mailbox.
    Handle(nat),
    /// Awaits this future to completion.
    Await(F),
}

/// What the processing loop does, event by event, when the envelopes it
/// receives, in mailbox order starting at position `start`, lead to
/// `actions`, after which the mailbox is closed and empty.
pub open spec fn loop_trace<F>(actions: Seq<ServiceAction<F>>, start: nat) -> Seq<LoopEvent<F>>
    decreases actions.len(),
{
    if actions.len() == 0 {
        Seq::empty()
    } else {
        let handle = seq![LoopEvent::Handle(start)];
        match loop_step(Some(actions[0])) {
            LoopStep::Finish => handle,
            LoopStep::Next => handle + loop_trace(actions.drop_first(), start + 1),
            LoopStep::Await(fut) => handle.push(LoopEvent::Await(fut)) + loop_trace(
                actions.drop_first(),
                start + 1,
            ),
        }
    }
}

/// The mailbox positions of the envelopes handled in `trace`, in order.
pub open spec fn handled_positions<F>(trace: Seq<LoopEvent<F>>) -> Seq<nat>
    decreases trace.len(),
{
    if trace.len() == 0 {
        Seq::empty()
    } else {
        let rest = handled_positions(trace.drop_first());
        match trace[0] {
            LoopEvent::Handle(k) => seq![k] + rest,
            LoopEvent::Await(_) => rest,
        }
    }
}

proof fn lemma_handled_positions_concat<F>(a: Seq<LoopEvent<F>>, b: Seq<LoopEvent<F>>)
    ensures
        handled_positions(a + b) == handled_positions(a) + handled_positions(b),
    decreases a.len(),
{
    if a.len() == 0 {
        assert(a + b =~= b);
    } else {
        assert((a + b).drop_first() =~= a.drop_first() + b);
        lemma_handled_positions_concat(a.drop_first(), b);
        match a[0] {
            LoopEvent::Handle(k) => {
                assert(seq![k] + handled_positions(a.drop_first()) + handled_positions(b) =~= seq![k]
                    + (handled_positions(a.drop_first()) + handled_positions(b)));
            },
            LoopEvent::Await(_) => {},
        }
    }
}

/// Envelopes are handled in mailbox order, each once: the k-th envelope the
/// loop handles is the k-th in the mailbox (counted from `start`), and the
/// loop handles exactly `handled_count(actions)` of them.
pub proof fn law_handled_in_mailbox_order<F>(actions: Seq<ServiceAction<F>>, start: nat)
    ensures
        handled_positions(loop_trace(actions, start)) == Seq::new(
            handled_count(actions),
            |k: int| (start + k) as nat,
        ),
    decreases actions.len(),
{
    if actions.len() > 0 {
        let rest = actions.drop_first();
        law_handled_in_mailbox_order(rest, start + 1);
        let tail = loop_trace(rest, start + 1);
        let handle = seq![LoopEvent::<F>::Handle(start)];
        assert(handled_positions(handle) =~= seq![start]) by {
            reveal_with_fuel(handled_positions, 2);
            assert(handle.drop_first() =~= Seq::<LoopEvent<F>>::empty());
            assert(handle[0] == LoopEvent::<F>::Handle(start));
        }
        match loop_step(Some(actions[0])) {
            LoopStep::Finish => {},
            LoopStep::Next => {
                lemma_handled_positions_concat(handle, tail);
            },
            LoopStep::Await(fut) => {
                let block = handle.push(LoopEvent::Await(fut));
                assert(handled_positions(block) =~= seq![start]) by {
                    reveal_with_fuel(handled_positions, 3);
                    assert(block[0] == LoopEvent::<F>::Handle(start));
                    assert(block.drop_first() =~= seq![LoopEvent::<F>::Await(fut)]);
                    assert(block.drop_first()[0] == LoopEvent::<F>::Await(fut));
                    assert(block.drop_first().drop_first() =~= Seq::<LoopEvent<F>>::empty());
                }
                lemma_handled_positions_concat(block, tail);
            },
        }
        assert(handled_positions(loop_trace(actions, start)) =~= Seq::new(
            handled_count(actions),
            |k: int| (start + k) as nat,
        ));
    }
}

/// What follows the handling of an envelope: after a stop nothing; after a
/// continue the next envelope in the mailbox; and after an execute the
/// future is awaited to completion, and only then is the next envelope
/// handled, so no other message is handled while the future runs.
pub proof fn law_await_before_next<F>(actions: Seq<ServiceAction<F>>, start: nat, p: int)
    requires
        0 <= p < loop_trace(actions, start).len(),
        loop_trace(actions, start)[p] is Handle,
    ensures
        ({
            let trace = loop_trace(actions, start);
            let k = trace[p]->Handle_0;
            &&& start <= k < start + actions.len()
            &&& actions[k - start] is Stop ==> p == trace.len() - 1
            &&& actions[k - start] is Continue && p + 1 < trace.len() ==> trace[p + 1]
                == LoopEvent::<F>::Handle(k + 1)
            &&& actions[k - start] matches ServiceAction::Execute(fut) ==> {
                &&& p + 1 < trace.len()
                &&& trace[p + 1] == LoopEvent::Await(fut)
                &&& p + 2 < trace.len() ==> trace[p + 2] == LoopEvent::<F>::Handle(k + 1)
            }
        }),
    decreases actions.len(),
{
    let trace = loop_trace(actions, start);
    let rest = actions.drop_first();
    let tail = loop_trace(rest, start + 1);
    let handle = seq![LoopEvent::<F>::Handle(start)];
    let hl: int = match loop_step(Some(actions[0])) {
        LoopStep::Await(_) => 2,
        _ => 1,
    };
    if p >= hl {
        match loop_step(Some(actions[0])) {
            LoopStep::Finish => {},
            LoopStep::Next => {
                assert(trace == handle + tail);
            },
            LoopStep::Await(fut) => {
                assert(trace == handle.push(LoopEvent::Await(fut)) + tail);
            },
        }
        assert(trace.len() == hl + tail.len());
        assert(trace[p] == tail[p - hl]);
        law_await_before_next(rest, start + 1, p - hl);
        let k = trace[p]->Handle_0;
        assert(rest[k - (start + 1)] == actions[k - start]);
        if p + 1 < trace.len() {
            assert(trace[p + 1] == tail[p + 1 - hl]);
        }
        if p + 2 < trace.len() {
            assert(trace[p + 2] == tail[p + 2 - hl]);
        }
    } else {
        match loop_step(Some(actions[0])) {
            LoopStep::Finish => {},
            LoopStep::Next => {
                assert(trace == handle + tail);
                assert(trace[p] == LoopEvent::<F>::Handle(start));
                if p + 1 < trace.len() {
                    assert(trace[p + 1] == tail[0]);
                    assert(tail[0] == LoopEvent::<F>::Handle(start + 1));
                }
            },
            LoopStep::Await(fut) => {
                assert(trace == handle.push(LoopEvent::Await(fut)) + tail);
                assert(trace[0] == LoopEvent::<F>::Handle(start));
                assert(trace[1] == LoopEvent::<F>::Await(fut));
                if p + 2 < trace.len() {
                    assert(trace[p + 2] == tail[0]);
                    assert(tail[0] == LoopEvent::<F>::Handle(start + 1));
                }
            },
        }
    }
}

} // verus!
