use interlink::ctx::{next_step, LoopStep, ServiceContext};
use interlink::envelope::{action_after_error, action_after_response, Envelope, ErrorEnvelope, ServiceAction, StopEnvelope, StreamEnvelope};
use interlink::link::{reply_outcome, send_outcome, Link, LinkError, StopSignal};
use interlink::msg::{
    delivery_of, reply, respond_unit, route_option, route_result, Delivery, ErrorAction, Fr, Message,
    MessageResponse, Mr, Route,
};
use interlink::sink::{after_write, keep_writing, sink_command, AfterWrite, SinkCommand, SinkMessage, SinkService};
use interlink::stream::{keep_forwarding, stream_step, StreamService, StreamStep};
use tokio::sync::mpsc::error::TryRecvError;
use tokio::sync::oneshot;

#[derive(Debug, PartialEq, Eq)]
enum Mail {
    Value(u32),
    Stop,
}

impl StopSignal for Mail {
    fn stop_signal() -> Self {
        Mail::Stop
    }
}

struct Ping;

impl Message for Ping {
    type Response = String;
}

#[test]
fn link_puts_messages_into_the_mailbox_in_order() {
    let mut ctx: ServiceContext<u32> = ServiceContext::new();
    let link = ctx.link();
    assert_eq!(link.tx(1), Ok(()));
    assert_eq!(link.tx(2), Ok(()));
    assert_eq!(ctx.inbox().try_recv(), Ok(1));
    assert_eq!(ctx.inbox().try_recv(), Ok(2));
    assert_eq!(ctx.inbox().try_recv(), Err(TryRecvError::Empty));
}

#[test]
fn clones_of_a_link_reach_the_same_mailbox() {
    let mut ctx: ServiceContext<u32> = ServiceContext::new();
    let first = ctx.link();
    let second = first.clone();
    let shared = ctx.shared_link().duplicate();
    assert_eq!(second.tx(7), Ok(()));
    assert_eq!(shared.tx(8), Ok(()));
    assert_eq!(first.tx(9), Ok(()));
    assert_eq!(ctx.inbox().try_recv(), Ok(7));
    assert_eq!(ctx.inbox().try_recv(), Ok(8));
    assert_eq!(ctx.inbox().try_recv(), Ok(9));
}

#[test]
fn stopped_context_refuses_new_messages_but_drains_old_ones() {
    let mut ctx: ServiceContext<u32> = ServiceContext::new();
    let link = ctx.link();
    assert_eq!(link.tx(1), Ok(()));
    ctx.stop();
    assert_eq!(link.tx(2), Err(LinkError::Send));
    assert_eq!(ctx.inbox().try_recv(), Ok(1));
    assert_eq!(ctx.inbox().try_recv(), Err(TryRecvError::Disconnected));
}

#[test]
fn link_to_a_dropped_context_fails_with_send() {
    let ctx: ServiceContext<u32> = ServiceContext::new();
    let link = ctx.link();
    drop(ctx);
    assert_eq!(link.tx(3), Err(LinkError::Send));
}

#[test]
fn link_stop_sends_the_stop_signal() {
    let mut ctx: ServiceContext<Mail> = ServiceContext::new();
    let link = ctx.link();
    assert_eq!(link.tx(Mail::Value(4)), Ok(()));
    link.stop();
    assert_eq!(ctx.inbox().try_recv(), Ok(Mail::Value(4)));
    assert_eq!(ctx.inbox().try_recv(), Ok(Mail::Stop));
}

#[test]
fn link_stop_on_a_stopped_service_does_nothing() {
    let ctx: ServiceContext<Mail> = ServiceContext::new();
    let link = ctx.link();
    drop(ctx);
    link.stop();
    assert_eq!(link.tx(Mail::Value(1)), Err(LinkError::Send));
}

#[test]
fn send_and_reply_outcomes() {
    assert_eq!(send_outcome::<u8>(Ok(())), Ok(()));
    assert_eq!(send_outcome(Err(5u8)), Err(LinkError::Send));
    let (tx, rx) = oneshot::channel::<u32>();
    drop(tx);
    let received = rx.blocking_recv();
    assert!(received.is_err());
    assert_eq!(reply_outcome(received), Err(LinkError::Recv));
    assert_eq!(reply_outcome::<u32>(Ok(12)), Ok(12));
}

#[test]
fn reply_without_channel_is_unrequested() {
    assert_eq!(reply::<u32>(None, 1), Delivery::Unrequested);
}

#[test]
fn reply_reaches_a_waiting_caller() {
    let (tx, rx) = oneshot::channel::<u32>();
    assert_eq!(reply(Some(tx), 42), Delivery::Delivered);
    assert_eq!(rx.blocking_recv().ok(), Some(42));
}

#[test]
fn reply_to_a_caller_who_left_comes_back() {
    let (tx, rx) = oneshot::channel::<u32>();
    drop(rx);
    assert_eq!(reply(Some(tx), 42), Delivery::Refused(42));
}

#[test]
fn delivery_outcomes() {
    assert_eq!(delivery_of::<u8>(None), Delivery::Unrequested);
    assert_eq!(delivery_of::<u8>(Some(Ok(()))), Delivery::Delivered);
    assert_eq!(delivery_of::<u8>(Some(Err(3))), Delivery::Refused(3));
}

#[test]
fn message_response_sends_its_value() {
    let (tx, rx) = oneshot::channel::<String>();
    let mr: Mr<Ping> = Mr("Response".to_string());
    assert_eq!(mr.respond(Some(tx)), Delivery::Delivered);
    assert_eq!(rx.blocking_recv().ok(), Some("Response".to_string()));

    let (tx, rx) = oneshot::channel::<u32>();
    assert_eq!(MessageResponse(9u32).respond(Some(tx)), Delivery::Delivered);
    assert_eq!(rx.blocking_recv().ok(), Some(9));

    let (tx, rx) = oneshot::channel::<String>();
    drop(rx);
    let mr: Mr<Ping> = Mr("late".to_string());
    assert_eq!(mr.respond(Some(tx)), Delivery::Refused("late".to_string()));
}

#[test]
fn unit_response_tells_the_caller() {
    let (tx, rx) = oneshot::channel::<()>();
    assert_eq!(respond_unit(Some(tx)), Delivery::Delivered);
    assert_eq!(rx.blocking_recv().ok(), Some(()));
    assert_eq!(respond_unit(None), Delivery::Unrequested);
}

#[test]
fn composite_responses_route() {
    assert_eq!(route_option::<u8, ()>(Some(1)), Route::Respond(1));
    assert_eq!(route_option::<u8, ()>(None), Route::Silent);
    assert_eq!(route_result::<u8, &str>(Ok(2)), Route::Respond(2));
    assert_eq!(route_result::<u8, &str>(Err("bad")), Route::Report("bad"));
}

#[test]
fn silent_response_leaves_caller_with_recv_error() {
    // A response that is not sent drops the reply channel.
    let (tx, rx) = oneshot::channel::<u32>();
    match route_option::<u32, ()>(None) {
        Route::Respond(v) => {
            reply(Some(tx), v);
        }
        _ => drop(tx),
    }
    assert_eq!(reply_outcome(rx.blocking_recv()), Err(LinkError::Recv));
}

#[test]
fn future_responses() {
    let fr = Fr::new(async { 5u32 });
    assert_eq!(futures::executor::block_on(fr.into_future()), 5);
    let fr = Fr::new_box(async { "boxed" });
    assert_eq!(futures::executor::block_on(fr.future), "boxed");
    let fr = Fr::ready(11u32);
    assert_eq!(futures::executor::block_on(fr.into_future()), 11);
}

#[test]
fn envelopes_hold_what_they_were_given() {
    assert_eq!(StreamEnvelope::new(3u8).msg, 3);
    assert_eq!(ErrorEnvelope::new("err").msg, "err");
    let (tx, _rx) = oneshot::channel::<String>();
    let env = Envelope::new(Ping, Some(tx));
    assert!(env.tx.is_some());
    let env = Envelope::new(Ping, None);
    assert!(env.tx.is_none());
    assert_eq!(StopEnvelope.action::<()>(), ServiceAction::Stop);
}

#[test]
fn error_handler_decision_drives_the_service() {
    assert_eq!(action_after_error::<()>(ErrorAction::Stop), ServiceAction::Stop);
    assert_eq!(action_after_error::<()>(ErrorAction::Continue), ServiceAction::Continue);
}

#[test]
fn loop_steps() {
    assert_eq!(next_step::<u8>(None), LoopStep::Finish);
    assert_eq!(next_step::<u8>(Some(ServiceAction::Stop)), LoopStep::Finish);
    assert_eq!(next_step::<u8>(Some(ServiceAction::Continue)), LoopStep::Next);
    assert_eq!(next_step::<u8>(Some(ServiceAction::Execute(4))), LoopStep::Await(4));
}

/// Runs the loop decisions over the actions the handled envelopes produce
/// and returns how many envelopes were handled and which futures were
/// awaited.
fn run_loop(actions: Vec<ServiceAction<u8>>) -> (usize, Vec<u8>) {
    let mut handled = 0;
    let mut awaited = Vec::new();
    let mut it = actions.into_iter();
    loop {
        let received = it.next();
        let was_message = received.is_some();
        if was_message {
            handled += 1;
        }
        match next_step(received) {
            LoopStep::Finish => return (handled, awaited),
            LoopStep::Next => {}
            LoopStep::Await(f) => awaited.push(f),
        }
    }
}

#[test]
fn loop_stops_at_the_first_stop() {
    let actions = vec![
        ServiceAction::Continue,
        ServiceAction::Execute(1),
        ServiceAction::Stop,
        ServiceAction::Continue,
        ServiceAction::Execute(2),
    ];
    assert_eq!(run_loop(actions), (3, vec![1]));
}

#[test]
fn loop_drains_the_mailbox_without_stop() {
    let actions = vec![ServiceAction::Continue, ServiceAction::Execute(3), ServiceAction::Continue];
    assert_eq!(run_loop(actions), (3, vec![3]));
}

#[test]
fn stream_steps() {
    assert_eq!(stream_step(true, Some(1u8)), StreamStep::Forward(1));
    assert_eq!(stream_step(false, Some(1u8)), StreamStep::Forward(1));
    assert_eq!(stream_step::<u8>(true, None), StreamStep::StopLinked);
    assert_eq!(stream_step::<u8>(false, None), StreamStep::Finish);
    assert!(keep_forwarding(Ok(())));
    assert!(!keep_forwarding(Err(LinkError::Send)));
}

#[test]
fn stream_service_forwards_then_stops_the_linked_service() {
    let mut ctx: ServiceContext<Mail> = ServiceContext::new();
    let service = StreamService::new(vec![1u32, 2], ctx.link(), true);
    for item in service.stream.iter() {
        assert!(service.forward(Mail::Value(*item)));
    }
    assert!(service.finish());
    assert_eq!(ctx.inbox().try_recv(), Ok(Mail::Value(1)));
    assert_eq!(ctx.inbox().try_recv(), Ok(Mail::Value(2)));
    assert_eq!(ctx.inbox().try_recv(), Ok(Mail::Stop));
}

#[test]
fn stream_service_without_stop_leaves_the_service_running() {
    let mut ctx: ServiceContext<Mail> = ServiceContext::new();
    let service = StreamService::new((), ctx.link(), false);
    assert!(!service.finish());
    assert_eq!(ctx.inbox().try_recv(), Err(TryRecvError::Empty));
}

#[test]
fn stream_service_ends_when_the_service_is_gone() {
    let ctx: ServiceContext<Mail> = ServiceContext::new();
    let service = StreamService::new((), ctx.link(), true);
    drop(ctx);
    assert!(!service.forward(Mail::Value(1)));
}

#[test]
fn sink_link_requests_arrive_in_order() {
    let ctx: ServiceContext<u32> = ServiceContext::new();
    let (mut service, link) = SinkService::<u32, Vec<u8>, u8>::new(Vec::new(), ctx.link());
    assert_eq!(link.sink(1), Ok(()));
    assert_eq!(link.feed(2), Ok(()));
    assert_eq!(link.clone().flush(), Ok(()));
    assert_eq!(link.stop(), Ok(()));
    assert_eq!(service.rx.try_recv(), Ok(SinkMessage::Send(1)));
    assert_eq!(service.rx.try_recv(), Ok(SinkMessage::Feed(2)));
    assert_eq!(service.rx.try_recv(), Ok(SinkMessage::Flush));
    assert_eq!(service.rx.try_recv(), Ok(SinkMessage::Stop));
    assert!(service.sink.is_empty());
}

#[test]
fn sink_link_to_an_ended_sink_service_fails() {
    let ctx: ServiceContext<u32> = ServiceContext::new();
    let (service, link) = SinkService::<u32, (), u8>::new((), ctx.link());
    drop(service);
    assert_eq!(link.sink(1), Err(LinkError::Send));
    assert_eq!(link.feed(1), Err(LinkError::Send));
    assert_eq!(link.flush(), Err(LinkError::Send));
    assert_eq!(link.stop(), Err(LinkError::Send));
}

#[test]
fn sink_commands() {
    assert_eq!(sink_command(Some(SinkMessage::Send(1u8))), SinkCommand::Write(1));
    assert_eq!(sink_command(Some(SinkMessage::Feed(2u8))), SinkCommand::Feed(2));
    assert_eq!(sink_command::<u8>(Some(SinkMessage::Flush)), SinkCommand::Flush);
    assert_eq!(sink_command::<u8>(Some(SinkMessage::Stop)), SinkCommand::Finish);
    assert_eq!(sink_command::<u8>(None), SinkCommand::Finish);
    assert_eq!(after_write::<&str>(Ok(())), AfterWrite::Next);
    assert_eq!(after_write(Err("broken")), AfterWrite::Report("broken"));
    assert!(keep_writing(Ok(())));
    assert!(!keep_writing(Err(LinkError::Send)));
}

#[test]
fn sink_errors_are_reported_to_the_service() {
    let mut ctx: ServiceContext<String> = ServiceContext::new();
    let (service, _link) = SinkService::<String, (), u8>::new((), ctx.link());
    assert!(service.report("write failed".to_string()));
    assert_eq!(ctx.inbox().try_recv(), Ok("write failed".to_string()));
    drop(ctx);
    assert!(!service.report("again".to_string()));
}

/// Runs the sink decisions over requests with given operation and report
/// outcomes; returns the number of requests taken and the items written or
/// fed, in order.
fn run_sink(msgs: Vec<SinkMessage<u8>>, written: Vec<bool>, reported: Vec<bool>) -> (usize, Vec<u8>) {
    let mut taken = 0;
    let mut out = Vec::new();
    let mut it = msgs.into_iter();
    loop {
        let msg = it.next();
        if msg.is_some() {
            taken += 1;
        }
        let ok = match sink_command(msg) {
            SinkCommand::Finish => return (taken, out),
            SinkCommand::Write(v) | SinkCommand::Feed(v) => {
                out.push(v);
                written[taken - 1]
            }
            SinkCommand::Flush => written[taken - 1],
        };
        let result: Result<(), &str> = if ok { Ok(()) } else { Err("sink error") };
        if let AfterWrite::Report(_) = after_write(result) {
            let report = if reported[taken - 1] { Ok(()) } else { Err(LinkError::Send) };
            if !keep_writing(report) {
                return (taken, out);
            }
        }
    }
}

#[test]
fn sink_service_ignores_requests_after_stop() {
    let msgs = vec![SinkMessage::Send(1), SinkMessage::Feed(2), SinkMessage::Stop, SinkMessage::Send(3)];
    assert_eq!(run_sink(msgs, vec![true; 4], vec![true; 4]), (3, vec![1, 2]));
}

#[test]
fn sink_service_goes_on_after_a_reported_error_and_ends_after_an_unreported_one() {
    let msgs = vec![SinkMessage::Send(1), SinkMessage::Send(2), SinkMessage::Send(3), SinkMessage::Send(4)];
    assert_eq!(
        run_sink(msgs, vec![false, true, false, true], vec![true, true, false, true]),
        (3, vec![1, 2, 3])
    );
}

#[test]
fn sink_service_drains_its_mailbox() {
    let msgs = vec![SinkMessage::Feed(5), SinkMessage::Flush];
    assert_eq!(run_sink(msgs, vec![true, false], vec![true, true]), (2, vec![5]));
}

/// A tiny service loop built from the library's pieces: it handles `Ping`
/// envelopes by answering with a fixed text, and stops on `None`.
async fn ping_service(mut ctx: ServiceContext<Option<Box<Envelope<Ping>>>>) -> usize {
    let mut handled = 0;
    loop {
        let received = ctx.inbox().recv().await;
        let action = match received {
            Some(Some(envelope)) => {
                handled += 1;
                let response: Mr<Ping> = Mr("Example".to_string());
                let _ = response.respond(envelope.tx);
                Some(ServiceAction::<()>::Continue)
            }
            Some(None) => {
                handled += 1;
                Some(StopEnvelope.action())
            }
            None => None,
        };
        match next_step(action) {
            LoopStep::Finish => return handled,
            LoopStep::Next => {}
            LoopStep::Await(()) => {}
        }
    }
}

#[test]
fn request_reaches_the_service_and_its_response_comes_back() {
    let rt = tokio::runtime::Builder::new_current_thread().build().unwrap();
    rt.block_on(async {
        let ctx: ServiceContext<Option<Box<Envelope<Ping>>>> = ServiceContext::new();
        let link = ctx.link();
        let task = tokio::spawn(ping_service(ctx));

        let (tx, rx) = oneshot::channel();
        assert_eq!(link.tx(Some(Envelope::new(Ping, Some(tx)))), Ok(()));
        assert_eq!(reply_outcome(rx.await), Ok("Example".to_string()));

        // Without waiting for a response.
        assert_eq!(link.tx(Some(Envelope::new(Ping, None))), Ok(()));

        // Stop, then nothing more is handled and the link fails.
        assert_eq!(link.tx(None), Ok(()));
        assert_eq!(task.await.unwrap(), 3);
        let (tx, _rx) = oneshot::channel();
        assert_eq!(link.tx(Some(Envelope::new(Ping, Some(tx)))), Err(LinkError::Send));
    });
}

#[test]
fn error_response_decision_drives_the_service() {
    assert_eq!(action_after_response::<()>(None), ServiceAction::Continue);
    assert_eq!(action_after_response::<()>(Some(ErrorAction::Continue)), ServiceAction::Continue);
    assert_eq!(action_after_response::<()>(Some(ErrorAction::Stop)), ServiceAction::Stop);
}

#[test]
fn error_response_answered_with_stop_ends_the_loop() {
    // A handled message whose error response the error handler answered
    // with Stop: nothing queued after it is handled.
    let actions = vec![
        action_after_response(None),
        action_after_response(Some(ErrorAction::Continue)),
        action_after_response(Some(ErrorAction::Stop)),
        ServiceAction::Continue,
    ];
    assert_eq!(run_loop(actions), (3, vec![]));
}

#[test]
fn refused_requests_come_back_unchanged() {
    let ctx: ServiceContext<u32> = ServiceContext::new();
    let link = ctx.link();
    assert_eq!(link.try_tx(5), Ok(()));
    let (service, sink_link) = SinkService::<u32, (), u8>::new((), ctx.link());
    assert_eq!(sink_link.try_sink(1), Ok(()));
    drop(service);
    assert_eq!(sink_link.try_sink(1), Err(SinkMessage::Send(1)));
    assert_eq!(sink_link.try_feed(2), Err(SinkMessage::Feed(2)));
    assert_eq!(sink_link.try_flush(), Err(SinkMessage::Flush));
    assert_eq!(sink_link.try_stop(), Err(SinkMessage::Stop));
    drop(ctx);
    assert_eq!(link.try_tx(6), Err(6));
}

#[test]
fn loop_handles_in_mailbox_order_and_awaits_before_the_next() {
    // Events: ("handle", position) or ("await", future).
    let actions = vec![
        ServiceAction::Execute(10u8),
        ServiceAction::Continue,
        ServiceAction::Execute(20),
        ServiceAction::Stop,
        ServiceAction::Continue,
    ];
    let mut events = Vec::new();
    for (position, action) in actions.into_iter().enumerate() {
        events.push(("handle", position as u8));
        match next_step(Some(action)) {
            LoopStep::Finish => break,
            LoopStep::Next => {}
            LoopStep::Await(f) => events.push(("await", f)),
        }
    }
    assert_eq!(
        events,
        vec![("handle", 0), ("await", 10), ("handle", 1), ("handle", 2), ("await", 20), ("handle", 3)]
    );
}

#[test]
fn sink_gets_the_items_of_the_taken_requests_in_order() {
    let msgs = vec![
        SinkMessage::Feed(1),
        SinkMessage::Flush,
        SinkMessage::Send(2),
        SinkMessage::Stop,
        SinkMessage::Send(3),
    ];
    assert_eq!(run_sink(msgs, vec![true; 5], vec![true; 5]), (4, vec![1, 2]));
}
