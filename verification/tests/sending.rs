use kokage::binding::BindingCore;
use kokage::callbacks::SizeHint;
use kokage::channel::{mailbox, MailboxReceiver, MailboxRef};
use kokage::clock::Clock;
use kokage::delivery::{
    is_over, observed_size, try_send_rejection, settle_call, settle_gated, CallEvent, GatedSendOutcome, SendFlow,
    SendStep, TrySendStart,
};
use kokage::mailbox::{MessageRejection, TimedSendOutcome};
use kokage::stats::ActorStatsCounters;
use kokage::{ActorRef, CallError, Mailbox, SendErrorKind};

fn size(message: &u32) -> usize {
    *message as usize
}

fn parity(message: &u32) -> u32 {
    message % 2
}

fn slot() -> (BindingCore<u32>, ActorRef<u32>) {
    let core = BindingCore::new(1, "worker".to_owned());
    let actor = ActorRef::from_core(&core, None);
    (core, actor)
}

fn bind(core: &mut BindingCore<u32>, mode: &Mailbox<u32>) -> MailboxReceiver<u32> {
    let (sender, receiver) = mailbox(mode, mode.capacity_or(1));
    let run = core.monitor_run();
    assert!(core.bind(MailboxRef::new("worker".to_owned(), sender), &run).is_some());
    receiver
}

#[test]
fn immediate_sends_report_why_they_fail() {
    let (mut core, actor) = slot();
    let refused = actor.try_send(&mut core, 1).0.unwrap_err();
    assert_eq!((refused.kind, refused.message), (SendErrorKind::NotRunning, 1));

    let mut receiver = bind(&mut core, &Mailbox::queue(1));
    assert!(actor.try_send(&mut core, 2).0.is_ok());
    let full = actor.try_send(&mut core, 3).0.unwrap_err();
    assert_eq!((full.kind, full.into_message()), (SendErrorKind::Full, 3));
    assert_eq!(receiver.usage().0, (1, 1));
    assert_eq!(receiver.try_recv().0.ok(), Some(2));
    receiver.close_external();
    let closed = actor.try_send(&mut core, 4).0.unwrap_err();
    assert_eq!(closed.kind, SendErrorKind::NotRunning);

    core.terminate();
    let over = actor.try_send(&mut core, 5).0.unwrap_err();
    assert_eq!((over.kind, over.actor_id), (SendErrorKind::Terminated, "worker".to_owned()));
    let stats = actor.stats(&core).0;
    assert_eq!((stats.messages_accepted, stats.sends_rejected), (1, 4));
}

#[test]
fn a_released_binding_counts_as_terminated() {
    let (mut core, actor) = slot();
    assert!(!is_over(&core));
    core.release();
    assert!(is_over(&core));
    let refused = actor.try_send(&mut core, 1).0.unwrap_err();
    assert_eq!(refused.kind, SendErrorKind::Terminated);
}

#[test]
fn conflating_sends_count_what_they_replace() {
    let (mut core, actor) = slot();
    core.set_message_size(SizeHint::new(size));
    let mut receiver = bind(&mut core, &Mailbox::latest_by_key(2, parity));
    for message in [1, 2, 3] {
        assert!(actor.try_send(&mut core, message).0.is_ok());
    }
    let stats = actor.stats(&core).0;
    assert_eq!(stats.messages_accepted, 3);
    assert_eq!(stats.messages_conflated, 1);
    assert_eq!(stats.message_bytes_accepted, Some(6));
    assert_eq!((stats.mailbox_depth, stats.mailbox_capacity), (2, 2));
    assert_eq!(receiver.try_recv().0.ok(), Some(3));
    assert_eq!(receiver.try_recv().0.ok(), Some(2));
    assert!(receiver.try_recv().0.is_err());
}

fn offered(
    flow: &mut SendFlow<u32>,
    core: &mut BindingCore<u32>,
    now: u64,
) -> (MailboxRef<u32>, Option<usize>) {
    match flow.poll(core, now) {
        SendStep::Offer { mailbox, message, size_hint } => {
            assert_eq!(message, 9);
            assert!(core.current.is_bound_to(&mailbox));
            (mailbox, observed_size(&size_hint, &message))
        }
        _ => panic!("a bound mailbox is offered the message"),
    }
}

#[test]
fn awaited_sends_ride_through_restarts() {
    let (mut core, actor) = slot();
    let mut flow = actor.send(9);
    assert!(matches!(flow.poll(&mut core, 0), SendStep::Wait));

    let _first = bind(&mut core, &Mailbox::queue(1));
    let (first, size) = offered(&mut flow, &mut core, 0);
    assert_eq!(size, None);
    let stale = first.share();
    let closed = TimedSendOutcome::Closed(9);
    assert!(matches!(flow.settle(&mut core.counters, first, size, closed), SendStep::Retry));
    assert!(matches!(flow.poll(&mut core, 0), SendStep::Wait));

    let _second = bind(&mut core, &Mailbox::queue(1));
    let (second, size) = offered(&mut flow, &mut core, 0);
    assert!(!second.same_channel(&stale));
    stale.release();
    let accepted = TimedSendOutcome::Accepted { conflated: 0 };
    assert!(matches!(
        flow.settle(&mut core.counters, second, size, accepted),
        SendStep::Finished(Ok(()))
    ));
    assert_eq!(core.stats().0.messages_accepted, 1);
    assert_eq!(core.stats().0.sends_rejected, 0);
}

#[test]
fn awaited_sends_end_with_the_membership() {
    let (mut core, actor) = slot();
    let mut flow = actor.send(9);
    core.terminate();
    match flow.poll(&mut core, 0) {
        SendStep::Finished(Err(error)) => {
            assert_eq!((error.kind, error.message), (SendErrorKind::Terminated, 9));
        }
        _ => panic!("a terminated binding ends the send"),
    }
    assert_eq!(core.stats().0.sends_rejected, 1);

    let (mut core, actor) = slot();
    let mut flow = actor.send(9);
    core.release();
    assert!(matches!(flow.poll(&mut core, 0), SendStep::Finished(Err(_))));
}

#[test]
fn bounded_sends_return_the_message_in_time() {
    let (mut core, actor) = slot();
    let _receiver = bind(&mut core, &Mailbox::queue(1));
    let mut zero = actor.send_timeout(9, 0, 100);
    match zero.poll(&mut core, 100) {
        SendStep::Finished(Err(error)) => {
            assert_eq!((error.kind, error.message), (SendErrorKind::TimedOut, 9));
        }
        _ => panic!("a zero bound always times out"),
    }

    let mut flow = actor.send_timeout(9, 10, 100);
    let (mailbox, size) = offered(&mut flow, &mut core, 109);
    match flow.settle(&mut core.counters, mailbox, size, TimedSendOutcome::Timeout(9)) {
        SendStep::Finished(Err(error)) => assert_eq!(error.kind, SendErrorKind::TimedOut),
        _ => panic!("a reached deadline ends the send"),
    }
    assert_eq!(core.stats().0.sends_rejected, 2);
}

#[test]
fn captured_incarnations_are_not_followed() {
    let (mut core, actor) = slot();
    assert!(actor.current_mailbox(&core).is_none());
    let _receiver = bind(&mut core, &Mailbox::queue(1));
    let captured = actor.current_mailbox(&core).expect("a live incarnation");
    assert!(core.current.is_bound_to(&captured));
    let _next = bind(&mut core, &Mailbox::queue(1));
    assert!(!core.current.is_bound_to(&captured));
    captured.release();
    let mut counters = ActorStatsCounters::new();
    settle_gated(&mut counters, &GatedSendOutcome::Accepted::<u32> { conflated: 1 }, Some(3));
    settle_gated(&mut counters, &GatedSendOutcome::Closed(1u32), None);
    settle_gated(&mut counters, &GatedSendOutcome::Cancelled(1u32), None);
    assert_eq!(counters.messages_accepted, 1);
    assert_eq!(counters.messages_conflated, 1);
    assert_eq!(counters.message_bytes_accepted, 3);
    assert_eq!(counters.sends_rejected, 1);
}

#[test]
fn calls_tell_unknown_outcomes_apart() {
    let id = "db".to_owned();
    assert_eq!(settle_call(&id, true, CallEvent::Replied(4)), Ok(4));
    assert_eq!(
        settle_call::<u8>(&id, false, CallEvent::Refused),
        Err(CallError::Terminated { actor_id: id.clone() })
    );
    assert_eq!(
        settle_call::<u8>(&id, true, CallEvent::ReplyDropped),
        Err(CallError::ReplyDropped { actor_id: id.clone() })
    );
    assert_eq!(
        settle_call::<u8>(&id, false, CallEvent::Elapsed),
        Err(CallError::AcceptanceTimedOut { actor_id: id.clone() })
    );
    assert_eq!(
        settle_call::<u8>(&id, true, CallEvent::Elapsed),
        Err(CallError::ResponseTimedOut { actor_id: id.clone() })
    );
}

#[test]
fn rejections_have_a_mailbox_level_reason() {
    for (kind, rejection) in [
        (SendErrorKind::NotRunning, MessageRejection::NotRunning),
        (SendErrorKind::Full, MessageRejection::MailboxFull),
        (SendErrorKind::Terminated, MessageRejection::ActorTerminated),
        (SendErrorKind::TimedOut, MessageRejection::Timeout),
    ] {
        assert_eq!(try_send_rejection(kind), rejection);
    }
}

#[test]
fn references_keep_their_identity() {
    let (core, _) = slot();
    let actor = ActorRef::from_core(&core, Some("parent".to_owned()));
    let copy = actor.clone();
    assert_eq!(copy.id(), "worker");
    assert_eq!(copy.identity, 1);
    assert_eq!(copy.to_debug_string(), "ActorRef { actor_id: \"worker\", .. }");
    assert_eq!(copy.source_actor_id, Some("parent".to_owned()));
}

#[test]
fn the_clock_does_not_go_back() {
    let clock = Clock::start();
    let first = clock.now();
    let second = clock.now();
    assert!(first <= second);
    assert!(second < 20_000_000_000);
}

#[test]
fn a_waiting_send_can_be_called_off() {
    let (mut core, actor) = slot();
    let mut flow = actor.send(9);
    let _receiver = bind(&mut core, &Mailbox::latest());
    let (mailbox, size) = offered(&mut flow, &mut core, 0);
    let closed = TimedSendOutcome::Closed(9);
    assert!(matches!(flow.settle(&mut core.counters, mailbox, size, closed), SendStep::Retry));
    assert_eq!(flow.cancel(), Some(9));
    assert_eq!(core.stats().0.sends_rejected, 0);
}

#[test]
fn immediate_sends_need_the_binding_at_their_ends_only() {
    let (mut core, actor) = slot();
    core.set_message_size(SizeHint::new(size));
    assert!(matches!(
        actor.begin_try_send(&mut core, 4),
        TrySendStart::Refused(error) if error.kind == SendErrorKind::NotRunning
    ));
    let mut receiver = bind(&mut core, &Mailbox::queue(1));
    match actor.begin_try_send(&mut core, 5) {
        TrySendStart::Ready(offer) => {
            let (outcome, _) = offer.send();
            assert_eq!(outcome.size, Some(5));
            assert!(outcome.settle(&mut core.counters).is_ok());
        }
        TrySendStart::Refused(_) => panic!("a mailbox is bound"),
    }
    assert_eq!(receiver.try_recv().0.ok(), Some(5));
    assert_eq!(core.stats().0.message_bytes_accepted, Some(5));
    assert_eq!((core.stats().0.messages_accepted, core.stats().0.sends_rejected), (1, 1));
}

#[test]
fn a_dropped_slot_keeps_its_id_and_counts() {
    let (mut core, actor) = slot();
    let first = actor.try_send(&mut core, 7).0.unwrap_err();
    assert_eq!((first.kind, first.actor_id, first.message), (SendErrorKind::NotRunning, "worker".to_owned(), 7));
    core.release();
    let second = actor.try_send(&mut core, 8).0.unwrap_err();
    assert_eq!((second.kind, second.actor_id, second.message), (SendErrorKind::Terminated, "worker".to_owned(), 8));
    let stats = actor.stats(&core).0;
    assert_eq!((stats.sends_rejected, stats.messages_accepted), (2, 0));
}
