use kokage::callbacks::KeyMatcher;
use kokage::channel::{
    conflating_channel, mailbox, occupied, queue_rejection, settle_reservation, CloseReceipt,
    LatestReceipt, MailboxReceiver, MailboxRef, MailboxSender, RecvReceipt, SlotState, SlotVerdict,
    TryReceipt,
};
use kokage::clock::{deadline_after, reached, Clock, BEYOND_TIME, FAR_FUTURE};
use kokage::mailbox::{
    ConflatingState, MessageRejection, SendOutcome, TimedSendOutcome, TryRecvError,
};
use kokage::transport::Polled;
use kokage::{Mailbox, SendErrorKind};
use std::task::{Context, Waker};

type Pair = (char, u32);

fn by_letter() -> Option<KeyMatcher<Pair>> {
    Some(KeyMatcher::by_key(|pair: &Pair| pair.0))
}

fn unread(state: &mut ConflatingState<Pair>) -> Vec<Pair> {
    let mut messages = Vec::new();
    while let Ok(message) = state.try_recv() {
        messages.push(message);
    }
    messages
}

fn conflated(state: &mut ConflatingState<Pair>, message: Pair) -> Option<u64> {
    match state.send(message) {
        SendOutcome::Accepted { conflated } => Some(conflated),
        SendOutcome::Closed(_) => None,
    }
}

#[test]
fn an_unkeyed_mailbox_holds_the_latest_message() {
    let mut state = ConflatingState::new(1, None);
    assert_eq!(conflated(&mut state, ('a', 1)), Some(0));
    assert_eq!(conflated(&mut state, ('b', 2)), Some(1));
    assert_eq!(state.usage(), (1, 1));
    assert_eq!(unread(&mut state), vec![('b', 2)]);
}

#[test]
fn a_keyed_mailbox_holds_one_message_per_key() {
    let mut state = ConflatingState::new(2, by_letter());
    assert_eq!(conflated(&mut state, ('a', 1)), Some(0));
    assert_eq!(conflated(&mut state, ('b', 2)), Some(0));
    assert_eq!(conflated(&mut state, ('a', 3)), Some(1));
    assert_eq!(conflated(&mut state, ('c', 4)), Some(1));
    assert_eq!(unread(&mut state), vec![('b', 2), ('c', 4)]);
}

#[test]
fn closed_mailboxes_return_the_message() {
    let mut state = ConflatingState::new(2, by_letter());
    assert_eq!(conflated(&mut state, ('a', 1)), Some(0));
    state.close_external();
    assert!(!state.is_open());
    assert!(matches!(state.send(('b', 2)), SendOutcome::Closed(('b', 2))));
    assert_eq!(state.try_recv(), Ok(('a', 1)));
    assert_eq!(state.try_recv(), Err(TryRecvError::Empty));
    state.close_receiver();
    assert_eq!(state.try_recv(), Err(TryRecvError::Disconnected));
}

#[test]
fn the_last_sender_disconnects() {
    let mut state = ConflatingState::<Pair>::new(1, None);
    state.add_sender();
    assert!(!state.remove_sender());
    assert_eq!(state.try_recv(), Err(TryRecvError::Empty));
    assert!(state.remove_sender());
    assert_eq!(state.try_recv(), Err(TryRecvError::Disconnected));
}

#[test]
fn bounded_sends_are_not_accepted_late() {
    let clock = Clock::start();
    let mut state = ConflatingState::new(2, by_letter());
    let future = deadline_after(clock.now(), 10_000_000_000_000);
    assert!(matches!(
        state.send_until(('a', 1), future, &clock).0,
        TimedSendOutcome::Accepted { conflated: 0 }
    ));
    assert!(matches!(
        state.send_until(('a', 2), 0, &clock).0,
        TimedSendOutcome::Timeout(('a', 2))
    ));
    assert!(matches!(state.offer(None, ('b', 3), true), TimedSendOutcome::Timeout(('b', 3))));
    assert!(matches!(
        state.offer(Some(0), ('a', 4), false),
        TimedSendOutcome::Accepted { conflated: 1 }
    ));
    state.close_external();
    assert!(matches!(state.offer(None, ('b', 5), true), TimedSendOutcome::Closed(('b', 5))));
    assert!(matches!(
        state.send_until(('b', 6), future, &clock).0,
        TimedSendOutcome::Closed(('b', 6))
    ));
    assert_eq!(unread(&mut state), vec![('a', 4)]);
}

#[test]
fn shared_conflating_handles_see_one_mailbox() {
    let (sender, receiver) = conflating_channel::<Pair>(2, by_letter());
    let other = sender.share();
    assert!(matches!(
        sender.send(('a', 1)).0,
        SendOutcome::Accepted { conflated: 0 }
    ));
    assert!(matches!(
        other.send(('a', 2)).0,
        SendOutcome::Accepted { conflated: 1 }
    ));
    let clock = Clock::start();
    assert!(matches!(
        other.send_until(('b', 3), 0, &clock).0,
        TimedSendOutcome::Timeout(('b', 3))
    ));
    assert_eq!(sender.usage().0, (1, 2));
    assert_eq!(receiver.usage().0, (1, 2));
    assert_eq!(receiver.try_recv().0, Ok(('a', 2)));
    assert_eq!(receiver.try_recv().0, Err(TryRecvError::Empty));
    sender.release();
    assert_eq!(receiver.try_recv().0, Err(TryRecvError::Empty));
    other.release();
    assert_eq!(receiver.try_recv().0, Err(TryRecvError::Disconnected));
}

#[test]
fn a_closed_receiver_refuses_later_sends() {
    let (sender, mut receiver) = conflating_channel::<Pair>(1, None);
    receiver.close();
    assert!(matches!(sender.send(('a', 1)).0, SendOutcome::Closed(('a', 1))));
}

#[test]
fn mailboxes_follow_their_configuration() {
    let (sender, mut receiver) = mailbox(&Mailbox::<u8>::queue(3), 3);
    assert!(matches!(sender, MailboxSender::Queue { .. }));
    assert_eq!(sender.usage().0, (0, 3));
    let first = MailboxRef::new("a".to_owned(), sender);
    let second = first.share();
    assert_eq!(first.try_send(1).0.ok(), Some(0));
    assert_eq!(second.try_send(2).0.ok(), Some(0));
    assert_eq!(first.usage().0, (2, 3));
    assert_eq!(receiver.usage().0, (2, 3));
    assert!(first.same_channel(&second));
    assert_eq!(receiver.try_recv().0, Ok(1));
    assert_eq!(receiver.try_recv().0, Ok(2));
    assert_eq!(receiver.try_recv().0, Err(TryRecvError::Empty));
    first.release();
    drop(second);
    assert_eq!(receiver.try_recv().0, Err(TryRecvError::Disconnected));

    let (_, latest) = mailbox(&Mailbox::<u8>::latest(), 9);
    assert!(matches!(latest, MailboxReceiver::Conflating(_)));
    assert_eq!(latest.usage().0, (0, 1));
    let (_, keyed) = mailbox(&Mailbox::<u8>::latest_by_key(4, |message: &u8| *message), 4);
    assert_eq!(keyed.usage().0, (0, 4));
}

#[test]
fn own_capacities_win() {
    assert_eq!(Mailbox::<u8>::inherited_queue().capacity_or(8), 8);
    assert_eq!(Mailbox::<u8>::queue(2).capacity_or(8), 2);
    assert_eq!(Mailbox::<u8>::latest().clone().capacity_or(8), 1);
}

#[test]
fn queue_slots_are_settled() {
    assert_eq!(queue_rejection(SlotState::Held, true), None);
    let closed = Some((SendErrorKind::NotRunning, MessageRejection::MailboxClosed));
    assert_eq!(queue_rejection(SlotState::Held, false), closed);
    assert_eq!(queue_rejection(SlotState::Closed, true), closed);
    assert_eq!(
        queue_rejection(SlotState::Full, true),
        Some((SendErrorKind::Full, MessageRejection::MailboxFull))
    );
    assert_eq!(settle_reservation(true, true, false), SlotVerdict::Fill);
    assert_eq!(settle_reservation(true, true, true), SlotVerdict::Timeout);
    assert_eq!(settle_reservation(true, false, true), SlotVerdict::Closed);
    assert_eq!(settle_reservation(false, true, false), SlotVerdict::Closed);
    assert_eq!(occupied(5, 2), 3);
    assert_eq!(occupied(2, 5), 0);
}

#[test]
fn deadlines_saturate() {
    assert_eq!(deadline_after(5, 7), 12);
    assert_eq!(deadline_after(5, u64::MAX), 5 + FAR_FUTURE);
    assert_eq!(deadline_after(u64::MAX - 1, u64::MAX), u64::MAX);
    assert_eq!(deadline_after(0, BEYOND_TIME), FAR_FUTURE);
    assert_eq!(deadline_after(5, BEYOND_TIME - 1), u64::MAX);
    assert_eq!(deadline_after(1, BEYOND_TIME - 2), BEYOND_TIME - 1);
    assert_eq!(FAR_FUTURE, 30 * 365 * 86_400 * 1_000_000_000);
    assert!(reached(12, 12));
    assert!(!reached(11, 12));
}

#[test]
fn mailbox_policies_describe_themselves() {
    assert_eq!(Mailbox::<u8>::queue(3).to_debug_string(), "Queue { capacity: Some(3) }");
    assert_eq!(Mailbox::<u8>::inherited_queue().to_debug_string(), "Queue { capacity: None }");
    assert_eq!(Mailbox::<u8>::latest().to_debug_string(), "Latest");
    assert_eq!(
        Mailbox::<u8>::latest_by_key(2, |message: &u8| *message).to_debug_string(),
        "LatestByKey { capacity: Some(2) }"
    );
}

#[test]
fn handles_of_one_mailbox_know_each_other() {
    for mode in [Mailbox::<u8>::queue(1), Mailbox::latest()] {
        let (sender, _receiver) = mailbox(&mode, 1);
        let (stranger, _other) = mailbox(&mode, 1);
        let twin = sender.share();
        assert!(sender.same_channel(&twin));
        assert!(!sender.same_channel(&stranger));
        twin.release();
    }
    let (queue, _queue_receiver) = mailbox(&Mailbox::<u8>::queue(1), 1);
    let (latest, _latest_receiver) = mailbox(&Mailbox::<u8>::latest(), 1);
    assert!(!queue.same_channel(&latest));
}

#[test]
fn a_send_in_time_is_a_plain_send() {
    let clock = Clock::start();
    let mut plain = ConflatingState::new(2, by_letter());
    let mut bounded = ConflatingState::new(2, by_letter());
    for message in [('a', 1), ('b', 2), ('a', 3), ('c', 4)] {
        let expected = conflated(&mut plain, message);
        let outcome = bounded.send_until(message, FAR_FUTURE, &clock).0;
        assert!(matches!(
            outcome,
            TimedSendOutcome::Accepted { conflated } if Some(conflated) == expected
        ));
    }
    assert!(matches!(bounded.send_until(('d', 5), 0, &clock).0, TimedSendOutcome::Timeout(('d', 5))));
    assert_eq!(unread(&mut plain), unread(&mut bounded));
}

#[test]
fn a_full_queue_takes_again_once_it_was_read() {
    let (sender, mut receiver) = mailbox(&Mailbox::<u8>::queue(2), 2);
    let target = MailboxRef::new("a".to_owned(), sender);
    for message in [1, 2] {
        let (sent, receipt) = target.try_send(message);
        assert_eq!(sent.ok(), Some(0));
        assert!(matches!(
            receipt,
            TryReceipt::Queue { attempt: Some(_), handed: Some(_), .. }
        ));
    }
    let (full, receipt) = target.try_send(3);
    let full = full.unwrap_err();
    assert_eq!((full.error.message, full.error.kind), (3, SendErrorKind::Full));
    assert_eq!(full.rejection, MessageRejection::MailboxFull);
    assert!(matches!(receipt, TryReceipt::Queue { attempt: Some(_), handed: None, .. }));
    assert_eq!(receiver.usage().0, (2, 2));

    let (first, receipt) = receiver.try_recv();
    assert_eq!(first, Ok(1));
    assert!(matches!(receipt, RecvReceipt::Queue(_)));
    assert_eq!(target.try_send(4).0.ok(), Some(0));

    assert!(matches!(receiver.close_external(), CloseReceipt::Queue(_)));
    let (closed, receipt) = target.try_send(5);
    let closed = closed.unwrap_err();
    assert_eq!((closed.error.message, closed.error.kind), (5, SendErrorKind::NotRunning));
    assert_eq!(closed.rejection, MessageRejection::MailboxClosed);
    assert!(matches!(receipt, TryReceipt::Queue { attempt: None, handed: None, .. }));
    assert_eq!(receiver.try_recv().0, Ok(2));
    assert_eq!(receiver.try_recv().0, Ok(4));
    assert_eq!(receiver.try_recv().0, Err(TryRecvError::Empty));
    assert!(target.release().is_none());
}

#[test]
fn a_gone_receiver_refuses_after_the_attempt() {
    let (sender, receiver) = mailbox(&Mailbox::<u8>::queue(1), 1);
    let target = MailboxRef::new("a".to_owned(), sender);
    drop(receiver);
    let (refused, receipt) = target.try_send(1);
    assert_eq!(refused.unwrap_err().error.kind, SendErrorKind::NotRunning);
    assert!(matches!(receipt, TryReceipt::Queue { attempt: Some(_), handed: None, .. }));
}

#[test]
fn a_latest_wins_mailbox_signals_what_changed() {
    let (sender, mut receiver) = mailbox(&Mailbox::<u8>::latest(), 1);
    let target = MailboxRef::new("a".to_owned(), sender);
    let twin = target.share();
    let (sent, receipt) = target.try_send(1);
    assert_eq!(sent.ok(), Some(0));
    assert!(matches!(receipt, TryReceipt::Latest(LatestReceipt { wake: Some(_), .. })));
    assert_eq!(twin.try_send(2).0.ok(), Some(1));
    assert!(matches!(receiver.close_external(), CloseReceipt::Latest(_)));
    let (refused, receipt) = target.try_send(3);
    assert_eq!(refused.unwrap_err().error.message, 3);
    assert!(matches!(receipt, TryReceipt::Latest(LatestReceipt { wake: None, .. })));
    let (message, receipt) = receiver.try_recv();
    assert_eq!(message, Ok(2));
    assert!(matches!(receipt, RecvReceipt::Latest(_)));

    let given_up = twin.release().expect("a latest-wins mailbox is told");
    assert!(given_up.wake.is_none());
    assert_eq!(receiver.try_recv().0, Err(TryRecvError::Empty));
    let last = target.release().expect("a latest-wins mailbox is told");
    assert!(last.wake.is_some());
    assert_eq!(receiver.try_recv().0, Err(TryRecvError::Disconnected));
}

#[test]
fn a_polled_queue_hands_out_messages_in_order() {
    let (sender, receiver) = mailbox(&Mailbox::<u8>::queue(2), 2);
    let target = MailboxRef::new("a".to_owned(), sender);
    let mut queue = match receiver {
        MailboxReceiver::Queue { receiver, .. } => receiver,
        MailboxReceiver::Conflating(_) => panic!("the mailbox is a queue"),
    };
    let mut cx = Context::from_waker(Waker::noop());
    assert!(matches!(queue.poll_recv(&mut cx).0, Polled::Pending));
    assert!(target.try_send(1).0.is_ok());
    assert!(target.try_send(2).0.is_ok());
    assert!(matches!(queue.poll_recv(&mut cx).0, Polled::Message(1)));
    drop(target);
    assert!(matches!(queue.poll_recv(&mut cx).0, Polled::Message(2)));
    assert!(matches!(queue.poll_recv(&mut cx).0, Polled::Closed));
}
