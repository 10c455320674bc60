//! What latest-wins mailboxes do to the messages they hold.
use vstd::prelude::*;

use crate::callbacks::KeyMatcher;
use crate::mailbox::{
    compares_by, conflated, keys_are_distinct, ConflatingState, Mailbox, SendOutcome, Ticks,
    TimedSendOutcome, TryRecvError,
};

verus! {

/// A message with a new key goes behind every unread message, and these keep
/// their order: what is left of them is followed by the message. One of them is
/// given up only where the mailbox is full, and then the longest-waiting one.
pub proof fn law_new_keys_queue_up<M>(messages: Seq<M>, capacity: usize, message: M)
    requires
        messages.len() <= capacity,
        capacity >= 1,
    ensures
        messages.len() < capacity ==> conflated(messages, capacity, true, None, message) == (
            messages + seq![message],
            0u64,
        ),
        messages.len() == capacity ==> conflated(messages, capacity, true, None, message) == (
            messages.skip(1) + seq![message],
            1u64,
        ),
{
    assert(messages.push(message) =~= messages + seq![message]);
    if messages.len() == capacity {
        assert(messages.drop_first().push(message) =~= messages.skip(1) + seq![message]);
    }
}

/// A message with a known key takes the place of the unread message with that
/// key, and every other message stays where it is.
pub proof fn law_known_keys_keep_their_place<M>(
    messages: Seq<M>,
    capacity: usize,
    keyed: bool,
    i: int,
    message: M,
)
    requires
        0 <= i < messages.len(),
    ensures
        ({
            let (after, replaced) = conflated(messages, capacity, keyed, Some(i), message);
            &&& replaced == 1
            &&& after.len() == messages.len()
            &&& after[i] == message
            &&& forall|j: int|
                0 <= j < messages.len() && j != i ==> #[trigger] after[j] == messages[j]
        }),
{
}

/// Two messages that arrive one after the other under new keys are read in that
/// order, behind what was there.
pub proof fn law_keys_are_read_in_order_of_arrival<M>(
    messages: Seq<M>,
    capacity: usize,
    first: M,
    second: M,
)
    requires
        messages.len() + 2 <= capacity,
    ensures
        ({
            let one = conflated(messages, capacity, true, None, first).0;
            let two = conflated(one, capacity, true, None, second).0;
            &&& two == messages + seq![first, second]
        }),
{
    let one = conflated(messages, capacity, true, None, first).0;
    let two = conflated(one, capacity, true, None, second).0;
    assert(two =~= messages + seq![first, second]);
}

/// Everything about a mailbox but its messages is as before.
pub open spec fn only_messages_change<M>(
    before: ConflatingState<M>,
    after: ConflatingState<M>,
) -> bool {
    &&& after.capacity == before.capacity
    &&& after.key_matches == before.key_matches
    &&& after.sender_count == before.sender_count
    &&& after.receiver_closed == before.receiver_closed
    &&& after.accepting_external == before.accepting_external
}

/// A mailbox takes a message exactly while its receiver is there and sends from
/// outside are taken; otherwise it returns the message and holds what it held.
pub proof fn law_open_mailboxes_accept<M>(
    before: ConflatingState<M>,
    message: M,
    outcome: SendOutcome<M>,
    after: ConflatingState<M>,
)
    requires
        before.sends(message, outcome, after),
    ensures
        outcome is Accepted <==> !before.receiver_closed && before.accepting_external,
        outcome matches SendOutcome::Closed(returned) ==> returned == message
            && after.messages@ == before.messages@,
        only_messages_change(before, after),
{
}

/// A mailbox without keys holds the newest message alone.
pub proof fn law_one_slot_holds_the_newest<M>(
    before: ConflatingState<M>,
    message: M,
    outcome: SendOutcome<M>,
    after: ConflatingState<M>,
)
    requires
        before.sends(message, outcome, after),
        outcome is Accepted,
        before.key_matches is None,
        before.messages@.len() <= 1,
    ensures
        after.messages@ == seq![message],
        outcome->conflated == before.messages@.len(),
{
    assert(after.messages@ =~= seq![message]);
}

/// A keyed mailbox: a message replaces the unread one with its key where it
/// stands, and otherwise goes behind the others, in place of the oldest if the
/// mailbox is full. The count of replaced messages tells the two apart.
pub proof fn law_keyed_slots_hold_the_newest<M, K>(
    before: ConflatingState<M>,
    key_matches: KeyMatcher<M>,
    key: spec_fn(M) -> K,
    message: M,
    outcome: SendOutcome<M>,
    after: ConflatingState<M>,
)
    requires
        before.sends(message, outcome, after),
        outcome is Accepted,
        before.key_matches == Some(key_matches),
        compares_by(key_matches, key),
        keys_are_distinct(before.messages@, key),
        1 <= before.capacity,
        before.messages@.len() <= before.capacity,
    ensures
        forall|i: int|
            0 <= i < before.messages@.len() && key(#[trigger] before.messages@[i]) == key(message)
                ==> after.messages@ == before.messages@.update(i, message) && outcome->conflated
                == 1,
        (forall|i: int|
            0 <= i < before.messages@.len() ==> key(#[trigger] before.messages@[i]) != key(message))
            && before.messages@.len() < before.capacity ==> after.messages@ == before.messages@
            + seq![message] && outcome->conflated == 0,
        (forall|i: int|
            0 <= i < before.messages@.len() ==> key(#[trigger] before.messages@[i]) != key(message))
            && before.messages@.len() == before.capacity ==> after.messages@
            == before.messages@.skip(1) + seq![message] && outcome->conflated == 1,
{
    let messages = before.messages@;
    let replaced = outcome->conflated;
    let matched = choose|matched: Option<int>|
        {
            &&& #[trigger] crate::mailbox::resolves(messages, Some(key_matches), message, matched)
            &&& (after@, replaced) == conflated(
                messages,
                before.capacity,
                true,
                matched,
                message,
            )
        };
    assert forall|i: int|
        0 <= i < messages.len() && key(#[trigger] messages[i]) == key(
            message,
        ) implies after.messages@ == messages.update(i, message) && replaced == 1 by {
        match matched {
            Some(k) => {
                assert(key_matches.answers(messages[k], message, true));
                assert(key(messages[k]) == key(messages[i]));
            },
            None => {
                assert(key_matches.answers(messages[i], message, false));
            },
        }
    }
    if forall|i: int| 0 <= i < messages.len() ==> key(#[trigger] messages[i]) != key(message) {
        if let Some(k) = matched {
            assert(key_matches.answers(messages[k], message, true));
        }
        law_new_keys_queue_up(messages, before.capacity, message);
    }
}

/// A receiver reads the oldest unread message first. An empty mailbox is
/// disconnected once its receiver is closed or no sender is left, and merely
/// empty before.
pub proof fn law_the_oldest_is_read_first<M>(
    before: ConflatingState<M>,
    received: Result<M, TryRecvError>,
    after: ConflatingState<M>,
)
    requires
        before.receives(received, after),
    ensures
        received matches Ok(message) ==> before.messages@ == seq![message] + after.messages@,
        received is Ok <==> before.messages@.len() > 0,
        received is Err ==> after.messages@ == before.messages@,
        received == Err::<M, TryRecvError>(TryRecvError::Disconnected)
            <==> before.messages@.len() == 0 && (before.receiver_closed || before.sender_count == 0),
        only_messages_change(before, after),
{
    if received is Ok {
        assert(before.messages@ =~= seq![received->Ok_0] + after.messages@);
    }
}

/// A message that a send puts into an empty mailbox is what the next read gives.
pub proof fn law_a_read_gives_what_was_sent<M>(
    before: ConflatingState<M>,
    message: M,
    outcome: SendOutcome<M>,
    between: ConflatingState<M>,
    received: Result<M, TryRecvError>,
    after: ConflatingState<M>,
)
    requires
        before.sends(message, outcome, between),
        between.receives(received, after),
        outcome is Accepted,
        before.messages@.len() == 0,
        before.capacity >= 1,
    ensures
        received == Ok::<M, TryRecvError>(message),
        after.messages@.len() == 0,
{
}

/// A bounded send by the readings of its clock: it is accepted only where the
/// mailbox is open and both readings are before the deadline, times out where it
/// is open and one is not, and otherwise stores and reports what a plain send
/// does.
pub proof fn law_late_messages_are_returned<M>(
    before: ConflatingState<M>,
    clock: crate::clock::Clock,
    message: M,
    deadline: u64,
    outcome: TimedSendOutcome<M>,
    ticks: Ticks,
    after: ConflatingState<M>,
)
    requires
        before.sends_by(clock, message, deadline, outcome, ticks, after),
    ensures
        outcome is Closed <==> before.receiver_closed || !before.accepting_external,
        outcome is Accepted ==> {
            &&& ticks.early matches Some(early) && early.clock() == clock && early.time()
                < deadline
            &&& ticks.late matches Some(late) && late.clock() == clock && late.time() < deadline
        },
        outcome is Timeout ==> {
            ||| ticks.early matches Some(early) && early.clock() == clock && early.time()
                >= deadline
            ||| ticks.late matches Some(late) && late.clock() == clock && late.time() >= deadline
        },
        outcome matches TimedSendOutcome::Timeout(returned) ==> returned == message
            && after.messages@ == before.messages@,
        outcome matches TimedSendOutcome::Closed(returned) ==> returned == message
            && after.messages@ == before.messages@,
        outcome matches TimedSendOutcome::Accepted { conflated } ==> before.sends(
            message,
            SendOutcome::Accepted { conflated },
            after,
        ),
        only_messages_change(before, after),
{
}

/// Senders are counted one by one, and nothing else changes.
pub proof fn law_senders_are_counted<M>(state: ConflatingState<M>)
    ensures
        state.sender_count < usize::MAX ==> state.with_sender().sender_count == state.sender_count
            + 1,
        state.sender_count > 0 ==> state.without_sender().sender_count + 1 == state.sender_count,
        state.sender_count == usize::MAX ==> state.with_sender() == state,
        state.sender_count == 0 ==> state.without_sender() == state,
        state.with_sender().messages == state.messages,
        state.without_sender().messages == state.messages,
        state.sender_count < usize::MAX ==> state.with_sender().without_sender() == state,
        state.with_sender().receiver_closed == state.receiver_closed,
        state.with_sender().accepting_external == state.accepting_external,
{
}

/// A new mailbox is open, empty and has its one sender.
pub proof fn law_new_mailboxes_are_open<M>(
    state: ConflatingState<M>,
    capacity: usize,
    key_matches: Option<KeyMatcher<M>>,
)
    requires
        state.is_new(capacity, key_matches),
    ensures
        state.messages@.len() == 0,
        state.capacity == capacity,
        state.key_matches == key_matches,
        state.sender_count == 1,
        !state.receiver_closed,
        state.accepting_external,
{
}

/// A mailbox that declares its capacity has it whatever the default is; the
/// default is used where it declares none.
pub proof fn law_declared_capacities_stand<M>(mailbox: Mailbox<M>, default: usize, other: usize)
    ensures
        mailbox.capacity matches Some(own) ==> mailbox.slots_or(default) == own
            && mailbox.slots_or(default) == mailbox.slots_or(other),
        mailbox.capacity is None ==> mailbox.slots_or(default) == default,
{
}

/// The last sender is the one after which none is left.
pub proof fn law_the_last_sender<M>(
    state: ConflatingState<M>,
    last: bool,
    after: ConflatingState<M>,
)
    requires
        state.sender_count > 0,
        state.loses_sender(last, after),
    ensures
        last <==> after.sender_count == 0,
        after.sender_count + 1 == state.sender_count,
        after.messages == state.messages && after.capacity == state.capacity
            && after.receiver_closed == state.receiver_closed && after.accepting_external
            == state.accepting_external,
{
}

/// A message replaces the first unread one of its key, and none exactly where no
/// unread one has it: for every two keys the matcher gives one answer.
pub proof fn law_the_first_of_a_key_is_replaced<M>(
    messages: Seq<M>,
    message: M,
    key_matches: KeyMatcher<M>,
    matched: Option<int>,
    i: int,
)
    requires
        crate::mailbox::first_match(messages, message, key_matches, matched),
        0 <= i < messages.len(),
        forall|left: M, right: M|
            !(#[trigger] key_matches.answers(left, right, true) && key_matches.answers(
                left,
                right,
                false,
            )),
    ensures
        key_matches.answers(messages[i], message, true) ==> matched is Some && matched->0 <= i,
        matched is Some ==> 0 <= matched->0 < messages.len() && key_matches.answers(
            messages[matched->0],
            message,
            true,
        ),
{
    if key_matches.answers(messages[i], message, true) {
        assert(!key_matches.answers(messages[i], message, false));
    }
}

} // verus!
