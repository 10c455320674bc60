//! Mailboxes: FIFO queues with backpressure and latest-wins slots.
use std::collections::VecDeque;
use vstd::prelude::*;
#[allow(unused_imports)]
use vstd::std_specs::cmp::PartialEqSpec;

use crate::callbacks::KeyMatcher;
use crate::clock::{Clock, Tick};
use crate::error::SendError;

verus! {

/// How a mailbox stores unread messages.
#[derive(Clone, Copy, Debug, PartialEq, Eq, Structural)]
pub enum MailboxKind {
    /// First in, first out.
    Queue,
    /// One latest-wins slot.
    Latest,
    /// One latest-wins slot per key.
    LatestByKey,
}

/// A storage policy, with what tells the slots of a keyed mailbox apart.
#[verifier::reject_recursive_types(M)]
pub enum MailboxPolicy<M> {
    /// First in, first out.
    Queue,
    /// One latest-wins slot.
    Latest,
    /// One latest-wins slot per key.
    LatestByKey {
        /// Tells whether two messages have the same key.
        key_matches: KeyMatcher<M>,
    },
}

/// Configures how an actor stores unread messages.
///
/// FIFO [`queue`](Self::queue) mailboxes apply backpressure at their capacity.
/// Latest-wins mailboxes never wait for capacity: they replace stale unread
/// state and are intended for idempotent snapshots, not commands.
#[verifier::reject_recursive_types(M)]
pub struct Mailbox<M> {
    /// Storage policy.
    pub policy: MailboxPolicy<M>,
    /// Own capacity, or `None` to take the scope's.
    pub capacity: Option<usize>,
}

/// The decimal digit for `n`.
pub open spec fn digit(n: nat) -> Seq<char> {
    seq![(n + ('0' as nat)) as char]
}

/// `n` in decimal.
pub open spec fn decimal(n: nat) -> Seq<char>
    decreases n,
{
    if n < 10 {
        digit(n)
    } else {
        decimal(n / 10) + digit(n % 10)
    }
}

/// Text of an optional capacity.
pub open spec fn capacity_text(capacity: Option<usize>) -> Seq<char> {
    match capacity {
        None => "None"@,
        Some(capacity) => "Some("@ + decimal(capacity as nat) + ")"@,
    }
}

/// Returns the decimal digit for `n`.
fn digit_str(n: u64) -> (text: &'static str)
    requires
        n < 10,
    ensures
        text@ == digit(n as nat),
{
    proof {
        reveal_strlit("0");
        reveal_strlit("1");
        reveal_strlit("2");
        reveal_strlit("3");
        reveal_strlit("4");
        reveal_strlit("5");
        reveal_strlit("6");
        reveal_strlit("7");
        reveal_strlit("8");
        reveal_strlit("9");
    }
    let text: &'static str = match n {
        0 => "0",
        1 => "1",
        2 => "2",
        3 => "3",
        4 => "4",
        5 => "5",
        6 => "6",
        7 => "7",
        8 => "8",
        _ => "9",
    };
    assert(text@ =~= digit(n as nat));
    text
}

/// Appends `n` in decimal.
pub(crate) fn append_decimal(text: &mut String, n: u64)
    ensures
        final(text)@ == old(text)@ + decimal(n as nat),
    decreases n,
{
    if n >= 10 {
        append_decimal(text, n / 10);
        text.append(digit_str(n % 10));
        assert(text@ =~= old(text)@ + decimal(n as nat));
    } else {
        text.append(digit_str(n));
    }
}

/// Writes an optional capacity.
fn capacity_string(capacity: Option<usize>) -> (text: String)
    ensures
        text@ == capacity_text(capacity),
{
    match capacity {
        None => "None".to_owned(),
        Some(capacity) => {
            let mut text = "Some(".to_owned();
            append_decimal(&mut text, capacity as u64);
            text.append(")");
            text
        },
    }
}

impl<M> Mailbox<M> {
    /// How the mailbox stores unread messages.
    pub open spec fn storage(&self) -> MailboxKind {
        match self.policy {
            MailboxPolicy::Queue => MailboxKind::Queue,
            MailboxPolicy::Latest => MailboxKind::Latest,
            MailboxPolicy::LatestByKey { .. } => MailboxKind::LatestByKey,
        }
    }

    /// Returns how the mailbox stores unread messages.
    pub fn kind(&self) -> (kind: MailboxKind)
        ensures
            kind == self.storage(),
    {
        match &self.policy {
            MailboxPolicy::Queue => MailboxKind::Queue,
            MailboxPolicy::Latest => MailboxKind::Latest,
            MailboxPolicy::LatestByKey { .. } => MailboxKind::LatestByKey,
        }
    }

    /// Describes the policy for debugging.
    pub fn to_debug_string(&self) -> (text: String)
        ensures
            text@ == match self.storage() {
                MailboxKind::Queue => "Queue { capacity: "@ + capacity_text(self.capacity) + " }"@,
                MailboxKind::Latest => "Latest"@,
                MailboxKind::LatestByKey => "LatestByKey { capacity: "@ + capacity_text(
                    self.capacity,
                ) + " }"@,
            },
    {
        let mut text = match self.kind() {
            MailboxKind::Queue => "Queue { capacity: ".to_owned(),
            MailboxKind::Latest => {
                return "Latest".to_owned();
            },
            MailboxKind::LatestByKey => "LatestByKey { capacity: ".to_owned(),
        };
        let capacity = capacity_string(self.capacity);
        text.append(capacity.as_str());
        text.append(" }");
        text
    }

    /// Creates a bounded FIFO queue.
    pub fn queue(capacity: usize) -> (mailbox: Self)
        ensures
            mailbox == (Mailbox::<M> { policy: MailboxPolicy::Queue, capacity: Some(capacity) }),
    {
        Mailbox { policy: MailboxPolicy::Queue, capacity: Some(capacity) }
    }

    /// One latest-wins slot for the whole mailbox.
    pub fn latest() -> (mailbox: Self)
        ensures
            mailbox == (Mailbox::<M> { policy: MailboxPolicy::Latest, capacity: Some(1usize) }),
    {
        Mailbox { policy: MailboxPolicy::Latest, capacity: Some(1) }
    }

    /// Creates a keyed latest-wins mailbox that groups messages by `key`: one
    /// latest unread message per key, at most `capacity` of them.
    pub fn latest_by_key<K, F>(capacity: usize, key: F) -> (mailbox: Self) where
        K: Eq,
        F: Fn(&M) -> K + Send + Sync + 'static,

        requires
            crate::callbacks::is_key::<M, K, F>(key),
        ensures
            mailbox.capacity == Some(capacity),
            mailbox.policy matches MailboxPolicy::LatestByKey { key_matches } && forall|
                left: M,
                right: M,
                same: bool,
            | #[trigger]
                key_matches.answers(left, right, same) ==> crate::callbacks::keys_compare(
                    &key,
                    left,
                    right,
                    same,
                ),
    {
        let key_matches = KeyMatcher::by_key(key);
        Mailbox { policy: MailboxPolicy::LatestByKey { key_matches }, capacity: Some(capacity) }
    }

    /// A FIFO queue with the capacity of its scope.
    pub fn inherited_queue() -> (mailbox: Self)
        ensures
            mailbox == (Mailbox::<M> { policy: MailboxPolicy::Queue, capacity: None }),
    {
        Mailbox { policy: MailboxPolicy::Queue, capacity: None }
    }

    /// The own capacity, or `default`.
    pub open spec fn slots_or(&self, default: usize) -> usize {
        match self.capacity {
            Some(own) => own,
            None => default,
        }
    }

    /// Returns the own capacity, or `default` where there is none.
    pub fn capacity_or(&self, default: usize) -> (capacity: usize)
        ensures
            capacity == self.slots_or(default),
    {
        match self.capacity {
            Some(own) => own,
            None => default,
        }
    }
}

impl<M> Clone for Mailbox<M> {
    fn clone(&self) -> (mailbox: Self)
        ensures
            mailbox == *self,
    {
        let policy = match &self.policy {
            MailboxPolicy::Queue => MailboxPolicy::Queue,
            MailboxPolicy::Latest => MailboxPolicy::Latest,
            MailboxPolicy::LatestByKey { key_matches } => MailboxPolicy::LatestByKey {
                key_matches: key_matches.clone(),
            },
        };
        Mailbox { policy, capacity: self.capacity }
    }
}

/// Outcome of an awaited send to one mailbox.
pub enum SendOutcome<M> {
    /// The mailbox took the message.
    Accepted {
        /// Unread messages it replaced.
        conflated: u64,
    },
    /// The mailbox no longer takes messages.
    Closed(M),
}

/// Outcome of a bounded send to one mailbox.
pub enum TimedSendOutcome<M> {
    /// The mailbox took the message.
    Accepted {
        /// Unread messages it replaced.
        conflated: u64,
    },
    /// The mailbox no longer takes messages.
    Closed(M),
    /// The deadline was reached first.
    Timeout(M),
}

/// Mailbox-level reason of a rejected send.
///
/// A `NotRunning` error can mean that there is no live binding or that a
/// mailbox was resolved just before it closed; this keeps the two apart.
#[derive(Clone, Copy, Debug, PartialEq, Eq, Structural)]
pub enum MessageRejection {
    /// No live incarnation is bound.
    NotRunning,
    /// The membership is over.
    ActorTerminated,
    /// The queue has no room.
    MailboxFull,
    /// The mailbox no longer takes messages.
    MailboxClosed,
    /// The deadline was reached.
    Timeout,
}

/// A rejected immediate send.
pub struct TrySendFailure<M> {
    /// What the caller sees.
    pub error: SendError<M>,
    /// Exact mailbox-level rejection for telemetry.
    pub rejection: MessageRejection,
}

/// Outcome of an immediate receive.
#[derive(Clone, Copy, Debug, PartialEq, Eq, Structural)]
pub enum TryRecvError {
    /// Nothing is queued.
    Empty,
    /// Nothing is queued and nothing can come.
    Disconnected,
}

/// Contents of a latest-wins mailbox after `message`, and how many unread
/// messages it replaced.
///
/// A keyed mailbox replaces the message at the matching position, and for a
/// new key appends, evicting the oldest message once all slots are taken. An
/// unkeyed one has a single slot.
pub open spec fn conflated<M>(
    messages: Seq<M>,
    capacity: usize,
    keyed: bool,
    matched: Option<int>,
    message: M,
) -> (Seq<M>, u64) {
    match matched {
        Some(i) => (messages.update(i, message), 1),
        None => if keyed {
            if messages.len() == capacity {
                (tail(messages).push(message), 1)
            } else {
                (messages.push(message), 0)
            }
        } else if messages.len() == 0 {
            (messages.push(message), 0)
        } else {
            (messages.update(0, message), 1)
        },
    }
}

/// All but the oldest message.
pub open spec fn tail<M>(messages: Seq<M>) -> Seq<M> {
    if messages.len() == 0 {
        messages
    } else {
        messages.drop_first()
    }
}

/// `matched` is the first queued message whose key equals that of `message`,
/// as `key_matches` tells.
pub open spec fn first_match<M>(
    messages: Seq<M>,
    message: M,
    key_matches: KeyMatcher<M>,
    matched: Option<int>,
) -> bool {
    match matched {
        Some(i) => {
            &&& 0 <= i < messages.len()
            &&& key_matches.answers(messages[i], message, true)
            &&& forall|j: int|
                0 <= j < i ==> key_matches.answers(#[trigger] messages[j], message, false)
        },
        None => forall|j: int|
            0 <= j < messages.len() ==> key_matches.answers(
                #[trigger] messages[j],
                message,
                false,
            ),
    }
}

/// `matched` is where `message` replaces a queued message: by key in a keyed
/// mailbox, and nowhere in an unkeyed one.
pub open spec fn resolves<M>(
    messages: Seq<M>,
    key_matches: Option<KeyMatcher<M>>,
    message: M,
    matched: Option<int>,
) -> bool {
    match key_matches {
        Some(key_matches) => first_match(messages, message, key_matches, matched),
        None => matched is None,
    }
}

/// `after` and `replaced` are what a latest-wins mailbox holds once it has taken
/// `message`, and how many unread messages that replaced.
pub open spec fn takes<M>(
    messages: Seq<M>,
    capacity: usize,
    key_matches: Option<KeyMatcher<M>>,
    message: M,
    after: Seq<M>,
    replaced: u64,
) -> bool {
    exists|matched: Option<int>|
        {
            &&& #[trigger] resolves(messages, key_matches, message, matched)
            &&& (after, replaced) == conflated(
                messages,
                capacity,
                key_matches is Some,
                matched,
                message,
            )
        }
}

/// Receipt of the clock readings of a bounded send.
pub struct Ticks {
    /// Before the keys were compared.
    pub early: Option<Tick>,
    /// After that.
    pub late: Option<Tick>,
}

impl Ticks {
    /// The readings are of `clock`.
    pub open spec fn is_of(&self, clock: Clock) -> bool {
        &&& self.early matches Some(early) ==> early.clock() == clock
        &&& self.late matches Some(late) ==> late.clock() == clock
    }

    /// Time before the keys were compared, or the clock's origin.
    pub open spec fn early_time(&self) -> u64 {
        match self.early {
            Some(early) => early.time(),
            None => 0,
        }
    }

    /// Time after the keys were compared, or the clock's origin.
    pub open spec fn late_time(&self) -> u64 {
        match self.late {
            Some(late) => late.time(),
            None => 0,
        }
    }
}

/// State of a latest-wins mailbox.
#[verifier::reject_recursive_types(M)]
pub struct ConflatingState<M> {
    /// Unread messages, oldest first.
    pub messages: VecDeque<M>,
    /// Number of slots.
    pub capacity: usize,
    /// Tells the slots of a keyed mailbox apart.
    pub key_matches: Option<KeyMatcher<M>>,
    /// Live senders.
    pub sender_count: usize,
    /// Whether the receiver is gone.
    pub receiver_closed: bool,
    /// Whether sends from outside are taken.
    pub accepting_external: bool,
}

impl<M> View for ConflatingState<M> {
    type V = Seq<M>;

    open spec fn view(&self) -> Seq<M> {
        self.messages@
    }
}

impl<M> ConflatingState<M> {
    /// Everything but the messages is as in `other`.
    pub open spec fn same_settings(&self, other: &Self) -> bool {
        &&& self.capacity == other.capacity
        &&& self.key_matches == other.key_matches
        &&& self.sender_count == other.sender_count
        &&& self.receiver_closed == other.receiver_closed
        &&& self.accepting_external == other.accepting_external
    }

    /// Whether a send is taken.
    pub open spec fn open(&self) -> bool {
        !self.receiver_closed && self.accepting_external
    }

    /// The state of an open mailbox with one sender and no message.
    pub open spec fn is_new(&self, capacity: usize, key_matches: Option<KeyMatcher<M>>) -> bool {
        &&& self@ == Seq::<M>::empty()
        &&& self.capacity == capacity
        &&& self.key_matches == key_matches
        &&& self.sender_count == 1
        &&& self.open()
    }

    /// Creates the state of an open mailbox with one sender.
    pub fn new(capacity: usize, key_matches: Option<KeyMatcher<M>>) -> (state: Self)
        ensures
            state.is_new(capacity, key_matches),
    {
        ConflatingState {
            messages: VecDeque::new(),
            capacity,
            key_matches,
            sender_count: 1,
            receiver_closed: false,
            accepting_external: true,
        }
    }

    /// Reports whether a send is taken.
    pub fn is_open(&self) -> (open: bool)
        ensures
            open == self.open(),
    {
        !self.receiver_closed && self.accepting_external
    }

    /// Finds the queued message that `message` replaces by key.
    pub fn position(&self, message: &M) -> (matched: Option<usize>)
        ensures
            resolves(
                self@,
                self.key_matches,
                *message,
                match matched {
                    Some(i) => Some(i as int),
                    None => None,
                },
            ),
            matched matches Some(i) ==> i < self@.len(),
    {
        let key_matches = match &self.key_matches {
            Some(key_matches) => key_matches,
            None => {
                return None;
            },
        };
        let mut i: usize = 0;
        while i < self.messages.len()
            invariant
                i <= self@.len(),
                self.key_matches == Some(*key_matches),
                forall|j: int|
                    0 <= j < i ==> key_matches.answers(#[trigger] self@[j], *message, false),
            decreases self.messages.len() - i,
        {
            let queued = &self.messages[i];
            if key_matches.matches(queued, message) {
                return Some(i);
            }
            i += 1;
        }
        None
    }

    /// Stores `message`, at `matched` where a queued message has its key.
    /// Returns how many unread messages it replaced.
    pub fn accept(&mut self, matched: Option<usize>, message: M) -> (replaced: u64)
        requires
            matched matches Some(i) ==> i < old(self)@.len(),
        ensures
            final(self).same_settings(old(self)),
            (final(self)@, replaced) == conflated(
                old(self)@,
                old(self).capacity,
                old(self).key_matches is Some,
                match matched {
                    Some(i) => Some(i as int),
                    None => None,
                },
                message,
            ),
    {
        let ghost before = self@;
        if let Some(index) = matched {
            let _stale = self.messages.remove(index);
            self.messages.insert(index, message);
            assert(self@ =~= before.update(index as int, message));
            1
        } else if self.key_matches.is_some() {
            if self.messages.len() == self.capacity {
                let _evicted = self.messages.pop_front();
                assert(self@ =~= tail(before));
                self.messages.push_back(message);
                1
            } else {
                self.messages.push_back(message);
                0
            }
        } else if self.messages.len() == 0 {
            self.messages.push_back(message);
            0
        } else {
            let _stale = self.messages.pop_front();
            self.messages.push_front(message);
            assert(self@ =~= before.update(0, message));
            1
        }
    }

    /// The mailbox `after` a send of `message`, which had `outcome`: a closed
    /// mailbox returns the message, an open one stores it at once.
    pub open spec fn sends(&self, message: M, outcome: SendOutcome<M>, after: Self) -> bool {
        &&& after.same_settings(self)
        &&& match outcome {
            SendOutcome::Closed(returned) => !self.open() && returned == message && after@
                == self@,
            SendOutcome::Accepted { conflated: replaced } => self.open() && takes(
                self@,
                self.capacity,
                self.key_matches,
                message,
                after@,
                replaced,
            ),
        }
    }

    /// Sends `message`: a closed mailbox returns it, an open one stores it at
    /// once.
    pub fn send(&mut self, message: M) -> (outcome: SendOutcome<M>)
        ensures
            old(self).sends(message, outcome, *final(self)),
    {
        if !self.is_open() {
            return SendOutcome::Closed(message);
        }
        let matched = self.position(&message);
        let ghost position: Option<int> = match matched {
            Some(i) => Some(i as int),
            None => None,
        };
        assert(resolves(self@, self.key_matches, message, position));
        let conflated = self.accept(matched, message);
        SendOutcome::Accepted { conflated }
    }

    /// Settles a bounded send whose key position is known: the conditions of
    /// acceptance are checked right before the message is stored.
    pub fn offer(&mut self, matched: Option<usize>, message: M, elapsed: bool) -> (outcome:
        TimedSendOutcome<M>)
        requires
            matched matches Some(i) ==> i < old(self)@.len(),
        ensures
            final(self).same_settings(old(self)),
            outcome is Closed <==> !old(self).open(),
            outcome is Timeout <==> old(self).open() && elapsed,
            outcome matches TimedSendOutcome::Closed(returned) ==> returned == message,
            outcome matches TimedSendOutcome::Timeout(returned) ==> returned == message,
            outcome matches TimedSendOutcome::Accepted { conflated: replaced } ==> (
                final(self)@,
                replaced,
            ) == conflated(
                old(self)@,
                old(self).capacity,
                old(self).key_matches is Some,
                match matched {
                    Some(i) => Some(i as int),
                    None => None,
                },
                message,
            ),
            !(outcome is Accepted) ==> final(self)@ == old(self)@,
    {
        if !self.is_open() {
            return TimedSendOutcome::Closed(message);
        }
        if elapsed {
            return TimedSendOutcome::Timeout(message);
        }
        let conflated = self.accept(matched, message);
        TimedSendOutcome::Accepted { conflated }
    }

    /// The mailbox `after` a bounded send of `message`, which had `outcome`,
    /// where the clock read `early` before and `late` after the keys were
    /// compared. A late message is not accepted.
    pub open spec fn sends_until(
        &self,
        message: M,
        deadline: u64,
        early: u64,
        late: u64,
        outcome: TimedSendOutcome<M>,
        after: Self,
    ) -> bool {
        let elapsed = early >= deadline || late >= deadline;
        &&& after.same_settings(self)
        &&& match outcome {
            TimedSendOutcome::Closed(returned) => !self.open() && returned == message && after@
                == self@,
            TimedSendOutcome::Timeout(returned) => self.open() && elapsed && returned == message
                && after@ == self@,
            TimedSendOutcome::Accepted { conflated: replaced } => self.open() && !elapsed && takes(
                self@,
                self.capacity,
                self.key_matches,
                message,
                after@,
                replaced,
            ),
        }
    }

    /// The mailbox `after` a bounded send of `message`, which had `outcome`, by
    /// the readings of `clock`: one that is read at all is read before the keys
    /// are compared, and once more after that unless the deadline is reached.
    pub open spec fn sends_by(
        &self,
        clock: Clock,
        message: M,
        deadline: u64,
        outcome: TimedSendOutcome<M>,
        ticks: Ticks,
        after: Self,
    ) -> bool {
        &&& ticks.is_of(clock)
        &&& ticks.early is Some <==> self.open()
        &&& ticks.late is Some <==> ticks.early is Some && ticks.early_time() < deadline
        &&& self.sends_until(
            message,
            deadline,
            ticks.early_time(),
            ticks.late_time(),
            outcome,
            after,
        )
    }

    /// Sends `message` before `deadline`. Comparing keys is user code that can
    /// take any time, so the clock is read before and after it and a late
    /// message is not accepted.
    pub fn send_until(&mut self, message: M, deadline: u64, clock: &Clock) -> (sent: (
        TimedSendOutcome<M>,
        Ticks,
    ))
        ensures
            old(self).sends_by(*clock, message, deadline, sent.0, sent.1, *final(self)),
    {
        if !self.is_open() {
            return (TimedSendOutcome::Closed(message), Ticks { early: None, late: None });
        }
        let early = clock.read();
        if crate::clock::reached(early.nanos(), deadline) {
            let ticks = Ticks { early: Some(early), late: None };
            return (TimedSendOutcome::Timeout(message), ticks);
        }
        let matched = self.position(&message);
        let ghost position: Option<int> = match matched {
            Some(i) => Some(i as int),
            None => None,
        };
        assert(resolves(self@, self.key_matches, message, position));
        let late = clock.read();
        let elapsed = crate::clock::reached(late.nanos(), deadline);
        let outcome = self.offer(matched, message, elapsed);
        (outcome, Ticks { early: Some(early), late: Some(late) })
    }

    /// The mailbox `after` an attempt to take the oldest unread message, which
    /// came to `received`.
    pub open spec fn receives(&self, received: Result<M, TryRecvError>, after: Self) -> bool {
        &&& after.same_settings(self)
        &&& match received {
            Ok(message) => self@.len() > 0 && message == self@[0] && after@ == self@.drop_first(),
            Err(error) => {
                &&& self@.len() == 0
                &&& after@ == self@
                &&& error == if self.receiver_closed || self.sender_count == 0 {
                    TryRecvError::Disconnected
                } else {
                    TryRecvError::Empty
                }
            },
        }
    }

    /// Takes the oldest unread message.
    pub fn try_recv(&mut self) -> (received: Result<M, TryRecvError>)
        ensures
            old(self).receives(received, *final(self)),
    {
        match self.messages.pop_front() {
            Some(message) => {
                assert(self@ =~= old(self)@.drop_first());
                Ok(message)
            },
            None => if self.receiver_closed || self.sender_count == 0 {
                Err(TryRecvError::Disconnected)
            } else {
                Err(TryRecvError::Empty)
            },
        }
    }

    /// Stops taking sends from outside. Queued messages stay readable.
    pub fn close_external(&mut self)
        ensures
            *final(self) == (ConflatingState { accepting_external: false, ..*old(self) }),
            !final(self).open(),
    {
        self.accepting_external = false;
    }

    /// Records that the receiver is gone.
    pub fn close_receiver(&mut self)
        ensures
            *final(self) == (ConflatingState { receiver_closed: true, ..*old(self) }),
            !final(self).open(),
    {
        self.receiver_closed = true;
    }

    /// The mailbox with one more sender, unless no more can be counted.
    pub open spec fn with_sender(&self) -> Self {
        if self.sender_count < usize::MAX {
            ConflatingState { sender_count: (self.sender_count + 1) as usize, ..*self }
        } else {
            *self
        }
    }

    /// The mailbox with one sender less, where there is one.
    pub open spec fn without_sender(&self) -> Self {
        if self.sender_count > 0 {
            ConflatingState { sender_count: (self.sender_count - 1) as usize, ..*self }
        } else {
            *self
        }
    }

    /// Counts one more sender.
    pub fn add_sender(&mut self)
        requires
            old(self).sender_count < usize::MAX,
        ensures
            *final(self) == (ConflatingState {
                sender_count: (old(self).sender_count + 1) as usize,
                ..*old(self)
            }),
    {
        self.sender_count = self.sender_count + 1;
    }

    /// The state `after` a sender is gone.
    pub open spec fn loses_sender(&self, last: bool, after: Self) -> bool {
        &&& after == (ConflatingState {
            sender_count: (self.sender_count - 1) as usize,
            ..*self
        })
        &&& last == (self.sender_count == 1)
    }

    /// Counts one sender less. Reports whether it was the last one.
    pub fn remove_sender(&mut self) -> (last: bool)
        requires
            old(self).sender_count > 0,
        ensures
            old(self).loses_sender(last, *final(self)),
    {
        self.sender_count = self.sender_count - 1;
        self.sender_count == 0
    }

    /// Returns the number of unread messages and the capacity.
    pub fn usage(&self) -> (usage: (usize, usize))
        ensures
            usage.0 == self@.len(),
            usage.1 == self.capacity,
    {
        (self.messages.len(), self.capacity)
    }
}

/// A latest-wins mailbox stays within its slots and its newest message is
/// unread in it.
pub proof fn law_latest_wins<M>(
    messages: Seq<M>,
    capacity: usize,
    keyed: bool,
    matched: Option<int>,
    message: M,
)
    requires
        capacity >= 1,
        messages.len() <= capacity,
        !keyed ==> messages.len() <= 1 && matched is None,
        matched matches Some(i) ==> 0 <= i < messages.len(),
    ensures
        conflated(messages, capacity, keyed, matched, message).0.len() <= capacity,
        !keyed ==> conflated(messages, capacity, keyed, matched, message).0 == seq![message],
        conflated(messages, capacity, keyed, matched, message).0.contains(message),
        conflated(messages, capacity, keyed, matched, message).1 <= 1,
{
    let after = conflated(messages, capacity, keyed, matched, message).0;
    match matched {
        Some(i) => {
            assert(after[i] == message);
        },
        None => {
            if keyed || messages.len() == 0 {
                assert(after[after.len() - 1] == message);
            } else {
                assert(after[0] == message);
            }
        },
    }
    if !keyed {
        assert(after =~= seq![message]);
    }
}

/// `key_matches` tells whether two messages have the same `key`.
pub open spec fn compares_by<M, K>(key_matches: KeyMatcher<M>, key: spec_fn(M) -> K) -> bool {
    forall|a: M, b: M, same: bool| #[trigger]
        key_matches.answers(a, b, same) ==> same == (key(a) == key(b))
}

/// No two messages have the same key.
pub open spec fn keys_are_distinct<M, K>(messages: Seq<M>, key: spec_fn(M) -> K) -> bool {
    forall|i: int, j: int|
        0 <= i < messages.len() && 0 <= j < messages.len() && key(#[trigger] messages[i]) == key(
            #[trigger] messages[j],
        ) ==> i == j
}

/// A keyed mailbox holds one unread message per key: the newest. A message
/// keeps the keys distinct, is the one unread message of its key, and leaves
/// every other unread message alone but for the oldest one, which a new key
/// evicts from a full mailbox.
pub proof fn law_one_unread_message_per_key<M, K>(
    messages: Seq<M>,
    capacity: usize,
    key_matches: KeyMatcher<M>,
    key: spec_fn(M) -> K,
    matched: Option<int>,
    message: M,
)
    requires
        capacity >= 1,
        messages.len() <= capacity,
        keys_are_distinct(messages, key),
        compares_by(key_matches, key),
        resolves(messages, Some(key_matches), message, matched),
    ensures
        ({
            let after = conflated(messages, capacity, true, matched, message).0;
            &&& keys_are_distinct(after, key)
            &&& exists|i: int| 0 <= i < after.len() && #[trigger] after[i] == message
            &&& forall|i: int|
                0 <= i < after.len() && key(#[trigger] after[i]) == key(message) ==> after[i]
                    == message
            &&& forall|j: int|
                0 <= j < messages.len() && key(#[trigger] messages[j]) != key(message) && !(
                messages.len() == capacity && matched is None && j == 0) ==> after.contains(
                    messages[j],
                )
        }),
{
    let after = conflated(messages, capacity, true, matched, message).0;
    match matched {
        Some(i) => {
            assert(key_matches.answers(messages[i], message, true));
            assert(after[i] == message);
            assert forall|j: int| 0 <= j < messages.len() && j != i implies key(
                #[trigger] messages[j],
            ) != key(message) by {
                assert(key(messages[i]) == key(message));
            }
            assert forall|j: int|
                0 <= j < messages.len() && key(#[trigger] messages[j]) != key(
                    message,
                ) implies after.contains(messages[j]) by {
                assert(after[j] == messages[j]);
            }
        },
        None => {
            assert forall|j: int| 0 <= j < messages.len() implies key(#[trigger] messages[j])
                != key(message) by {
                assert(key_matches.answers(messages[j], message, false));
            }
            let kept = if messages.len() == capacity {
                tail(messages)
            } else {
                messages
            };
            let shift = messages.len() - kept.len();
            assert(after[kept.len() as int] == message);
            assert forall|j: int| 0 <= j < kept.len() implies #[trigger] after[j] == messages[j
                + shift] by {}
            assert forall|j: int| shift <= j < messages.len() implies after.contains(
                #[trigger] messages[j],
            ) by {
                assert(after[j - shift] == messages[j]);
            }
        },
    }
}

/// A message replaces an unread one exactly where their keys are equal: the
/// matcher of a mailbox that groups by `key` tells equal keys from others, as
/// long as `key` gives each message one key and `==` of the keys is equality.
pub proof fn law_messages_are_grouped_by_key<M, K: Eq, F: Fn(&M) -> K>(
    key_matches: KeyMatcher<M>,
    key: F,
    keys: spec_fn(M) -> K,
)
    requires
        forall|left: M, right: M, same: bool| #[trigger]
            key_matches.answers(left, right, same) ==> crate::callbacks::keys_compare(
                &key,
                left,
                right,
                same,
            ),
        forall|message: M, k: K| #[trigger] call_ensures(key, (&message,), k) ==> k == keys(
            message,
        ),
        K::obeys_eq_spec(),
        forall|a: K, b: K| #[trigger] a.eq_spec(&b) == (a == b),
    ensures
        compares_by(key_matches, keys),
{
    assert forall|a: M, b: M, same: bool| #[trigger]
        key_matches.answers(a, b, same) implies same == (keys(a) == keys(b)) by {
        assert(crate::callbacks::keys_compare(&key, a, b, same));
    }
}

/// A bounded send that finds the mailbox closed returns the message; one whose
/// deadline is reached before or after the keys are compared times out and
/// changes nothing; any other is the plain send.
pub proof fn law_send_in_time_is_a_plain_send<M>(
    before: ConflatingState<M>,
    message: M,
    deadline: u64,
    early: u64,
    late: u64,
    outcome: TimedSendOutcome<M>,
    after: ConflatingState<M>,
)
    requires
        before.sends_until(message, deadline, early, late, outcome, after),
    ensures
        outcome is Closed <==> !before.open(),
        outcome is Timeout <==> before.open() && (early >= deadline || late >= deadline),
        !(outcome is Accepted) ==> after@ == before@ && after.same_settings(&before),
        outcome matches TimedSendOutcome::Closed(returned) ==> returned == message
            && before.sends(message, SendOutcome::Closed(message), after),
        outcome matches TimedSendOutcome::Timeout(returned) ==> returned == message,
        outcome matches TimedSendOutcome::Accepted { conflated } ==> before.sends(
            message,
            SendOutcome::Accepted { conflated },
            after,
        ),
{
}

/// Accepted messages are conserved: each is unread or has replaced one.
pub proof fn law_conflation_is_counted<M>(
    messages: Seq<M>,
    capacity: usize,
    keyed: bool,
    matched: Option<int>,
    message: M,
)
    requires
        capacity >= 1,
        messages.len() <= capacity,
        matched matches Some(i) ==> 0 <= i < messages.len(),
    ensures
        conflated(messages, capacity, keyed, matched, message).0.len() + conflated(
            messages,
            capacity,
            keyed,
            matched,
            message,
        ).1 == messages.len() + 1,
{
}

/// The decimal text of a number reads back as the number.
pub proof fn law_decimals_read_back(n: nat)
    ensures
        decimal(n).len() > 0,
        value_of(decimal(n)) == n,
        n > 0 ==> decimal(n)[0] != '0',
    decreases n,
{
    reveal_with_fuel(value_of, 2);
    if n < 10 {
        let text = decimal(n);
        assert(text.drop_last() =~= Seq::<char>::empty());
        assert(text.last() as nat == n + ('0' as nat));
    } else {
        law_decimals_read_back(n / 10);
        let text = decimal(n);
        assert(text.drop_last() =~= decimal(n / 10));
        assert(text.last() as nat == n % 10 + ('0' as nat));
        assert(n == 10 * (n / 10) + n % 10);
        assert(text[0] == decimal(n / 10)[0]);
    }
}

/// The number that decimal digits stand for.
pub open spec fn value_of(text: Seq<char>) -> int
    decreases text.len(),
{
    if text.len() == 0 {
        0
    } else {
        10 * value_of(text.drop_last()) + (text.last() as int - '0' as int)
    }
}

} // verus!
