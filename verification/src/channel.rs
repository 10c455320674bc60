//! Mailbox handles: both ends of a bound mailbox, shared between tasks.
//!
//! A FIFO mailbox is a bounded Tokio channel. A latest-wins mailbox is a
//! [`ConflatingState`] behind a lock. Both are shared, so what is done to one
//! comes with a receipt, which the contracts speak of.
use std::sync::Arc;
use tokio::sync::Notify;
use vstd::prelude::*;

use crate::callbacks::KeyMatcher;
use crate::clock::Clock;
use crate::error::{SendError, SendErrorKind};
use crate::mailbox::{
    ConflatingState, Mailbox, MailboxPolicy, MessageRejection, SendOutcome, Ticks,
    TimedSendOutcome, TryRecvError, TrySendFailure,
};
use crate::transport::{
    flag_lower, flag_raised, lock_enter, lock_leave, lock_new, lock_value, queue_channel,
    queue_clone, queue_fill, queue_free, queue_len, queue_same_channel, queue_try_recv,
    queue_try_reserve, signal_new, signal_one, signal_waiters, Attempt, Flag, FlagLowered, FlagRead,
    Handed, Lock, QueueMoment, QueueReceiver, QueueSender, Reading, Reservation, Taken, Visit, Wake,
};

verus! {

/// What both ends of a latest-wins mailbox share.
#[verifier::reject_recursive_types(M)]
pub struct ConflatingShared<M> {
    /// What changes, behind the lock.
    state: Lock<ConflatingState<M>>,
    /// Tells of changes.
    notify: Notify,
    /// Number of slots, which never changes and needs no lock.
    capacity: usize,
}

impl<M> ConflatingShared<M> {
    /// The lock around what changes.
    pub closed spec fn lock(&self) -> Lock<ConflatingState<M>> {
        self.state
    }

    /// The signal that tells of changes.
    pub closed spec fn signal(&self) -> Notify {
        self.notify
    }
}

/// `std::sync::Arc::ptr_eq`: whether both share one mailbox. A lock stands for
/// itself, whatever it holds, so two mailboxes are never equal.
#[verifier::external_body]
fn shared_same<M>(a: &Arc<ConflatingShared<M>>, b: &Arc<ConflatingShared<M>>) -> (same: bool)
    ensures
        same == (*a == *b),
{
    Arc::ptr_eq(a, b)
}

/// Receipt of what was done to a latest-wins mailbox.
#[verifier::reject_recursive_types(M)]
pub struct LatestReceipt<M> {
    /// The state before and after.
    pub visit: Visit<ConflatingState<M>>,
    /// The signal that was given, if any.
    pub wake: Option<Wake>,
}

impl<M> LatestReceipt<M> {
    /// It was done to `mailbox`.
    pub open spec fn is_of(&self, mailbox: ConflatingShared<M>) -> bool {
        &&& self.visit.lock() == mailbox.lock()
        &&& self.wake matches Some(wake) ==> wake.signal() == mailbox.signal()
    }

    /// A single waiter was signalled, now or to come.
    pub open spec fn wakes_one(&self) -> bool {
        self.wake matches Some(wake) && !wake.all()
    }

    /// The waiters there were have been signalled.
    pub open spec fn wakes_all(&self) -> bool {
        self.wake matches Some(wake) && wake.all()
    }
}

/// Sending end of a latest-wins mailbox.
#[verifier::reject_recursive_types(M)]
pub struct ConflatingSender<M> {
    shared: Arc<ConflatingShared<M>>,
    /// How the mailbox came to count this sender, unless it was made with it.
    counted: Option<Visit<ConflatingState<M>>>,
}

/// Receiving end of a latest-wins mailbox.
#[verifier::reject_recursive_types(M)]
pub struct ConflatingReceiver<M> {
    shared: Arc<ConflatingShared<M>>,
}

impl<M> ConflatingSender<M> {
    /// Number of slots that the mailbox was made with.
    pub closed spec fn capacity(&self) -> usize {
        self.shared.capacity
    }

    /// Receipt of the mailbox counting this sender.
    pub closed spec fn count_receipt(&self) -> Option<Visit<ConflatingState<M>>> {
        self.counted
    }

    /// The mailbox counted this sender when it was shared.
    pub open spec fn is_counted(&self) -> bool {
        self.count_receipt() matches Some(visit) && visit.lock() == self.mailbox().lock()
            && visit.after() == visit.before().with_sender()
    }

    /// Sends `message` at once, and signals the receiver of an accepted one.
    pub fn send(&self, message: M) -> (sent: (SendOutcome<M>, LatestReceipt<M>))
        ensures
            sent.1.is_of(self.mailbox()),
            sent.1.visit.before().sends(message, sent.0, sent.1.visit.after()),
            sent.1.wake is Some <==> sent.0 is Accepted,
            sent.0 is Accepted ==> sent.1.wakes_one(),
    {
        let mut hold = lock_enter(&self.shared.state);
        let outcome = lock_value(&mut hold).send(message);
        let visit = lock_leave(hold);
        let wake = if matches!(outcome, SendOutcome::Accepted { .. }) {
            Some(signal_one(&self.shared.notify))
        } else {
            None
        };
        (outcome, LatestReceipt { visit, wake })
    }

    /// Sends `message` unless `deadline` is reached first, and signals the
    /// receiver of an accepted one.
    pub fn send_until(&self, message: M, deadline: u64, clock: &Clock) -> (sent: (
        TimedSendOutcome<M>,
        LatestReceipt<M>,
        Ticks,
    ))
        ensures
            sent.1.is_of(self.mailbox()),
            sent.1.visit.before().sends_by(
                *clock,
                message,
                deadline,
                sent.0,
                sent.2,
                sent.1.visit.after(),
            ),
            sent.1.wake is Some <==> sent.0 is Accepted,
            sent.0 is Accepted ==> sent.1.wakes_one(),
    {
        let mut hold = lock_enter(&self.shared.state);
        let (outcome, ticks) = lock_value(&mut hold).send_until(message, deadline, clock);
        let visit = lock_leave(hold);
        let wake = if matches!(outcome, TimedSendOutcome::Accepted { .. }) {
            Some(signal_one(&self.shared.notify))
        } else {
            None
        };
        (outcome, LatestReceipt { visit, wake }, ticks)
    }

    /// Returns the number of unread messages, which depends on the other
    /// holders of the mailbox, and its capacity.
    pub fn usage(&self) -> (read: ((usize, usize), Visit<ConflatingState<M>>))
        ensures
            read.1.lock() == self.mailbox().lock(),
            read.1.after() == read.1.before(),
            read.0.0 == read.1.before()@.len(),
            read.0.1 == self.capacity(),
    {
        let mut hold = lock_enter(&self.shared.state);
        let (depth, _) = lock_value(&mut hold).usage();
        ((depth, self.shared.capacity), lock_leave(hold))
    }

    /// What tells this mailbox from every other one.
    pub closed spec fn mailbox(&self) -> ConflatingShared<M> {
        *self.shared
    }

    /// Both send to the same mailbox.
    pub open spec fn same_mailbox(&self, other: &Self) -> bool {
        self.mailbox() == other.mailbox()
    }

    /// Reports whether both send to the same mailbox.
    pub fn same_channel(&self, other: &Self) -> (same: bool)
        ensures
            same == self.same_mailbox(other),
    {
        shared_same(&self.shared, &other.shared)
    }

    /// Returns another sender of the same mailbox, which counts it.
    pub fn share(&self) -> (other: Self)
        ensures
            self.same_mailbox(&other),
            other.capacity() == self.capacity(),
            other.is_counted(),
    {
        let mut hold = lock_enter(&self.shared.state);
        let state = lock_value(&mut hold);
        if state.sender_count < usize::MAX {
            state.add_sender();
        }
        let counted = Some(lock_leave(hold));
        ConflatingSender { shared: Arc::clone(&self.shared), counted }
    }

    /// `receipt` tells that the mailbox counts this sender no more, and that
    /// its receiver was signalled if it was the last one.
    pub open spec fn released_by(&self, receipt: LatestReceipt<M>) -> bool {
        &&& receipt.is_of(self.mailbox())
        &&& receipt.visit.after() == receipt.visit.before().without_sender()
        &&& if receipt.visit.before().sender_count == 1 {
            receipt.wakes_one()
        } else {
            receipt.wake is None
        }
    }

    /// Gives this sender up. The receiver is woken when it was the last one.
    pub fn release(self) -> (receipt: LatestReceipt<M>)
        ensures
            self.released_by(receipt),
    {
        let mut hold = lock_enter(&self.shared.state);
        let state = lock_value(&mut hold);
        let last = state.sender_count > 0 && state.remove_sender();
        let visit = lock_leave(hold);
        let wake = if last {
            Some(signal_one(&self.shared.notify))
        } else {
            None
        };
        LatestReceipt { visit, wake }
    }
}

impl<M> ConflatingReceiver<M> {
    /// Number of slots that the mailbox was made with.
    pub closed spec fn capacity(&self) -> usize {
        self.shared.capacity
    }

    /// What tells this mailbox from every other one.
    pub closed spec fn mailbox(&self) -> ConflatingShared<M> {
        *self.shared
    }

    /// Takes the oldest unread message.
    pub fn try_recv(&self) -> (found: (Result<M, TryRecvError>, Visit<ConflatingState<M>>))
        ensures
            found.1.lock() == self.mailbox().lock(),
            found.1.before().receives(found.0, found.1.after()),
    {
        let mut hold = lock_enter(&self.shared.state);
        let received = lock_value(&mut hold).try_recv();
        (received, lock_leave(hold))
    }

    /// Stops taking sends from outside. Queued messages stay readable.
    pub fn close_external(&mut self) -> (visit: Visit<ConflatingState<M>>)
        ensures
            *final(self) == *old(self),
            visit.lock() == old(self).mailbox().lock(),
            visit.after() == (ConflatingState { accepting_external: false, ..visit.before() }),
    {
        let mut hold = lock_enter(&self.shared.state);
        lock_value(&mut hold).close_external();
        lock_leave(hold)
    }

    /// Gives the receiver up and wakes whoever waits for it.
    pub fn close(&mut self) -> (receipt: LatestReceipt<M>)
        ensures
            *final(self) == *old(self),
            receipt.is_of(old(self).mailbox()),
            receipt.visit.after() == (ConflatingState {
                receiver_closed: true,
                ..receipt.visit.before()
            }),
            receipt.wakes_all(),
    {
        let mut hold = lock_enter(&self.shared.state);
        lock_value(&mut hold).close_receiver();
        let visit = lock_leave(hold);
        LatestReceipt { visit, wake: Some(signal_waiters(&self.shared.notify)) }
    }

    /// Returns the number of unread messages, which depends on the other
    /// holders of the mailbox, and its capacity.
    pub fn usage(&self) -> (read: ((usize, usize), Visit<ConflatingState<M>>))
        ensures
            read.1.lock() == self.mailbox().lock(),
            read.1.after() == read.1.before(),
            read.0.0 == read.1.before()@.len(),
            read.0.1 == self.capacity(),
    {
        let mut hold = lock_enter(&self.shared.state);
        let (depth, _) = lock_value(&mut hold).usage();
        ((depth, self.shared.capacity), lock_leave(hold))
    }

    /// Returns the signal that a change of the mailbox gives. A waiter arms it
    /// before it looks at the mailbox.
    pub fn signal(&self) -> (signal: &Notify)
        ensures
            *signal == self.mailbox().signal(),
    {
        &self.shared.notify
    }
}

/// Both ends belong to the same mailbox.
pub open spec fn linked<M>(sender: ConflatingSender<M>, receiver: ConflatingReceiver<M>) -> bool {
    sender.mailbox() == receiver.mailbox()
}

/// Creates both ends of a latest-wins mailbox.
pub fn conflating_channel<M>(capacity: usize, key_matches: Option<KeyMatcher<M>>) -> (ends: (
    ConflatingSender<M>,
    ConflatingReceiver<M>,
))
    ensures
        linked(ends.0, ends.1),
        ends.0.capacity() == capacity,
        ends.1.capacity() == capacity,
        ends.0.mailbox().lock().first().is_new(capacity, key_matches),
{
    let shared = Arc::new(
        ConflatingShared {
            state: lock_new(ConflatingState::new(capacity, key_matches)),
            notify: signal_new(),
            capacity,
        },
    );
    let sender = ConflatingSender { shared: Arc::clone(&shared), counted: None };
    (sender, ConflatingReceiver { shared })
}

/// What tells one mailbox from every other one.
#[verifier::reject_recursive_types(M)]
pub enum MailboxIdentity<M> {
    /// The channel of a FIFO mailbox.
    Queue(int),
    /// A latest-wins mailbox.
    Conflating(ConflatingShared<M>),
}

/// Sending end of a bound mailbox.
#[verifier::reject_recursive_types(M)]
pub enum MailboxSender<M> {
    /// FIFO mailbox.
    Queue {
        /// Channel of the mailbox.
        sender: QueueSender<M>,
        /// Number of slots that the channel was made with.
        capacity: usize,
        /// Whether sends from outside are taken.
        accepting_external: Arc<Flag>,
    },
    /// Latest-wins mailbox.
    Conflating(ConflatingSender<M>),
}

/// Receiving end of a bound mailbox.
#[verifier::reject_recursive_types(M)]
pub enum MailboxReceiver<M> {
    /// FIFO mailbox.
    Queue {
        /// Channel of the mailbox.
        receiver: QueueReceiver<M>,
        /// Number of slots that the channel was made with.
        capacity: usize,
        /// Whether sends from outside are taken.
        accepting_external: Arc<Flag>,
    },
    /// Latest-wins mailbox.
    Conflating(ConflatingReceiver<M>),
}

/// Receipt of an attempt to take a message out of a mailbox.
#[verifier::reject_recursive_types(M)]
pub enum RecvReceipt<M> {
    /// From the channel of a FIFO mailbox.
    Queue(Taken<M, Result<M, TryRecvError>>),
    /// From the state of a latest-wins mailbox.
    Latest(Visit<ConflatingState<M>>),
}

/// Receipt of a mailbox that was closed to sends from outside.
#[verifier::reject_recursive_types(M)]
pub enum CloseReceipt<M> {
    /// The flag of a FIFO mailbox was lowered.
    Queue(FlagLowered),
    /// The state of a latest-wins mailbox was changed.
    Latest(Visit<ConflatingState<M>>),
}

/// Receipt of a look at how full a mailbox is.
#[verifier::reject_recursive_types(M)]
pub enum UsageReceipt<M> {
    /// What was read from the channel of a FIFO mailbox.
    Queue(Reading),
    /// The state of a latest-wins mailbox.
    Latest(Visit<ConflatingState<M>>),
}

/// Both ends belong to the same mailbox: those of a FIFO mailbox are ends of one
/// channel, have its capacity and share what tells whether sends from outside
/// are taken.
pub open spec fn ends_linked<M>(sender: MailboxSender<M>, receiver: MailboxReceiver<M>) -> bool {
    match (sender, receiver) {
        (
            MailboxSender::Queue { sender, accepting_external: a, capacity: slots },
            MailboxReceiver::Queue { receiver, accepting_external: b, capacity },
        ) => sender.id() == receiver.id() && sender.room() == receiver.room() && a == b && slots
            == capacity,
        (MailboxSender::Conflating(a), MailboxReceiver::Conflating(b)) => linked(a, b),
        _ => false,
    }
}

/// Both ends of a mailbox of that kind.
pub open spec fn made_as<M>(
    mode: Mailbox<M>,
    capacity: usize,
    ends: (MailboxSender<M>, MailboxReceiver<M>),
) -> bool {
    &&& ends_linked(ends.0, ends.1)
    &&& ends.1.slots() == ends.0.slots()
    &&& match (mode.policy, ends.0) {
        (
            MailboxPolicy::Queue,
            MailboxSender::Queue { sender, capacity: slots, accepting_external },
        ) => sender.room() == capacity && slots == capacity && accepting_external.first(),
        (MailboxPolicy::Latest, MailboxSender::Conflating(sender)) => {
            &&& sender.capacity() == 1
            &&& sender.mailbox().lock().first().is_new(1, None)
        },
        (MailboxPolicy::LatestByKey { key_matches }, MailboxSender::Conflating(sender)) => {
            &&& sender.capacity() == capacity
            &&& sender.mailbox().lock().first().is_new(capacity, Some(key_matches))
        },
        _ => false,
    }
}

/// Creates both ends of a mailbox. Only a keyed or FIFO mailbox uses
/// `capacity`; an unkeyed latest-wins one has a single slot.
pub fn mailbox<M>(mode: &Mailbox<M>, capacity: usize) -> (ends: (
    MailboxSender<M>,
    MailboxReceiver<M>,
))
    requires
        mode.storage() == crate::mailbox::MailboxKind::Queue ==> 1 <= capacity
            <= crate::transport::max_queue_capacity(),
    ensures
        made_as(*mode, capacity, ends),
{
    match &mode.policy {
        MailboxPolicy::Queue => {
            let (sender, receiver) = queue_channel(capacity);
            let accepting_external = Arc::new(flag_raised());
            (
                MailboxSender::Queue {
                    sender,
                    capacity,
                    accepting_external: Arc::clone(&accepting_external),
                },
                MailboxReceiver::Queue { receiver, capacity, accepting_external },
            )
        },
        MailboxPolicy::Latest => {
            let (sender, receiver) = conflating_channel(1, None);
            (MailboxSender::Conflating(sender), MailboxReceiver::Conflating(receiver))
        },
        MailboxPolicy::LatestByKey { key_matches } => {
            let (sender, receiver) = conflating_channel(capacity, Some(key_matches.clone()));
            (MailboxSender::Conflating(sender), MailboxReceiver::Conflating(receiver))
        },
    }
}

impl<M> MailboxReceiver<M> {
    /// Number of slots that the mailbox was made with.
    pub open spec fn slots(&self) -> usize {
        match self {
            MailboxReceiver::Queue { capacity, .. } => *capacity,
            MailboxReceiver::Conflating(receiver) => receiver.capacity(),
        }
    }

    /// An attempt to take the next message came to `received`, as `receipt`
    /// tells.
    pub open spec fn receives(
        &self,
        received: Result<M, TryRecvError>,
        receipt: RecvReceipt<M>,
    ) -> bool {
        match (*self, receipt) {
            (MailboxReceiver::Queue { receiver, .. }, RecvReceipt::Queue(taken)) => {
                &&& taken.channel() == receiver.id()
                &&& taken.answer() == received
                &&& match received {
                    Ok(message) => taken.before() == seq![message] + taken.after(),
                    Err(_) => taken.before().len() == 0 && taken.after() == taken.before(),
                }
            },
            (MailboxReceiver::Conflating(receiver), RecvReceipt::Latest(visit)) => {
                &&& visit.lock() == receiver.mailbox().lock()
                &&& visit.before().receives(received, visit.after())
            },
            _ => false,
        }
    }

    /// Takes the next message if one is queued. The mailbox stays the same.
    pub fn try_recv(&mut self) -> (found: (Result<M, TryRecvError>, RecvReceipt<M>))
        ensures
            old(self).receives(found.0, found.1),
            forall|sender: MailboxSender<M>|
                ends_linked(sender, *old(self)) ==> ends_linked(sender, *final(self)),
            final(self).slots() == old(self).slots(),
    {
        match self {
            MailboxReceiver::Queue { receiver, .. } => {
                let (received, taken) = queue_try_recv(receiver);
                (received, RecvReceipt::Queue(taken))
            },
            MailboxReceiver::Conflating(receiver) => {
                let (received, visit) = receiver.try_recv();
                (received, RecvReceipt::Latest(visit))
            },
        }
    }

    /// Returns the number of queued messages, which depends on the senders, and
    /// the capacity.
    pub fn usage(&self) -> (read: ((usize, usize), UsageReceipt<M>))
        ensures
            read.0.1 == self.slots(),
            match (*self, read.1) {
                (MailboxReceiver::Queue { receiver, .. }, UsageReceipt::Queue(reading)) => {
                    &&& reading.channel() == receiver.id()
                    &&& read.0.0 == reading.counted()
                },
                (MailboxReceiver::Conflating(receiver), UsageReceipt::Latest(visit)) => {
                    &&& visit.lock() == receiver.mailbox().lock()
                    &&& visit.after() == visit.before()
                    &&& read.0.0 == visit.before()@.len()
                },
                _ => false,
            },
    {
        match self {
            MailboxReceiver::Queue { receiver, capacity, .. } => {
                let reading = queue_len(receiver);
                ((reading.count(), *capacity), UsageReceipt::Queue(reading))
            },
            MailboxReceiver::Conflating(receiver) => {
                let (usage, visit) = receiver.usage();
                (usage, UsageReceipt::Latest(visit))
            },
        }
    }

    /// `receipt` tells that this mailbox was closed to sends from outside.
    pub open spec fn closed_by(&self, receipt: CloseReceipt<M>) -> bool {
        match (*self, receipt) {
            (
                MailboxReceiver::Queue { accepting_external, .. },
                CloseReceipt::Queue(lowered),
            ) => lowered.flag() == *accepting_external,
            (MailboxReceiver::Conflating(receiver), CloseReceipt::Latest(visit)) => {
                &&& visit.lock() == receiver.mailbox().lock()
                &&& visit.after() == (ConflatingState {
                    accepting_external: false,
                    ..visit.before()
                })
            },
            _ => false,
        }
    }

    /// Stops taking sends from outside. Queued messages stay readable.
    pub fn close_external(&mut self) -> (receipt: CloseReceipt<M>)
        ensures
            *final(self) == *old(self),
            old(self).closed_by(receipt),
    {
        match self {
            MailboxReceiver::Queue { accepting_external, .. } => CloseReceipt::Queue(
                flag_lower(accepting_external),
            ),
            MailboxReceiver::Conflating(receiver) => CloseReceipt::Latest(
                receiver.close_external(),
            ),
        }
    }
}

/// Occupied slots of a queue with `capacity` slots of which `free` are free.
pub fn occupied(capacity: usize, free: usize) -> (depth: usize)
    ensures
        depth == if capacity >= free {
            capacity - free
        } else {
            0
        },
{
    capacity.saturating_sub(free)
}

impl<M> MailboxSender<M> {
    /// Number of slots that the mailbox was made with.
    pub open spec fn slots(&self) -> usize {
        match self {
            MailboxSender::Queue { capacity, .. } => *capacity,
            MailboxSender::Conflating(sender) => sender.capacity(),
        }
    }

    /// What tells the mailbox from every other one.
    pub open spec fn identity(&self) -> MailboxIdentity<M> {
        match self {
            MailboxSender::Queue { sender, .. } => MailboxIdentity::Queue(sender.id()),
            MailboxSender::Conflating(sender) => MailboxIdentity::Conflating(sender.mailbox()),
        }
    }

    /// Both send to the same mailbox: those of a FIFO mailbox are handles of one
    /// channel, have its capacity and share what tells whether sends from
    /// outside are taken.
    pub open spec fn same_mailbox(&self, other: &Self) -> bool {
        match (*self, *other) {
            (
                MailboxSender::Queue { sender, accepting_external: a, capacity },
                MailboxSender::Queue { sender: twin, accepting_external: b, capacity: slots },
            ) => sender.id() == twin.id() && sender.room() == twin.room() && a == b && capacity
                == slots,
            (MailboxSender::Conflating(a), MailboxSender::Conflating(b)) => a.same_mailbox(&b),
            _ => false,
        }
    }

    /// A latest-wins mailbox counted this sender when it was shared. A channel
    /// counts its own handles.
    pub open spec fn is_counted(&self) -> bool {
        match self {
            MailboxSender::Queue { .. } => true,
            MailboxSender::Conflating(sender) => sender.is_counted(),
        }
    }

    /// Returns another sender of the same mailbox.
    pub fn share(&self) -> (other: Self)
        ensures
            self.same_mailbox(&other),
            other.identity() == self.identity(),
            other.slots() == self.slots(),
            other.is_counted(),
    {
        match self {
            MailboxSender::Queue { sender, capacity, accepting_external } => MailboxSender::Queue {
                sender: queue_clone(sender),
                capacity: *capacity,
                accepting_external: Arc::clone(accepting_external),
            },
            MailboxSender::Conflating(sender) => MailboxSender::Conflating(sender.share()),
        }
    }

    /// Reports whether both send to the same mailbox.
    pub fn same_channel(&self, other: &Self) -> (same: bool)
        ensures
            same == (self.identity() == other.identity()),
    {
        match (self, other) {
            (
                MailboxSender::Queue { sender, .. },
                MailboxSender::Queue { sender: twin, .. },
            ) => queue_same_channel(sender, twin),
            (MailboxSender::Conflating(sender), MailboxSender::Conflating(twin)) => {
                sender.same_channel(twin)
            },
            _ => false,
        }
    }

    /// `receipt` tells that a latest-wins mailbox counts this sender no more. A
    /// channel counts its own handles.
    pub open spec fn released_by(&self, receipt: Option<LatestReceipt<M>>) -> bool {
        match self {
            MailboxSender::Queue { .. } => receipt is None,
            MailboxSender::Conflating(sender) => receipt matches Some(receipt)
                && sender.released_by(receipt),
        }
    }

    /// Gives this sender up. A channel counts its own handles; a latest-wins
    /// mailbox is told.
    pub fn release(self) -> (receipt: Option<LatestReceipt<M>>)
        ensures
            self.released_by(receipt),
    {
        match self {
            MailboxSender::Queue { .. } => None,
            MailboxSender::Conflating(sender) => Some(sender.release()),
        }
    }

    /// `usage` is what `receipt` tells: the number of occupied slots, and the
    /// capacity.
    pub open spec fn uses(&self, usage: (usize, usize), receipt: UsageReceipt<M>) -> bool {
        &&& usage.1 == self.slots()
        &&& match (*self, receipt) {
            (MailboxSender::Queue { sender, capacity, .. }, UsageReceipt::Queue(reading)) => {
                &&& reading.channel() == sender.id()
                &&& usage.0 == if capacity >= reading.counted() {
                    capacity - reading.counted()
                } else {
                    0
                }
            },
            (MailboxSender::Conflating(sender), UsageReceipt::Latest(visit)) => {
                &&& visit.lock() == sender.mailbox().lock()
                &&& visit.after() == visit.before()
                &&& usage.0 == visit.before()@.len()
            },
            _ => false,
        }
    }

    /// Returns the number of occupied slots, which depends on the other holders
    /// of the mailbox, and the capacity.
    pub fn usage(&self) -> (read: ((usize, usize), UsageReceipt<M>))
        ensures
            self.uses(read.0, read.1),
    {
        match self {
            MailboxSender::Queue { sender, capacity, .. } => {
                let reading = queue_free(sender);
                ((occupied(*capacity, reading.count()), *capacity), UsageReceipt::Queue(reading))
            },
            MailboxSender::Conflating(sender) => {
                let (usage, visit) = sender.usage();
                (usage, UsageReceipt::Latest(visit))
            },
        }
    }
}

/// State of a queue slot after an attempt to reserve it.
#[derive(Clone, Copy, Debug, PartialEq, Eq, Structural)]
pub enum SlotState {
    /// The slot is held.
    Held,
    /// No slot is free.
    Full,
    /// The receiver is gone.
    Closed,
}

/// The slot state that an attempt finds in a channel.
pub open spec fn slot_at<M>(moment: QueueMoment<M>) -> SlotState {
    if moment.closed {
        SlotState::Closed
    } else if moment.free == 0 {
        SlotState::Full
    } else {
        SlotState::Held
    }
}

/// Why an immediate send to a queue is refused, if it is.
///
/// A queue that stopped taking messages refuses them as not running, whether
/// that was seen before or after the reservation.
pub open spec fn queue_refusal(slot: SlotState, accepting: bool) -> Option<
    (SendErrorKind, MessageRejection),
> {
    match slot {
        SlotState::Held => if accepting {
            None
        } else {
            Some((SendErrorKind::NotRunning, MessageRejection::MailboxClosed))
        },
        SlotState::Full => Some((SendErrorKind::Full, MessageRejection::MailboxFull)),
        SlotState::Closed => Some((SendErrorKind::NotRunning, MessageRejection::MailboxClosed)),
    }
}

/// Decides an immediate send to a queue: `None` fills the held slot.
pub fn queue_rejection(slot: SlotState, accepting: bool) -> (rejection: Option<
    (SendErrorKind, MessageRejection),
>)
    ensures
        rejection == queue_refusal(slot, accepting),
{
    match slot {
        SlotState::Held => if accepting {
            None
        } else {
            Some((SendErrorKind::NotRunning, MessageRejection::MailboxClosed))
        },
        SlotState::Full => Some((SendErrorKind::Full, MessageRejection::MailboxFull)),
        SlotState::Closed => Some((SendErrorKind::NotRunning, MessageRejection::MailboxClosed)),
    }
}

/// What to do with an awaited queue slot.
#[derive(Clone, Copy, Debug, PartialEq, Eq, Structural)]
pub enum SlotVerdict {
    /// Put the message in.
    Fill,
    /// Return the message: the mailbox is closed.
    Closed,
    /// Return the message: the deadline was reached.
    Timeout,
}

/// What becomes of an awaited send once the wait for a slot is over.
pub open spec fn slot_verdict(reserved: bool, accepting: bool, elapsed: bool) -> SlotVerdict {
    if !reserved || !accepting {
        SlotVerdict::Closed
    } else if elapsed {
        SlotVerdict::Timeout
    } else {
        SlotVerdict::Fill
    }
}

/// Decides an awaited send once the wait for a slot is over. The close race is
/// narrowed by looking at the mailbox again, and a bounded send is not
/// accepted late.
pub fn settle_reservation(reserved: bool, accepting: bool, elapsed: bool) -> (verdict: SlotVerdict)
    ensures
        verdict == slot_verdict(reserved, accepting, elapsed),
{
    if !reserved || !accepting {
        SlotVerdict::Closed
    } else if elapsed {
        SlotVerdict::Timeout
    } else {
        SlotVerdict::Fill
    }
}

/// Receipt of an immediate send.
#[verifier::reject_recursive_types(M)]
pub enum TryReceipt<M> {
    /// To a FIFO mailbox.
    Queue {
        /// Whether sends from outside were taken at first.
        early: FlagRead,
        /// If they were, the attempt to reserve a slot, and whether they still
        /// were taken after it.
        attempt: Option<(Attempt<M>, FlagRead)>,
        /// The message that went into the channel, if it did.
        handed: Option<Handed<M>>,
    },
    /// To a latest-wins mailbox.
    Latest(LatestReceipt<M>),
}

/// Sender for one bound mailbox instance of an actor.
#[verifier::reject_recursive_types(M)]
pub struct MailboxRef<M> {
    /// Id of the actor.
    pub actor_id: String,
    /// Sending end.
    pub sender: MailboxSender<M>,
}

impl<M> MailboxRef<M> {
    /// Names the sending end of a mailbox instance.
    pub fn new(actor_id: String, sender: MailboxSender<M>) -> (mailbox: Self)
        ensures
            mailbox == (MailboxRef { actor_id, sender }),
    {
        MailboxRef { actor_id, sender }
    }

    /// Both refer to the same mailbox instance of the same actor.
    pub open spec fn same_mailbox(&self, other: &Self) -> bool {
        &&& self.actor_id == other.actor_id
        &&& self.sender.same_mailbox(&other.sender)
    }

    /// What tells the mailbox instance from every other one.
    pub open spec fn identity(&self) -> MailboxIdentity<M> {
        self.sender.identity()
    }

    /// Returns another reference to the same mailbox instance.
    pub fn share(&self) -> (other: Self)
        ensures
            self.same_mailbox(&other),
            other.identity() == self.identity(),
            other.sender.slots() == self.sender.slots(),
            other.sender.is_counted(),
    {
        MailboxRef { actor_id: self.actor_id.clone(), sender: self.sender.share() }
    }

    /// Gives this reference up.
    pub fn release(self) -> (receipt: Option<LatestReceipt<M>>)
        ensures
            self.sender.released_by(receipt),
    {
        self.sender.release()
    }

    /// Reports whether both refer to the same mailbox instance.
    pub fn same_channel(&self, other: &Self) -> (same: bool)
        ensures
            same == (self.identity() == other.identity()),
    {
        self.sender.same_channel(&other.sender)
    }

    /// Returns the number of queued messages and the capacity.
    pub fn usage(&self) -> (read: ((usize, usize), UsageReceipt<M>))
        ensures
            self.sender.uses(read.0, read.1),
    {
        self.sender.usage()
    }

    /// Builds the failure of a send to this mailbox.
    fn failure(&self, message: M, kind: SendErrorKind, rejection: MessageRejection) -> (failure:
        TrySendFailure<M>)
        ensures
            failure.error.actor_id == self.actor_id,
            failure.error.message == message,
            failure.error.kind == kind,
            failure.rejection == rejection,
    {
        TrySendFailure {
            error: SendError { actor_id: self.actor_id.clone(), message, kind },
            rejection,
        }
    }

    /// `sent` is a refusal of `message` for the given reason, or an acceptance
    /// that replaced nothing.
    pub open spec fn answers(
        &self,
        message: M,
        sent: Result<u64, TrySendFailure<M>>,
        refusal: Option<(SendErrorKind, MessageRejection)>,
    ) -> bool {
        match refusal {
            None => sent matches Ok(conflated) && conflated == 0,
            Some((kind, rejection)) => {
                &&& sent matches Err(failure)
                &&& failure.error.actor_id == self.actor_id
                &&& failure.error.message == message
                &&& failure.error.kind == kind
                &&& failure.rejection == rejection
            },
        }
    }

    /// An immediate send of `message` came to `sent`, as `receipt` tells.
    ///
    /// A queue takes the message unless it stopped taking sends from outside or
    /// has no slot to give, and then the message is in its channel, behind the
    /// others. A latest-wins mailbox takes it while it is open, and then the
    /// message is stored. A refused message is returned.
    pub open spec fn tries(
        &self,
        message: M,
        sent: Result<u64, TrySendFailure<M>>,
        receipt: TryReceipt<M>,
    ) -> bool {
        match (self.sender, receipt) {
            (
                MailboxSender::Queue { sender, accepting_external, .. },
                TryReceipt::Queue { early, attempt, handed },
            ) => {
                &&& early.flag() == *accepting_external
                &&& attempt is Some <==> early.set()
                &&& match attempt {
                    Some((found, late)) => {
                        &&& found.channel() == sender.id()
                        &&& late.flag() == *accepting_external
                        &&& self.answers(
                            message,
                            sent,
                            queue_refusal(slot_at(found.moment()), late.set()),
                        )
                    },
                    None => self.answers(
                        message,
                        sent,
                        Some((SendErrorKind::NotRunning, MessageRejection::MailboxClosed)),
                    ),
                }
                &&& handed is Some <==> sent is Ok
                &&& handed matches Some(handed) ==> handed.channel() == sender.id()
                    && handed.message() == message && handed.after() == handed.before().push(
                    message,
                )
            },
            (MailboxSender::Conflating(sender), TryReceipt::Latest(receipt)) => {
                &&& receipt.is_of(sender.mailbox())
                &&& match sent {
                    Ok(conflated) => receipt.visit.before().sends(
                        message,
                        SendOutcome::Accepted { conflated },
                        receipt.visit.after(),
                    ) && receipt.wakes_one(),
                    Err(_) => receipt.visit.before().sends(
                        message,
                        SendOutcome::Closed(message),
                        receipt.visit.after(),
                    ) && receipt.wake is None && self.answers(
                        message,
                        sent,
                        Some((SendErrorKind::NotRunning, MessageRejection::MailboxClosed)),
                    ),
                }
            },
            _ => false,
        }
    }

    /// Sends `message` if the mailbox takes it right now. Returns how many
    /// unread messages it replaced.
    ///
    /// Whether the mailbox takes it depends on its other holders; a queue
    /// replaces nothing and alone can be full.
    pub fn try_send(&self, message: M) -> (tried: (
        Result<u64, TrySendFailure<M>>,
        TryReceipt<M>,
    ))
        ensures
            self.tries(message, tried.0, tried.1),
    {
        match &self.sender {
            MailboxSender::Queue { sender, accepting_external, .. } => {
                let early = accepting_external.read();
                if !early.is_set() {
                    let refused = self.failure(
                        message,
                        SendErrorKind::NotRunning,
                        MessageRejection::MailboxClosed,
                    );
                    return (Err(refused), TryReceipt::Queue { early, attempt: None, handed: None });
                }
                let (reservation, found) = queue_try_reserve(sender);
                let late = accepting_external.read();
                let slot = match &reservation {
                    Reservation::Held(_) => SlotState::Held,
                    Reservation::Full => SlotState::Full,
                    Reservation::Closed => SlotState::Closed,
                };
                let refusal = queue_rejection(slot, late.is_set());
                let attempt = Some((found, late));
                match (refusal, reservation) {
                    (None, Reservation::Held(slot)) => {
                        let handed = Some(queue_fill(slot, message));
                        (Ok(0), TryReceipt::Queue { early, attempt, handed })
                    },
                    (refusal, _) => {
                        let (kind, rejection) = match refusal {
                            Some(refusal) => refusal,
                            // Not reached: without a slot there is a refusal.
                            None => (SendErrorKind::Full, MessageRejection::MailboxFull),
                        };
                        let refused = self.failure(message, kind, rejection);
                        (Err(refused), TryReceipt::Queue { early, attempt, handed: None })
                    },
                }
            },
            MailboxSender::Conflating(sender) => {
                let (outcome, receipt) = sender.send(message);
                let sent = match outcome {
                    SendOutcome::Accepted { conflated } => Ok(conflated),
                    SendOutcome::Closed(message) => Err(
                        self.failure(
                            message,
                            SendErrorKind::NotRunning,
                            MessageRejection::MailboxClosed,
                        ),
                    ),
                };
                (sent, TryReceipt::Latest(receipt))
            },
        }
    }
}

/// An immediate send to a queue that nobody else uses meanwhile: an open queue
/// with room takes the message as its last one, a full one refuses it as full,
/// and one that is closed, by its receiver or to sends from outside, refuses it
/// as not running.
pub proof fn law_queue_takes_while_it_has_room<M>(
    mailbox: MailboxRef<M>,
    message: M,
    sent: Result<u64, TrySendFailure<M>>,
    receipt: TryReceipt<M>,
    queued: Seq<M>,
    gone: bool,
    accepting: bool,
)
    requires
        mailbox.tries(message, sent, receipt),
        receipt matches TryReceipt::Queue { early, attempt, handed } && early.set() == accepting
            && (attempt matches Some((found, late)) ==> late.set() == accepting
            && found.moment().messages == queued && found.moment().closed == gone
            && found.moment().free + queued.len() == mailbox.sender.slots()) && (
        handed matches Some(handed) ==> handed.before() == queued),
    ensures
        ({
            let open = accepting && !gone;
            let room = queued.len() < mailbox.sender.slots();
            &&& sent is Ok <==> open && room
            &&& sent matches Ok(conflated) ==> {
                &&& conflated == 0
                &&& receipt->handed matches Some(handed)
                &&& handed.after() == queued.push(message)
            }
            &&& sent matches Err(failure) ==> {
                &&& receipt->handed is None
                &&& failure.error.message == message
                &&& failure.error.actor_id == mailbox.actor_id
                &&& if open {
                    failure.error.kind == SendErrorKind::Full && failure.rejection
                        == MessageRejection::MailboxFull
                } else {
                    failure.error.kind == SendErrorKind::NotRunning && failure.rejection
                        == MessageRejection::MailboxClosed
                }
            }
        }),
{
}

/// An awaited send fills its slot only in time and while sends are taken; a
/// closed mailbox counts before a reached deadline.
pub proof fn law_awaited_slots(reserved: bool, accepting: bool, elapsed: bool)
    ensures
        slot_verdict(reserved, accepting, elapsed) == SlotVerdict::Fill <==> reserved && accepting
            && !elapsed,
        slot_verdict(reserved, accepting, elapsed) == SlotVerdict::Closed <==> !(reserved
            && accepting),
        slot_verdict(reserved, accepting, elapsed) == SlotVerdict::Timeout <==> reserved
            && accepting && elapsed,
{
}

/// An immediate send to a latest-wins mailbox succeeds exactly while the mailbox
/// is open, is then stored in it and counted as it replaced messages, and wakes
/// the receiver. It is never refused as full.
pub proof fn law_latest_wins_mailboxes_are_never_full<M>(
    mailbox: MailboxRef<M>,
    target: ConflatingSender<M>,
    message: M,
    sent: Result<u64, TrySendFailure<M>>,
    receipt: TryReceipt<M>,
)
    requires
        mailbox.tries(message, sent, receipt),
        mailbox.sender == MailboxSender::Conflating(target),
    ensures
        receipt matches TryReceipt::Latest(done) && {
            let before = done.visit.before();
            let after = done.visit.after();
            &&& done.visit.lock() == target.mailbox().lock()
            &&& sent is Ok <==> !before.receiver_closed && before.accepting_external
            &&& sent matches Ok(conflated) ==> {
                &&& before.sends(message, SendOutcome::Accepted { conflated }, after)
                &&& done.wake matches Some(wake)
                &&& wake.signal() == target.mailbox().signal()
            }
            &&& sent matches Err(failure) ==> {
                &&& failure.error.kind == SendErrorKind::NotRunning
                &&& failure.rejection == MessageRejection::MailboxClosed
                &&& failure.error.message == message
                &&& failure.error.actor_id == mailbox.actor_id
                &&& after.messages@ == before.messages@
                &&& done.wake is None
            }
        },
{
}

/// A read takes the oldest message of its own mailbox, or finds it empty.
pub proof fn law_reads_take_the_oldest<M>(
    receiver: MailboxReceiver<M>,
    received: Result<M, TryRecvError>,
    receipt: RecvReceipt<M>,
)
    requires
        receiver.receives(received, receipt),
    ensures
        receiver matches MailboxReceiver::Queue { receiver: own, .. } ==> (
        receipt matches RecvReceipt::Queue(taken) && taken.channel() == own.id() && taken.answer()
            == received && match received {
            Ok(message) => taken.before().len() > 0 && taken.before()[0] == message
                && taken.before().skip(1) == taken.after(),
            Err(_) => taken.before().len() == 0,
        }),
        receiver matches MailboxReceiver::Conflating(own) ==> (receipt matches RecvReceipt::Latest(
            visit,
        ) && visit.lock() == own.mailbox().lock() && match received {
            Ok(message) => visit.before().messages@.len() > 0 && visit.before().messages@[0]
                == message && visit.before().messages@.skip(1) == visit.after().messages@,
            Err(_) => visit.before().messages@.len() == 0 && visit.after().messages@
                == visit.before().messages@,
        }),
{
    match (receiver, receipt, received) {
        (_, RecvReceipt::Queue(taken), Ok(message)) => {
            assert(taken.before().skip(1) =~= taken.after());
        },
        (_, RecvReceipt::Latest(visit), Ok(message)) => {
            assert(visit.before().messages@.skip(1) =~= visit.after().messages@);
        },
        _ => {},
    }
}

/// A mailbox that was closed to sends from outside refuses later ones and keeps
/// what it holds.
pub proof fn law_closed_mailboxes_refuse<M>(
    receiver: ConflatingReceiver<M>,
    visit: Visit<ConflatingState<M>>,
    message: M,
    outcome: SendOutcome<M>,
    later: ConflatingState<M>,
)
    requires
        MailboxReceiver::Conflating(receiver).closed_by(CloseReceipt::Latest(visit)),
        visit.after().sends(message, outcome, later),
    ensures
        visit.lock() == receiver.mailbox().lock(),
        visit.after().messages == visit.before().messages,
        outcome == SendOutcome::Closed(message),
        later.messages@ == visit.before().messages@,
{
}

/// A released sender is counted no more, and the receiver hears of the last one.
pub proof fn law_released_senders_are_not_counted<M>(
    sender: ConflatingSender<M>,
    receipt: LatestReceipt<M>,
)
    requires
        sender.released_by(receipt),
    ensures
        ({
            let before = receipt.visit.before();
            let after = receipt.visit.after();
            &&& receipt.visit.lock() == sender.mailbox().lock()
            &&& before.sender_count > 0 ==> after.sender_count + 1 == before.sender_count
            &&& after.messages == before.messages
            &&& after.receiver_closed == before.receiver_closed
            &&& after.accepting_external == before.accepting_external
            &&& receipt.wake is Some <==> before.sender_count == 1
        }),
{
}

/// A shared sender is counted.
pub proof fn law_shared_senders_are_counted<M>(sender: ConflatingSender<M>)
    requires
        sender.is_counted(),
    ensures
        sender.count_receipt() matches Some(visit) && visit.lock() == sender.mailbox().lock() && (
        visit.before().sender_count < usize::MAX ==> visit.after().sender_count
            == visit.before().sender_count + 1) && visit.after().messages
            == visit.before().messages,
{
}

/// The usage of a queue and its free slots add up to its capacity, and that of a
/// latest-wins mailbox is the number of its messages.
pub proof fn law_usage<M>(
    sender: MailboxSender<M>,
    usage: (usize, usize),
    receipt: UsageReceipt<M>,
)
    requires
        sender.uses(usage, receipt),
    ensures
        usage.1 == sender.slots(),
        sender matches MailboxSender::Queue { capacity, .. } ==> (receipt matches UsageReceipt::Queue(
            reading,
        ) && usage.1 == capacity && (reading.counted() <= capacity ==> usage.0 + reading.counted()
            == capacity)),
        sender matches MailboxSender::Queue { sender: handle, .. } ==> (
        receipt matches UsageReceipt::Queue(reading) && reading.channel() == handle.id()),
        sender is Conflating ==> (receipt matches UsageReceipt::Latest(visit) && usage.0
            == visit.before().messages@.len() && visit.after() == visit.before()),
        sender matches MailboxSender::Conflating(handle) ==> (
        receipt matches UsageReceipt::Latest(visit) && visit.lock() == handle.mailbox().lock()),
{
}

/// An immediate send to a queue goes through exactly where a slot is free and
/// sends are taken. A full queue is told apart from one that takes no more.
pub proof fn law_refused_queue_sends<M>(slot: SlotState, accepting: bool, moment: QueueMoment<M>)
    ensures
        queue_refusal(slot, accepting) is None <==> slot is Held && accepting,
        slot is Full <==> queue_refusal(slot, accepting) == Some(
            (SendErrorKind::Full, MessageRejection::MailboxFull),
        ),
        slot is Closed || (slot is Held && !accepting) <==> queue_refusal(slot, accepting) == Some(
            (SendErrorKind::NotRunning, MessageRejection::MailboxClosed),
        ),
        slot_at(moment) is Closed <==> moment.closed,
        slot_at(moment) is Full <==> !moment.closed && moment.free == 0,
        slot_at(moment) is Held <==> !moment.closed && moment.free > 0,
{
}

/// The receipts of an immediate send are those of the mailbox it went to: the
/// same flag is read before and after, the slot is one of its channel, and an
/// accepted message is at the end of that channel.
pub proof fn law_receipts_are_of_the_mailbox<M>(
    mailbox: MailboxRef<M>,
    message: M,
    sent: Result<u64, TrySendFailure<M>>,
    receipt: TryReceipt<M>,
)
    requires
        mailbox.tries(message, sent, receipt),
    ensures
        mailbox.sender is Queue <==> receipt is Queue,
        mailbox.sender is Conflating <==> receipt is Latest,
        match (mailbox.sender, receipt) {
            (
                MailboxSender::Queue { sender, accepting_external, .. },
                TryReceipt::Queue { early, attempt, handed },
            ) => {
                &&& early.flag() == *accepting_external
                &&& attempt is Some <==> early.set()
                &&& attempt matches Some((found, late)) ==> found.channel() == sender.id()
                    && late.flag() == *accepting_external
                &&& sent is Ok <==> handed is Some
                &&& handed matches Some(handed) ==> handed.channel() == sender.id()
                    && handed.after().len() == handed.before().len() + 1 && handed.after().last()
                    == message
            },
            _ => true,
        },
{
}

/// Handles of the same mailbox have its identity and its slots, whichever of them
/// one looks at.
pub proof fn law_handles_of_one_mailbox<M>(one: MailboxRef<M>, other: MailboxRef<M>)
    requires
        one.same_mailbox(&other),
    ensures
        one.identity() == other.identity(),
        one.actor_id == other.actor_id,
        other.same_mailbox(&one),
        one.sender is Queue <==> other.sender is Queue,
        one.sender matches MailboxSender::Queue { capacity, .. } ==> other.sender.slots()
            == capacity,
{
}

/// Both ends of a mailbox are of one mailbox and agree on its slots. A queue starts
/// out empty, open and with the capacity asked for; a keyed mailbox has that many
/// slots, and a latest-wins one a single slot.
pub proof fn law_mailboxes_are_made_as_declared<M>(
    mode: Mailbox<M>,
    capacity: usize,
    ends: (MailboxSender<M>, MailboxReceiver<M>),
)
    requires
        made_as(mode, capacity, ends),
    ensures
        mode.policy is Queue <==> ends.0 is Queue,
        ends.0 is Queue <==> ends.1 is Queue,
        mode.policy is Queue || mode.policy is LatestByKey ==> ends.0.slots() == capacity,
        mode.policy is Latest ==> ends.0.slots() == 1,
        ends.1.slots() == ends.0.slots(),
        match (ends.0, ends.1) {
            (
                MailboxSender::Queue { sender, accepting_external, .. },
                MailboxReceiver::Queue { receiver, accepting_external: seen, .. },
            ) => sender.id() == receiver.id() && sender.room() == capacity && receiver.room()
                == capacity && accepting_external == seen && accepting_external.first(),
            (MailboxSender::Conflating(sender), MailboxReceiver::Conflating(receiver)) => {
                &&& sender.mailbox() == receiver.mailbox()
                &&& sender.mailbox().lock().first().messages@.len() == 0
                &&& !sender.mailbox().lock().first().receiver_closed
                &&& sender.mailbox().lock().first().accepting_external
                &&& sender.mailbox().lock().first().sender_count == 1
            },
            _ => false,
        },
{
}

/// Closing a mailbox to sends from outside is done to that mailbox: the flag of a
/// queue is lowered, and a latest-wins mailbox keeps everything but its
/// acceptance.
pub proof fn law_closing_is_done_to_the_mailbox<M>(
    receiver: MailboxReceiver<M>,
    receipt: CloseReceipt<M>,
)
    requires
        receiver.closed_by(receipt),
    ensures
        receiver is Queue <==> receipt is Queue,
        receiver matches MailboxReceiver::Queue { accepting_external, .. } ==> (
        receipt matches CloseReceipt::Queue(lowered) ==> lowered.flag() == *accepting_external),
        receiver matches MailboxReceiver::Conflating(ends) ==> (
        receipt matches CloseReceipt::Latest(visit) ==> {
            &&& visit.lock() == ends.mailbox().lock()
            &&& !visit.after().accepting_external
            &&& visit.after().messages == visit.before().messages
            &&& visit.after().sender_count == visit.before().sender_count
            &&& visit.after().receiver_closed == visit.before().receiver_closed
        }),
{
}

} // verus!
