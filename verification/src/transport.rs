//! What mailboxes are made of: Tokio channels and signals, locks and flags.
//!
//! What these hold changes behind shared handles, so no contract can speak of
//! it beyond one call. Each call gives a receipt in its place, which only the
//! call can make: it tells what the call was made on, and what the call found
//! and left there.
use std::sync::atomic::{AtomicBool, Ordering};
use std::sync::{Mutex, MutexGuard};
use std::task::{Context, Poll};
use tokio::sync::{mpsc, Notify};
use vstd::prelude::*;

use crate::mailbox::TryRecvError;

verus! {

/// The sending half of a bounded channel.
#[verifier::external_type_specification]
#[verifier::external_body]
#[verifier::reject_recursive_types(T)]
pub struct ExSender<T>(mpsc::Sender<T>);

/// The receiving half of a bounded channel.
#[verifier::external_type_specification]
#[verifier::external_body]
#[verifier::reject_recursive_types(T)]
pub struct ExReceiver<T>(mpsc::Receiver<T>);

/// A reserved slot of a bounded channel.
#[verifier::external_type_specification]
#[verifier::external_body]
#[verifier::reject_recursive_types(T)]
pub struct ExPermit<'a, T>(mpsc::Permit<'a, T>);

/// A wake-up signal.
#[verifier::external_type_specification]
#[verifier::external_body]
pub struct ExNotify(Notify);

/// A lock around a value.
#[verifier::external_type_specification]
#[verifier::external_body]
#[verifier::reject_recursive_types(T)]
pub struct ExMutex<T: ?Sized>(Mutex<T>);

/// The exclusive hold of a [`Mutex`].
#[verifier::external_type_specification]
#[verifier::external_body]
#[verifier::reject_recursive_types(T)]
pub struct ExMutexGuard<'a, T: ?Sized + 'a>(MutexGuard<'a, T>);

/// What a task is polled with.
#[verifier::external_type_specification]
#[verifier::external_body]
pub struct ExContext<'a>(Context<'a>);

/// Largest capacity of a bounded channel.
pub open spec fn max_queue_capacity() -> int {
    usize::MAX as int / 8
}

/// What a bounded channel is at one moment.
#[verifier::reject_recursive_types(M)]
pub struct QueueMoment<M> {
    /// Unread messages, oldest first.
    pub messages: Seq<M>,
    /// Slots that are neither filled nor promised to a sender.
    pub free: nat,
    /// Whether the receiver is gone.
    pub closed: bool,
}

/// The sending half of a bounded channel, with the identity of the channel.
#[verifier::reject_recursive_types(M)]
pub struct QueueSender<M> {
    sender: mpsc::Sender<M>,
    id: Ghost<int>,
    room: Ghost<usize>,
}

/// The receiving half of a bounded channel, with the identity of the channel.
#[verifier::reject_recursive_types(M)]
pub struct QueueReceiver<M> {
    receiver: mpsc::Receiver<M>,
    id: Ghost<int>,
    room: Ghost<usize>,
}

impl<M> QueueSender<M> {
    /// Identity of the channel.
    pub closed spec fn id(&self) -> int {
        self.id@
    }

    /// Number of messages that the channel has room for.
    pub closed spec fn room(&self) -> usize {
        self.room@
    }

    /// The Tokio handle.
    pub closed spec fn handle(&self) -> mpsc::Sender<M> {
        self.sender
    }

    /// Returns the Tokio handle, to wait for a slot.
    pub fn inner(&self) -> (sender: &mpsc::Sender<M>)
        ensures
            *sender == self.handle(),
    {
        &self.sender
    }
}

impl<M> QueueReceiver<M> {
    /// Identity of the channel.
    pub closed spec fn id(&self) -> int {
        self.id@
    }

    /// Number of messages that the channel has room for.
    pub closed spec fn room(&self) -> usize {
        self.room@
    }
}

/// `tokio::sync::mpsc::channel`: both ends of a fresh channel with room for
/// `capacity` messages, and so with one identity, which stands for the channel
/// in contracts alone. The call panics on a capacity of zero and beyond the
/// bound of Tokio's semaphore.
#[verifier::external_body]
pub(crate) fn queue_channel<M>(capacity: usize) -> (ends: (QueueSender<M>, QueueReceiver<M>))
    requires
        1 <= capacity <= max_queue_capacity(),
    ensures
        ends.0.id() == ends.1.id(),
        ends.0.room() == capacity,
        ends.1.room() == capacity,
{
    let (sender, receiver) = mpsc::channel(capacity);
    let (id, room) = (Ghost(arbitrary()), Ghost(arbitrary()));
    (QueueSender { sender, id, room }, QueueReceiver { receiver, id, room })
}

/// A held slot of a channel.
#[verifier::reject_recursive_types(M)]
pub(crate) struct Slot<'a, M> {
    permit: mpsc::Permit<'a, M>,
    channel: Ghost<int>,
}

impl<'a, M> Slot<'a, M> {
    /// Identity of the channel.
    pub(crate) closed spec fn channel(&self) -> int {
        self.channel@
    }
}

/// What an attempt to reserve a slot came to.
#[verifier::reject_recursive_types(M)]
pub(crate) enum Reservation<'a, M> {
    /// A slot is held.
    Held(Slot<'a, M>),
    /// No slot is free.
    Full,
    /// The receiver is gone.
    Closed,
}

/// Receipt of an attempt to reserve a slot.
#[verifier::reject_recursive_types(M)]
pub struct Attempt<M> {
    channel: Ghost<int>,
    moment: Ghost<QueueMoment<M>>,
}

impl<M> Attempt<M> {
    /// Identity of the channel.
    pub closed spec fn channel(&self) -> int {
        self.channel@
    }

    /// What the channel was when the attempt was made.
    pub closed spec fn moment(&self) -> QueueMoment<M> {
        self.moment@
    }
}

/// `tokio::sync::mpsc::Sender::try_reserve`: a slot of this channel, unless
/// the receiver is gone or no slot is free at that moment. Which of these
/// holds depends on what the other handles of the channel have done.
#[verifier::external_body]
pub(crate) fn queue_try_reserve<M>(sender: &QueueSender<M>) -> (found: (
    Reservation<'_, M>,
    Attempt<M>,
))
    ensures
        found.1.channel() == sender.id(),
        match found.0 {
            Reservation::Held(slot) => slot.channel() == sender.id() && !found.1.moment().closed
                && found.1.moment().free > 0,
            Reservation::Full => !found.1.moment().closed && found.1.moment().free == 0,
            Reservation::Closed => found.1.moment().closed,
        },
{
    let attempt = Attempt { channel: sender.id, moment: Ghost(arbitrary()) };
    let reservation = match sender.sender.try_reserve() {
        Ok(permit) => Reservation::Held(Slot { permit, channel: sender.id }),
        Err(mpsc::error::TrySendError::Full(())) => Reservation::Full,
        Err(mpsc::error::TrySendError::Closed(())) => Reservation::Closed,
    };
    (reservation, attempt)
}

/// Receipt of a message that went into a channel.
#[verifier::reject_recursive_types(M)]
pub struct Handed<M> {
    channel: Ghost<int>,
    message: Ghost<M>,
    before: Ghost<Seq<M>>,
    after: Ghost<Seq<M>>,
}

impl<M> Handed<M> {
    /// Identity of the channel.
    pub closed spec fn channel(&self) -> int {
        self.channel@
    }

    /// The message.
    pub closed spec fn message(&self) -> M {
        self.message@
    }

    /// Unread messages of the channel right before.
    pub closed spec fn before(&self) -> Seq<M> {
        self.before@
    }

    /// Unread messages of the channel right after.
    pub closed spec fn after(&self) -> Seq<M> {
        self.after@
    }
}

/// `tokio::sync::mpsc::Permit::send`: puts the message into the channel of the
/// slot, behind the messages that are in it at that moment.
#[verifier::external_body]
pub(crate) fn queue_fill<M>(slot: Slot<'_, M>, message: M) -> (handed: Handed<M>)
    ensures
        handed.channel() == slot.channel(),
        handed.message() == message,
        handed.after() == handed.before().push(message),
{
    slot.permit.send(message);
    Handed {
        channel: slot.channel,
        message: Ghost(arbitrary()),
        before: Ghost(arbitrary()),
        after: Ghost(arbitrary()),
    }
}

/// `tokio::sync::mpsc::Sender::clone`: another handle of the same channel.
#[verifier::external_body]
pub(crate) fn queue_clone<M>(sender: &QueueSender<M>) -> (other: QueueSender<M>)
    ensures
        other.id() == sender.id(),
        other.room() == sender.room(),
{
    QueueSender { sender: sender.sender.clone(), id: sender.id, room: sender.room }
}

/// `tokio::sync::mpsc::Sender::same_channel`: whether both handles are of one
/// channel.
#[verifier::external_body]
pub(crate) fn queue_same_channel<M>(a: &QueueSender<M>, b: &QueueSender<M>) -> (same: bool)
    ensures
        same == (a.id() == b.id()),
{
    a.sender.same_channel(&b.sender)
}

/// Receipt of an attempt to take a message out of a channel.
#[verifier::reject_recursive_types(M)]
#[verifier::reject_recursive_types(A)]
pub struct Taken<M, A> {
    channel: Ghost<int>,
    answer: Ghost<A>,
    before: Ghost<Seq<M>>,
    after: Ghost<Seq<M>>,
}

impl<M, A> Taken<M, A> {
    /// Identity of the channel.
    pub closed spec fn channel(&self) -> int {
        self.channel@
    }

    /// What the channel answered.
    pub closed spec fn answer(&self) -> A {
        self.answer@
    }

    /// Unread messages of the channel right before.
    pub closed spec fn before(&self) -> Seq<M> {
        self.before@
    }

    /// Unread messages of the channel right after.
    pub closed spec fn after(&self) -> Seq<M> {
        self.after@
    }
}

/// `tokio::sync::mpsc::Receiver::try_recv`: takes the oldest message, or fails
/// on a channel that is empty at that moment. Which of these comes, and whether
/// an empty channel counts as disconnected, depends on what the senders have
/// done. The handle stays that of its channel.
#[verifier::external_body]
pub(crate) fn queue_try_recv<M>(receiver: &mut QueueReceiver<M>) -> (found: (
    Result<M, TryRecvError>,
    Taken<M, Result<M, TryRecvError>>,
))
    ensures
        final(receiver).id() == old(receiver).id(),
        final(receiver).room() == old(receiver).room(),
        found.1.channel() == old(receiver).id(),
        found.1.answer() == found.0,
        match found.0 {
            Ok(message) => found.1.before() == seq![message] + found.1.after(),
            Err(_) => found.1.before().len() == 0 && found.1.after() == found.1.before(),
        },
{
    let received = match receiver.receiver.try_recv() {
        Ok(message) => Ok(message),
        Err(mpsc::error::TryRecvError::Empty) => Err(TryRecvError::Empty),
        Err(mpsc::error::TryRecvError::Disconnected) => Err(TryRecvError::Disconnected),
    };
    let (before, after) = (Ghost(arbitrary()), Ghost(arbitrary()));
    (received, Taken { channel: receiver.id, answer: Ghost(arbitrary()), before, after })
}

/// What a receiver that waits for a message finds.
pub enum Polled<M> {
    /// The oldest message.
    Message(M),
    /// No message is left and none will come.
    Closed,
    /// Nothing yet: the task is woken when that changes.
    Pending,
}

/// `tokio::sync::mpsc::Receiver::poll_recv`: takes the oldest message, or tells
/// the end of a channel that is closed and drained, or neither yet, in which
/// case the task of `cx` is woken later. Which of these comes depends on what
/// the senders have done. The handle stays that of its channel.
#[verifier::external_body]
pub(crate) fn queue_poll_recv<M>(
    receiver: &mut QueueReceiver<M>,
    cx: &mut Context<'_>,
) -> (found: (Polled<M>, Taken<M, Polled<M>>))
    ensures
        final(receiver).id() == old(receiver).id(),
        final(receiver).room() == old(receiver).room(),
        found.1.channel() == old(receiver).id(),
        found.1.answer() == found.0,
        match found.0 {
            Polled::Message(message) => found.1.before() == seq![message] + found.1.after(),
            Polled::Closed => found.1.before().len() == 0 && found.1.after() == found.1.before(),
            Polled::Pending => found.1.after() == found.1.before(),
        },
{
    let polled = match receiver.receiver.poll_recv(cx) {
        Poll::Ready(Some(message)) => Polled::Message(message),
        Poll::Ready(None) => Polled::Closed,
        Poll::Pending => Polled::Pending,
    };
    let (before, after) = (Ghost(arbitrary()), Ghost(arbitrary()));
    (polled, Taken { channel: receiver.id, answer: Ghost(arbitrary()), before, after })
}

impl<M> QueueReceiver<M> {
    /// Takes the oldest message, or has the task of `cx` woken when there is
    /// one.
    pub fn poll_recv(&mut self, cx: &mut Context<'_>) -> (found: (
        Polled<M>,
        Taken<M, Polled<M>>,
    ))
        ensures
            final(self).id() == old(self).id(),
            final(self).room() == old(self).room(),
            found.1.channel() == old(self).id(),
            found.1.answer() == found.0,
            match found.0 {
                Polled::Message(message) => found.1.before() == seq![message] + found.1.after(),
                Polled::Closed => found.1.before().len() == 0 && found.1.after()
                    == found.1.before(),
                Polled::Pending => found.1.after() == found.1.before(),
            },
    {
        queue_poll_recv(self, cx)
    }
}

/// Receipt of a count that was read from a channel.
pub struct Reading {
    channel: Ghost<int>,
    count: usize,
}

impl Reading {
    /// Identity of the channel.
    pub closed spec fn channel(&self) -> int {
        self.channel@
    }

    /// What was read.
    pub closed spec fn counted(&self) -> usize {
        self.count
    }

    /// Returns what was read.
    pub fn count(&self) -> (count: usize)
        ensures
            count == self.counted(),
    {
        self.count
    }
}

/// `tokio::sync::mpsc::Sender::capacity`: reads the slots of this channel that
/// are free right now, which depends on what its other handles have done.
#[verifier::external_body]
pub(crate) fn queue_free<M>(sender: &QueueSender<M>) -> (reading: Reading)
    ensures
        reading.channel() == sender.id(),
{
    Reading { channel: sender.id, count: sender.sender.capacity() }
}

/// `tokio::sync::mpsc::Receiver::len`: reads the messages that are in this
/// channel right now, which depends on what the senders have done.
#[verifier::external_body]
pub(crate) fn queue_len<M>(receiver: &QueueReceiver<M>) -> (reading: Reading)
    ensures
        reading.channel() == receiver.id(),
{
    Reading { channel: receiver.id, count: receiver.receiver.len() }
}

/// Receipt of a given signal.
pub struct Wake {
    signal: Ghost<Notify>,
    all: Ghost<bool>,
}

impl Wake {
    /// The signal.
    pub closed spec fn signal(&self) -> Notify {
        self.signal@
    }

    /// Whether it went to every waiter there was, and not to a single one, now
    /// or to come.
    pub closed spec fn all(&self) -> bool {
        self.all@
    }
}

/// `tokio::sync::Notify::new`: a signal without waiters.
#[verifier::external_body]
pub(crate) fn signal_new() -> Notify {
    Notify::new()
}

/// `tokio::sync::Notify::notify_one`: wakes one waiter of this signal, or the
/// next to come.
#[verifier::external_body]
pub(crate) fn signal_one(signal: &Notify) -> (wake: Wake)
    ensures
        wake.signal() == *signal,
        !wake.all(),
{
    signal.notify_one();
    Wake { signal: Ghost(arbitrary()), all: Ghost(arbitrary()) }
}

/// `tokio::sync::Notify::notify_waiters`: wakes the waiters of this signal that
/// there are.
#[verifier::external_body]
pub(crate) fn signal_waiters(signal: &Notify) -> (wake: Wake)
    ensures
        wake.signal() == *signal,
        wake.all(),
{
    signal.notify_waiters();
    Wake { signal: Ghost(arbitrary()), all: Ghost(arbitrary()) }
}

/// A lock around a value. It stands for itself, whatever it holds.
#[verifier::reject_recursive_types(T)]
pub struct Lock<T> {
    mutex: Mutex<T>,
    first: Ghost<T>,
}

impl<T> Lock<T> {
    /// The value that the lock was made with.
    pub closed spec fn first(&self) -> T {
        self.first@
    }
}

/// The exclusive hold of a lock.
#[verifier::reject_recursive_types(T)]
pub(crate) struct Hold<'a, T> {
    guard: MutexGuard<'a, T>,
    lock: Ghost<Lock<T>>,
    before: Ghost<T>,
    held: Ghost<T>,
}

impl<'a, T> Hold<'a, T> {
    /// The lock.
    pub(crate) closed spec fn lock(&self) -> Lock<T> {
        self.lock@
    }

    /// The value that the lock held when it was taken.
    pub(crate) closed spec fn before(&self) -> T {
        self.before@
    }

    /// The value that the lock holds.
    pub(crate) closed spec fn held(&self) -> T {
        self.held@
    }
}

/// Receipt of a hold of a lock from its begin to its end.
#[verifier::reject_recursive_types(T)]
pub struct Visit<T> {
    lock: Ghost<Lock<T>>,
    before: Ghost<T>,
    after: Ghost<T>,
}

impl<T> Visit<T> {
    /// The lock.
    pub closed spec fn lock(&self) -> Lock<T> {
        self.lock@
    }

    /// The value that the lock held when it was taken.
    pub closed spec fn before(&self) -> T {
        self.before@
    }

    /// The value that the lock held when it was given back.
    pub closed spec fn after(&self) -> T {
        self.after@
    }
}

/// `std::sync::Mutex::new`: a free lock around `value`.
#[verifier::external_body]
pub(crate) fn lock_new<T>(value: T) -> (lock: Lock<T>)
    ensures
        lock.first() == value,
{
    Lock { mutex: Mutex::new(value), first: Ghost(arbitrary()) }
}

/// `std::sync::Mutex::lock`, also past a holder that panicked: takes this lock.
/// What it holds then depends on the other holders.
#[verifier::external_body]
pub(crate) fn lock_enter<T>(lock: &Lock<T>) -> (hold: Hold<'_, T>)
    ensures
        hold.lock() == *lock,
        hold.held() == hold.before(),
{
    let guard = lock.mutex.lock().unwrap_or_else(std::sync::PoisonError::into_inner);
    let (lock, before, held) = (Ghost(arbitrary()), Ghost(arbitrary()), Ghost(arbitrary()));
    Hold { guard, lock, before, held }
}

/// `<std::sync::MutexGuard as std::ops::DerefMut>::deref_mut`: access to the
/// value that the lock holds.
#[verifier::external_body]
pub(crate) fn lock_value<'a, T>(hold: &'a mut Hold<'_, T>) -> (value: &'a mut T)
    ensures
        *value == old(hold).held(),
        final(hold).held() == *final(value),
        final(hold).lock() == old(hold).lock(),
        final(hold).before() == old(hold).before(),
{
    &mut *hold.guard
}

/// `std::mem::drop` of a `std::sync::MutexGuard`: gives the lock back with the
/// value that it holds now.
#[verifier::external_body]
pub(crate) fn lock_leave<T>(hold: Hold<'_, T>) -> (visit: Visit<T>)
    ensures
        visit.lock() == hold.lock(),
        visit.before() == hold.before(),
        visit.after() == hold.held(),
{
    let visit = Visit { lock: hold.lock, before: hold.before, after: hold.held };
    drop(hold.guard);
    visit
}

/// A flag. It stands for itself, whatever it is.
pub struct Flag {
    flag: AtomicBool,
    first: Ghost<bool>,
}

impl Flag {
    /// What the flag was made as.
    pub closed spec fn first(&self) -> bool {
        self.first@
    }

    /// Reads the flag, which depends on its other holders.
    pub fn read(&self) -> (read: FlagRead)
        ensures
            read.flag() == *self,
    {
        flag_read(self)
    }
}

/// Receipt of a flag that was read.
pub struct FlagRead {
    flag: Ghost<Flag>,
    set: bool,
}

impl FlagRead {
    /// The flag.
    pub closed spec fn flag(&self) -> Flag {
        self.flag@
    }

    /// What it was.
    pub closed spec fn set(&self) -> bool {
        self.set
    }

    /// Returns what it was.
    pub fn is_set(&self) -> (set: bool)
        ensures
            set == self.set(),
    {
        self.set
    }
}

/// Receipt of a flag that was lowered.
pub struct FlagLowered {
    flag: Ghost<Flag>,
}

impl FlagLowered {
    /// The flag.
    pub closed spec fn flag(&self) -> Flag {
        self.flag@
    }
}

/// `std::sync::atomic::AtomicBool::new` of `true`: a raised flag.
#[verifier::external_body]
pub(crate) fn flag_raised() -> (flag: Flag)
    ensures
        flag.first(),
{
    Flag { flag: AtomicBool::new(true), first: Ghost(arbitrary()) }
}

/// `std::sync::atomic::AtomicBool::load`: reads this flag. What it is depends
/// on its other holders.
#[verifier::external_body]
pub(crate) fn flag_read(flag: &Flag) -> (read: FlagRead)
    ensures
        read.flag() == *flag,
{
    FlagRead { flag: Ghost(arbitrary()), set: flag.flag.load(Ordering::Acquire) }
}

/// `std::sync::atomic::AtomicBool::store` of `false`: lowers this flag.
#[verifier::external_body]
pub(crate) fn flag_lower(flag: &Flag) -> (lowered: FlagLowered)
    ensures
        lowered.flag() == *flag,
{
    flag.flag.store(false, Ordering::Release);
    FlagLowered { flag: Ghost(arbitrary()) }
}

} // verus!
