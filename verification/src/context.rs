//! State of one actor incarnation and the decisions of the work it owns:
//! deliveries, timers, watches, intervals and offloads.
use std::collections::VecDeque;
use vstd::prelude::*;

use crate::delivery::ActorRef;
use crate::error::BlockingCancelled;
use crate::host::ActorReadySignal;
use crate::mailbox::TryRecvError;
use crate::membership::RestrictedScopeRef;
use crate::monitor::MonitorEvent;
use crate::registry::{ActorMonitorLease, Registration};
use crate::scope::ScopeRef;
use crate::stats::ActorStatsCounters;
use crate::timers::{TimerKey, TimerTable, TimerWake};

verus! {

/// The lifecycle state visible through an actor context.
///
/// `Draining` takes precedence once a handler is replaying accepted work.
/// Runtime shutdown on its own does not change this status.
#[derive(Clone, Copy, Debug, PartialEq, Eq, Structural)]
pub enum ActorStatus {
    /// The callback is live and has not requested a local stop.
    Running,
    /// This handler call is replaying accepted work before stopping.
    Draining,
    /// The live callback has requested a local stop.
    Stopping,
}

/// Incarnation-local state of a running actor.
pub struct RawContext<M> {
    /// Id of the actor.
    pub id: String,
    /// Sender to the actor's own mailbox.
    pub myself: ActorRef<M>,
    /// Whether queued messages are handled before a stop.
    pub drain_messages: bool,
    /// Loop-owned timeouts.
    pub timers: TimerTable<M>,
    /// Authority to register watches.
    pub monitors: ActorMonitorLease,
    /// Readiness signal.
    pub ready: ActorReadySignal,
    /// Follow-up work, ahead of the mailbox.
    pub continuations: VecDeque<M>,
    /// Whether a local stop has been requested.
    pub stop_requested: bool,
    /// Offloads that have not been joined.
    pub offloads: usize,
    /// Live scope waits.
    pub scope_waits: Vec<u64>,
    /// Enclosing scope.
    pub supervisor: ScopeRef,
}

impl<M> RawContext<M> {
    /// The timer table is well formed.
    pub open spec fn wf(&self) -> bool {
        self.timers.wf()
    }

    /// Creates the state of a fresh incarnation.
    pub fn new(
        myself: ActorRef<M>,
        drain_messages: bool,
        monitors: ActorMonitorLease,
        ready: ActorReadySignal,
        supervisor: ScopeRef,
    ) -> (context: Self)
        ensures
            context.wf(),
            context.id == myself.actor_id,
            context.myself == myself,
            context.drain_messages == drain_messages,
            context.timers.entries@.len() == 0,
            context.monitors == monitors,
            context.ready == ready,
            context.continuations@.len() == 0,
            !context.stop_requested,
            context.offloads == 0,
            context.scope_waits@.len() == 0,
            context.supervisor == supervisor,
    {
        RawContext {
            id: myself.actor_id.clone(),
            myself,
            drain_messages,
            timers: TimerTable::new(),
            monitors,
            ready,
            continuations: VecDeque::new(),
            stop_requested: false,
            offloads: 0,
            scope_waits: Vec::new(),
            supervisor,
        }
    }

    /// The context `after` the actor reported that it is ready.
    pub open spec fn marks_ready(&self, first: bool, after: Self) -> bool {
        &&& after.wf()
        &&& first == !self.ready.reported
        &&& after == (RawContext {
            ready: ActorReadySignal { reported: true, ..self.ready },
            ..*self
        })
    }

    /// Reports readiness. `true` asks the caller to pass it on, which happens
    /// once.
    pub fn mark_ready(&mut self) -> (first: bool)
        requires
            old(self).wf(),
        ensures
            old(self).marks_ready(first, *final(self)),
    {
        self.ready.mark()
    }

    /// What the next continuation is.
    pub open spec fn takes_continuation(&self, message: Option<M>, after: Self) -> bool {
        &&& after.wf()
        &&& after == (RawContext {
            continuations: after.continuations,
            ..*self
        })
        &&& match message {
            Some(message) => {
                &&& self.continuations@.len() > 0
                &&& message == self.continuations@[0]
                &&& after.continuations@ == self.continuations@.drop_first()
            },
            None => self.continuations@.len() == 0 && after.continuations@ == self.continuations@,
        }
    }

    /// Takes the next follow-up message.
    pub fn take_continuation(&mut self) -> (message: Option<M>)
        requires
            old(self).wf(),
        ensures
            old(self).takes_continuation(message, *final(self)),
    {
        let message = self.continuations.pop_front();
        assert(message is Some ==> self.continuations@ =~= old(self).continuations@.drop_first());
        message
    }

    /// The context `after` a continuation was queued.
    pub open spec fn continues_with(&self, message: M, after: Self) -> bool {
        &&& after.wf()
        &&& after == (RawContext {
            continuations: after.continuations,
            ..*self
        })
        &&& after.continuations@ == self.continuations@.push(message)
    }

    /// Queues follow-up work as the actor's next message.
    pub fn continue_with(&mut self, message: M)
        requires
            old(self).wf(),
        ensures
            old(self).continues_with(message, *final(self)),
    {
        self.continuations.push_back(message);
    }

    /// The context `after` the actor asked for its stop.
    pub open spec fn stops(&self, after: Self) -> bool {
        &&& after.wf()
        &&& after == (RawContext { stop_requested: true, ..*self })
    }

    /// Requests a clean stop of this actor incarnation. Repeated calls are
    /// harmless.
    pub fn stop(&mut self)
        requires
            old(self).wf(),
        ensures
            old(self).stops(*final(self)),
    {
        self.stop_requested = true;
    }

    /// Reports whether a local stop has been requested.
    pub fn is_stop_requested(&self) -> (requested: bool)
        ensures
            requested == self.stop_requested,
    {
        self.stop_requested
    }

    /// The status that the actor sees.
    pub open spec fn shows_status(&self, draining: bool, status: ActorStatus) -> bool {
        status == if draining {
            ActorStatus::Draining
        } else if self.stop_requested {
            ActorStatus::Stopping
        } else {
            ActorStatus::Running
        }
    }

    /// Returns the lifecycle state of a callback, `draining` while accepted
    /// work is replayed.
    pub fn status(&self, draining: bool) -> (status: ActorStatus)
        ensures
            self.shows_status(draining, status),
    {
        if draining {
            ActorStatus::Draining
        } else if self.stop_requested {
            ActorStatus::Stopping
        } else {
            ActorStatus::Running
        }
    }

    /// The context `after` a timeout was set.
    pub open spec fn arms(
        &self,
        key: TimerKey,
        message: M,
        delay: u64,
        now: u64,
        after: Self,
    ) -> bool {
        &&& after.wf()
        &&& after == (RawContext { timers: after.timers, ..*self })
        &&& after.timers.entries@ == crate::timers::cleared(
            self.timers.entries@,
            key@,
        ).push(
            crate::timers::TimerEntry {
                id: self.timers.next_id,
                key,
                deadline: crate::clock::deadline(now, delay),
                message,
            },
        )
        &&& after.timers.next_id == crate::timers::following_id(self.timers.next_id)
    }

    /// Arms a keyed one-shot timeout, replacing the timeout at the same key.
    pub fn set_timeout(&mut self, key: TimerKey, message: M, delay: u64, now: u64)
        requires
            old(self).wf(),
        ensures
            old(self).arms(key, message, delay, now, *final(self)),
    {
        self.timers.insert(key, message, delay, now);
    }

    /// The context `after` a timeout was cleared.
    pub open spec fn clears(&self, key: TimerKey, after: Self) -> bool {
        &&& after.wf()
        &&& after == (RawContext { timers: after.timers, ..*self })
        &&& after.timers.entries@ == crate::timers::cleared(self.timers.entries@, key@)
        &&& after.timers.next_id == self.timers.next_id
    }

    /// Clears the timeout at `key`, if one is armed.
    pub fn clear_timeout(&mut self, key: TimerKey)
        requires
            old(self).wf(),
        ensures
            old(self).clears(key, *final(self)),
    {
        self.timers.clear(key);
    }

    /// Returns the timeout that fires next.
    pub fn next_timer_wake(&self) -> (wake: Option<TimerWake>)
        ensures
            self.timers.wakes_at(wake),
    {
        self.timers.next_wake()
    }

    /// What `wake` fires at `now`.
    pub open spec fn takes_fired(
        &self,
        wake: TimerWake,
        now: u64,
        fired: Option<M>,
        after: Self,
    ) -> bool {
        &&& after.wf()
        &&& after == (RawContext { timers: after.timers, ..*self })
        &&& after.timers.next_id == self.timers.next_id
        &&& match fired {
            Some(message) => wake.deadline <= now && exists|i: int| #[trigger]
                crate::timers::wake_at(self.timers.entries@, wake, i) && message == self.timers.entries@[i].message && after.timers.entries@
                    == crate::timers::without(self.timers.entries@, i),
            None => after.timers.entries@ == self.timers.entries@ && (wake.deadline
                > now || forall|i: int|
                !#[trigger] crate::timers::wake_at(self.timers.entries@, wake, i)),
        }
    }

    /// Takes the message of the timeout that `wake` speaks of, if it is still
    /// armed and has fired by `now`.
    pub fn take_fired_timer(&mut self, wake: TimerWake, now: u64) -> (fired: Option<M>)
        requires
            old(self).wf(),
        ensures
            old(self).takes_fired(wake, now, fired, *final(self)),
    {
        self.timers.take_fired(wake, now)
    }

    /// Returns the actor's identifier within its scope.
    pub fn id(&self) -> (id: &String)
        ensures
            *id == self.id,
    {
        &self.id
    }

    /// Returns a sender targeting this actor's own mailbox.
    pub fn myself(&self) -> (actor: ActorRef<M>)
        ensures
            actor == self.myself,
    {
        self.myself.clone()
    }

    /// Returns this actor's enclosing scope with lifecycle waits withheld.
    pub fn supervisor(&self) -> (scope: RestrictedScopeRef)
        ensures
            scope.scope() == self.supervisor,
    {
        RestrictedScopeRef::new(self.supervisor.clone())
    }

    /// An offload has started.
    pub open spec fn starts_offload(
        &self,
        counters: ActorStatsCounters,
        after: Self,
        counters_after: ActorStatsCounters,
    ) -> bool {
        &&& after.wf()
        &&& after == (RawContext {
            offloads: (self.offloads + 1) as usize,
            ..*self
        })
        &&& counters_after.outstanding_offloads == after.offloads
        &&& counters_after == (ActorStatsCounters {
            outstanding_offloads: counters_after.outstanding_offloads,
            ..counters
        })
    }

    /// Records a started offload.
    pub fn offload_started(&mut self, counters: &mut ActorStatsCounters)
        requires
            old(self).wf(),
            old(self).offloads < usize::MAX,
        ensures
            old(self).starts_offload(*old(counters), *final(self), *final(counters)),
    {
        self.offloads = self.offloads + 1;
        counters.set_outstanding_offloads(self.offloads);
    }

    /// What the end of an offload comes to.
    pub open spec fn joins_offload(
        &self,
        counters: ActorStatsCounters,
        joined: JoinedTask<M>,
        result: Joined<M>,
        after: Self,
        counters_after: ActorStatsCounters,
    ) -> bool {
        &&& after.wf()
        &&& after == (RawContext {
            offloads: (self.offloads - 1) as usize,
            ..*self
        })
        &&& counters_after.outstanding_offloads == after.offloads
        &&& counters_after == (ActorStatsCounters {
            outstanding_offloads: counters_after.outstanding_offloads,
            ..counters
        })
        &&& result == match joined {
            JoinedTask::Completed { message, cancelled } => if cancelled {
                Joined::<M>::Ignored
            } else {
                Joined::Deliver(message)
            },
            JoinedTask::Panicked => Joined::Resume,
            JoinedTask::Aborted => Joined::Ignored,
        }
    }

    /// Settles a joined offload. A cancelled or aborted one delivers nothing,
    /// and a panic resumes on the actor.
    pub fn joined_offload(
        &mut self,
        counters: &mut ActorStatsCounters,
        joined: JoinedTask<M>,
    ) -> (result: Joined<M>)
        requires
            old(self).wf(),
            old(self).offloads > 0,
        ensures
            old(self).joins_offload(
                *old(counters),
                joined,
                result,
                *final(self),
                *final(counters),
            ),
    {
        self.offloads = self.offloads - 1;
        counters.set_outstanding_offloads(self.offloads);
        match joined {
            JoinedTask::Completed { message, cancelled } => if cancelled {
                Joined::Ignored
            } else {
                Joined::Deliver(message)
            },
            JoinedTask::Panicked => Joined::Resume,
            JoinedTask::Aborted => Joined::Ignored,
        }
    }

    /// The context `after` a wait is over.
    pub open spec fn joins_wait(
        &self,
        task: u64,
        panicked: bool,
        resume: bool,
        after: Self,
    ) -> bool {
        &&& after.wf()
        &&& after == (RawContext { scope_waits: after.scope_waits, ..*self })
        &&& resume == panicked
        &&& joined_wait(self.scope_waits@, task, after.scope_waits@)
    }

    /// Settles a joined scope wait, which delivers through the mailbox. A
    /// panic resumes on the actor.
    pub fn joined_scope_wait(&mut self, task: u64, panicked: bool) -> (resume: bool)
        requires
            old(self).wf(),
        ensures
            old(self).joins_wait(task, panicked, resume, *final(self)),
    {
        let mut i: usize = 0;
        while i < self.scope_waits.len() && self.scope_waits[i] != task
            invariant
                i <= self.scope_waits@.len(),
                forall|j: int| 0 <= j < i ==> #[trigger] self.scope_waits@[j] != task,
            decreases self.scope_waits.len() - i,
        {
            i += 1;
        }
        if i < self.scope_waits.len() {
            assert(wait_at(self.scope_waits@, task, i as int));
            let _joined = self.scope_waits.remove(i);
        }
        panicked
    }

    /// The context `after` a wait has started.
    pub open spec fn starts_wait(&self, task: u64, after: Self) -> bool {
        &&& after.wf()
        &&& after == (RawContext { scope_waits: after.scope_waits, ..*self })
        &&& after.scope_waits@ == self.scope_waits@.push(task)
    }

    /// Records a started scope wait.
    pub fn scope_wait_started(&mut self, task: u64)
        requires
            old(self).wf(),
        ensures
            old(self).starts_wait(task, *final(self)),
    {
        self.scope_waits.push(task);
    }

    /// Ends all scope waits, which are not work to drain. Returns those to
    /// call off.
    pub fn abort_scope_waits(&mut self) -> (aborted: Vec<u64>)
        requires
            old(self).wf(),
        ensures
            final(self).wf(),
            *final(self) == (RawContext { scope_waits: final(self).scope_waits, ..*old(self) }),
            aborted@ == old(self).scope_waits@,
            final(self).scope_waits@.len() == 0,
    {
        let mut aborted: Vec<u64> = Vec::new();
        std::mem::swap(&mut aborted, &mut self.scope_waits);
        aborted
    }

    /// What a receive of `delivered` comes to.
    pub open spec fn receives(
        &self,
        counters: ActorStatsCounters,
        shutdown: bool,
        delivered: Option<M>,
        message: Option<M>,
        counters_after: ActorStatsCounters,
    ) -> bool {
        &&& message == if shutdown {
            None
        } else {
            delivered
        }
        &&& counters_after == if message is Some {
            counters.with_received()
        } else {
            counters
        }
    }

    /// Receives: shutdown comes first and returns `None` even when messages are
    /// still queued; otherwise the delivery is counted and returned.
    pub fn recv(&self, counters: &mut ActorStatsCounters, shutdown: bool, delivered: Option<M>) -> (
        message: Option<M>)
        ensures
            self.receives(*old(counters), shutdown, delivered, message, *final(counters)),
    {
        if shutdown {
            return None;
        }
        if delivered.is_some() {
            counters.record_received();
        }
        delivered
    }

    /// What an immediate receive of `delivered` comes to.
    pub open spec fn tries_receive(
        &self,
        counters: ActorStatsCounters,
        delivered: Result<M, TryRecvError>,
        message: Option<M>,
        counters_after: ActorStatsCounters,
    ) -> bool {
        &&& message == match delivered {
            Ok(message) => Some(message),
            Err(_) => None,
        }
        &&& counters_after == if message is Some {
            counters.with_received()
        } else {
            counters
        }
    }

    /// Receives without waiting and without looking at shutdown.
    pub fn try_recv(
        &self,
        counters: &mut ActorStatsCounters,
        delivered: Result<M, TryRecvError>,
    ) -> (message: Option<M>)
        ensures
            self.tries_receive(*old(counters), delivered, message, *final(counters)),
    {
        match delivered {
            Ok(message) => {
                counters.record_received();
                Some(message)
            },
            Err(_) => None,
        }
    }

    /// The context `after` its incarnation is over.
    pub open spec fn releases(
        &self,
        counters: ActorStatsCounters,
        aborted: Vec<u64>,
        after: Self,
        counters_after: ActorStatsCounters,
    ) -> bool {
        &&& after.wf()
        &&& after == (RawContext { scope_waits: after.scope_waits, ..*self })
        &&& aborted@ == self.scope_waits@
        &&& after.scope_waits@.len() == 0
        &&& counters_after == (ActorStatsCounters { outstanding_offloads: 0, ..counters })
    }

    /// Gives the incarnation up: no offload is outstanding any more, and the
    /// scope waits that are left are returned to be called off.
    pub fn release(&mut self, counters: &mut ActorStatsCounters) -> (aborted: Vec<u64>)
        requires
            old(self).wf(),
        ensures
            old(self).releases(*old(counters), aborted, *final(self), *final(counters)),
    {
        counters.set_outstanding_offloads(0);
        self.abort_scope_waits()
    }
}

/// The first wait `task` stands at `i`.
pub open spec fn wait_at(waits: Seq<u64>, task: u64, i: int) -> bool {
    &&& 0 <= i < waits.len()
    &&& waits[i] == task
    &&& forall|j: int| 0 <= j < i ==> #[trigger] waits[j] != task
}

/// `after` is `before` without the joined wait `task`.
pub open spec fn joined_wait(before: Seq<u64>, task: u64, after: Seq<u64>) -> bool {
    if before.contains(task) {
        exists|i: int| #[trigger] wait_at(before, task, i) && after == before.remove(i)
    } else {
        after == before
    }
}

/// How a task owned by the incarnation ended.
pub enum JoinedTask<M> {
    /// It produced a message.
    Completed {
        /// The message.
        message: M,
        /// Whether its guard had been dropped by then.
        cancelled: bool,
    },
    /// It panicked.
    Panicked,
    /// It was aborted.
    Aborted,
}

/// What a joined task means for the actor.
pub enum Joined<M> {
    /// Deliver the message.
    Deliver(M),
    /// Nothing.
    Ignored,
    /// Resume the panic.
    Resume,
}

/// What woke a wait for the next delivery.
pub enum Delivery<M> {
    /// The mailbox: its next message, or that it is closed.
    Mailbox(Option<M>),
    /// An offload.
    Offload(JoinedTask<M>),
    /// A scope wait.
    ScopeWait {
        /// The wait.
        task: u64,
        /// Whether it panicked.
        panicked: bool,
    },
}

/// Where an immediate receive looks.
#[derive(Clone, Copy, Debug, PartialEq, Eq, Structural)]
pub enum TrySource {
    /// A finished scope wait.
    ScopeWait,
    /// A finished offload.
    Offload,
    /// The mailbox.
    Mailbox,
}

/// Where a delivery is looked for first.
pub open spec fn delivery_source(wait_finished: bool, offload_finished: bool) -> TrySource {
    if wait_finished {
        TrySource::ScopeWait
    } else if offload_finished {
        TrySource::Offload
    } else {
        TrySource::Mailbox
    }
}

/// Decides where an immediate receive looks next: finished scope waits are
/// settled first, then finished offloads, and the mailbox comes last.
pub fn try_delivery_source(wait_finished: bool, offload_finished: bool) -> (source: TrySource)
    ensures
        source == delivery_source(wait_finished, offload_finished),
{
    if wait_finished {
        TrySource::ScopeWait
    } else if offload_finished {
        TrySource::Offload
    } else {
        TrySource::Mailbox
    }
}

/// What a wait for the next delivery does next.
pub enum DeliveryStep<M> {
    /// Return this delivery, or the end of deliveries.
    Return(Option<M>),
    /// Wait on.
    Again,
    /// Resume a panic.
    Resume,
}

impl<M> RawContext<M> {
    /// What a delivery comes to.
    pub open spec fn delivers(
        &self,
        counters: ActorStatsCounters,
        delivery: Delivery<M>,
        step: DeliveryStep<M>,
        after: Self,
        counters_after: ActorStatsCounters,
    ) -> bool {
        &&& after.wf()
        &&& match delivery {
            Delivery::Mailbox(message) => step == DeliveryStep::Return(message)
                && after == *self && counters_after == counters,
            Delivery::Offload(joined) => {
                &&& step == match joined {
                    JoinedTask::Completed { message, cancelled } => if cancelled {
                        DeliveryStep::<M>::Again
                    } else {
                        DeliveryStep::Return(Some(message))
                    },
                    JoinedTask::Panicked => DeliveryStep::Resume,
                    JoinedTask::Aborted => DeliveryStep::Again,
                }
                &&& after == (RawContext {
                    offloads: (self.offloads - 1) as usize,
                    ..*self
                })
                &&& counters_after == (ActorStatsCounters {
                    outstanding_offloads: after.offloads as u64,
                    ..counters
                })
            },
            Delivery::ScopeWait { task, panicked } => {
                &&& step == if panicked {
                    DeliveryStep::<M>::Resume
                } else {
                    DeliveryStep::Again
                }
                &&& after == (RawContext {
                    scope_waits: after.scope_waits,
                    ..*self
                })
                &&& joined_wait(self.scope_waits@, task, after.scope_waits@)
                &&& counters_after == counters
            },
        }
    }

    /// Settles what woke a wait for the next delivery. The mailbox decides for
    /// itself; offloads deliver unless they were cancelled; scope waits never
    /// deliver here.
    pub fn on_delivery(&mut self, counters: &mut ActorStatsCounters, delivery: Delivery<M>) -> (
        step: DeliveryStep<M>)
        requires
            old(self).wf(),
            delivery is Offload ==> old(self).offloads > 0,
        ensures
            old(self).delivers(*old(counters), delivery, step, *final(self), *final(counters)),
    {
        match delivery {
            Delivery::Mailbox(message) => DeliveryStep::Return(message),
            Delivery::Offload(joined) => match self.joined_offload(counters, joined) {
                Joined::Deliver(message) => DeliveryStep::Return(Some(message)),
                Joined::Ignored => DeliveryStep::Again,
                Joined::Resume => DeliveryStep::Resume,
            },
            Delivery::ScopeWait { task, panicked } => if self.joined_scope_wait(task, panicked) {
                DeliveryStep::Resume
            } else {
                DeliveryStep::Again
            },
        }
    }

    /// What a look while draining comes to.
    pub open spec fn drains(&self, ready: Option<M>, step: DeliveryStep<M>) -> bool {
        step == match ready {
            Some(message) => DeliveryStep::Return(Some(message)),
            None => if self.offloads == 0 {
                DeliveryStep::Return(None)
            } else {
                DeliveryStep::Again
            },
        }
    }

    /// Decides a turn of the drain: what is ready is delivered, and the drain
    /// is over once nothing is ready and no offload is left.
    pub fn drain_step(&self, ready: Option<M>) -> (step: DeliveryStep<M>)
        ensures
            self.drains(ready, step),
    {
        match ready {
            Some(message) => DeliveryStep::Return(Some(message)),
            None => if self.offloads == 0 {
                DeliveryStep::Return(None)
            } else {
                DeliveryStep::Again
            },
        }
    }
}

/// What a request to watch an actor leads to.
#[derive(Clone, Copy, Debug, PartialEq, Eq, Structural)]
pub enum WatchPlan {
    /// The watch is over before it began.
    Finished,
    /// Share the existing watch.
    Alias(u64),
    /// Install a forwarder for this watch.
    Install(u64),
    /// Finish this watch: nothing can run its forwarder.
    Abandon(u64),
}

/// What a request to watch an actor comes to. The pair shares one watch; a
/// forwarder needs a runtime to run on.
pub open spec fn watch_plan(registration: Registration, has_runtime: bool) -> WatchPlan {
    match registration {
        Registration::Stale => WatchPlan::Finished,
        Registration::Existing(watch) => WatchPlan::Alias(watch),
        Registration::Installed(watch) => if has_runtime {
            WatchPlan::Install(watch)
        } else {
            WatchPlan::Abandon(watch)
        },
    }
}

/// Decides a request to watch an actor.
pub fn plan_watch(registration: Registration, has_runtime: bool) -> (plan: WatchPlan)
    ensures
        plan == watch_plan(registration, has_runtime),
{
    match registration {
        Registration::Stale => WatchPlan::Finished,
        Registration::Existing(watch) => WatchPlan::Alias(watch),
        Registration::Installed(watch) => if has_runtime {
            WatchPlan::Install(watch)
        } else {
            WatchPlan::Abandon(watch)
        },
    }
}

/// What the forwarder of a watch does next.
#[derive(Debug, PartialEq, Eq)]
pub enum ForwardStep {
    /// End the forwarder.
    Stop,
    /// Map and send this event.
    Send {
        /// The event.
        event: MonitorEvent,
        /// Whether it is the last one.
        terminal: bool,
    },
    /// Wait for another event.
    Wait,
}

/// What forwarding of monitor events does next.
pub open spec fn forwarding(cancelled: bool, stopped: bool, event: Option<MonitorEvent>) -> ForwardStep {
    if cancelled || stopped {
        ForwardStep::Stop
    } else {
        match event {
            Some(event) => ForwardStep::Send { event, terminal: event is Removed },
            None => ForwardStep::Wait,
        }
    }
}

/// Decides a turn of a watch forwarder. Cancellation and the end of the
/// observing membership are seen before the user's mapper runs.
pub fn forward_step(cancelled: bool, stopped: bool, event: Option<MonitorEvent>) -> (step:
    ForwardStep)
    ensures
        step == forwarding(cancelled, stopped, event),
{
    if cancelled || stopped {
        return ForwardStep::Stop;
    }
    match event {
        Some(event) => {
            let terminal = matches!(event, MonitorEvent::Removed { .. });
            ForwardStep::Send { event, terminal }
        },
        None => ForwardStep::Wait,
    }
}

/// What a scope wait does next.
#[derive(Debug, PartialEq, Eq)]
pub enum ScopeWaitStep<T> {
    /// End without a message.
    Stop,
    /// Map this output and send it to the incarnation that started the wait.
    Send(T),
    /// Wait on.
    Wait,
}

/// What a wait on behalf of the actor does next.
pub open spec fn scope_waiting<T>(cancelled: bool, output: Option<T>) -> ScopeWaitStep<T> {
    if cancelled {
        ScopeWaitStep::<T>::Stop
    } else {
        match output {
            Some(output) => ScopeWaitStep::Send(output),
            None => ScopeWaitStep::Wait,
        }
    }
}

/// Decides a turn of a scope wait. A cancelled wait sends nothing, also when
/// its output is already there.
pub fn scope_wait_step<T>(cancelled: bool, output: Option<T>) -> (step: ScopeWaitStep<T>)
    ensures
        step == scope_waiting(cancelled, output),
{
    if cancelled {
        return ScopeWaitStep::Stop;
    }
    match output {
        Some(output) => ScopeWaitStep::Send(output),
        None => ScopeWaitStep::Wait,
    }
}

/// What a timer that delivers through a mailbox does next.
#[derive(Clone, Copy, Debug, PartialEq, Eq, Structural)]
pub enum TimerStep {
    /// End the timer.
    Stop,
    /// Send the message.
    Send,
    /// Wait on.
    Wait,
}

/// What a delayed send does next.
pub open spec fn delaying(cancelled: bool, lifetime_over: bool, due: bool) -> TimerStep {
    if cancelled || lifetime_over {
        TimerStep::Stop
    } else if due {
        TimerStep::Send
    } else {
        TimerStep::Wait
    }
}

/// Decides a turn of a delayed or periodic send while it waits for its time.
/// Cancellation comes first, then the end of the scheduling incarnation.
pub fn timer_step(cancelled: bool, lifetime_over: bool, due: bool) -> (step: TimerStep)
    ensures
        step == delaying(cancelled, lifetime_over, due),
{
    if cancelled || lifetime_over {
        TimerStep::Stop
    } else if due {
        TimerStep::Send
    } else {
        TimerStep::Wait
    }
}

/// What an interval does after a tick was sent.
pub open spec fn ticking(cancelled: bool, lifetime_over: bool, sent: Option<bool>) -> TimerStep {
    if cancelled || lifetime_over || sent == Some(false) {
        TimerStep::Stop
    } else {
        TimerStep::Wait
    }
}

/// Decides what follows a tick of a periodic send: `sent` is the outcome of
/// the send once there is one. The interval ends with the target.
pub fn interval_sent(cancelled: bool, lifetime_over: bool, sent: Option<bool>) -> (step: TimerStep)
    ensures
        step == ticking(cancelled, lifetime_over, sent),
{
    if cancelled || lifetime_over {
        return TimerStep::Stop;
    }
    match sent {
        Some(accepted) => if accepted {
            TimerStep::Wait
        } else {
            TimerStep::Stop
        },
        None => TimerStep::Wait,
    }
}

/// When an interval ticks first.
pub open spec fn tick_at(now: u64, period: u64) -> Option<u64> {
    if period == 0 {
        None
    } else {
        Some(crate::clock::deadline(now, period))
    }
}

/// First tick of an interval started at `now`, or `None` for a zero period,
/// which never ticks.
pub fn first_tick(now: u64, period: u64) -> (tick: Option<u64>)
    ensures
        tick == tick_at(now, period),
{
    if period == 0 {
        None
    } else {
        Some(crate::clock::deadline_after(now, period))
    }
}

/// How blocking work ended.
pub enum BlockingOutcome<R> {
    /// It returned.
    Returned(R),
    /// It panicked.
    Panicked,
    /// It was cancelled before it ran.
    Cancelled,
}

/// What blocking work comes to.
pub open spec fn blocking_result<R>(outcome: BlockingOutcome<R>) -> Option<
    Result<R, BlockingCancelled>,
> {
    match outcome {
        BlockingOutcome::Returned(value) => Some(Ok::<R, BlockingCancelled>(value)),
        BlockingOutcome::Panicked => None,
        BlockingOutcome::Cancelled => Some(Err(BlockingCancelled)),
    }
}

/// Classifies the end of blocking work. `None` resumes its panic.
pub fn settle_blocking<R>(outcome: BlockingOutcome<R>) -> (result: Option<
    Result<R, BlockingCancelled>,
>)
    ensures
        result == blocking_result(outcome),
{
    match outcome {
        BlockingOutcome::Returned(value) => Some(Ok(value)),
        BlockingOutcome::Panicked => None,
        BlockingOutcome::Cancelled => Some(Err(BlockingCancelled)),
    }
}

} // verus!
