//! The receive loop of handler-style actors.
use vstd::prelude::*;

use crate::context::RawContext;
use crate::stats::ActorStatsCounters;
use crate::timers::TimerWake;

verus! {

/// Where the receive loop stands.
#[derive(Clone, Copy, Debug, PartialEq, Eq, Structural)]
pub enum LoopPhase {
    /// The start hook is running.
    Starting,
    /// At the top of the loop.
    Receiving,
    /// An ordinary message is being handled.
    Handling,
    /// A timer has elapsed and messages queued by then get their turn first.
    Elapsed {
        /// The elapsed timer.
        wake: TimerWake,
        /// How many of them may still come.
        queued: usize,
    },
    /// Such a message is being handled.
    HandlingElapsed {
        /// The elapsed timer.
        wake: TimerWake,
        /// How many more may come.
        queued: usize,
    },
    /// The message of a fired timer is being handled.
    HandlingTimer,
    /// Accepted work is being drained.
    Draining,
    /// A drained message is being handled.
    HandlingDrained,
    /// Queued work is being discarded.
    Discarding,
    /// The stop hook is running.
    Stopping,
    /// Over.
    Done,
}

/// What the driver of the receive loop does next.
pub enum LoopStep<M> {
    /// Wait for shutdown, for the timer if there is one, or for a delivery,
    /// in this order of precedence.
    Await {
        /// The next timer.
        timer: Option<TimerWake>,
    },
    /// Take one queued message without waiting.
    TryReceive,
    /// Handle the message.
    Handle {
        /// The message.
        message: M,
        /// Whether accepted work is being drained.
        draining: bool,
    },
    /// Look at the loop again.
    Again,
    /// End scope waits, close external intake, then hand in what the drain
    /// delivers.
    Drain,
    /// End scope waits, close external intake and abort offloads.
    Discard,
    /// Run the stop hook.
    RunStop {
        /// Follow-up messages that are dropped with the incarnation.
        dropped_continuations: usize,
    },
    /// The actor is over, with success or with the error of its last hook.
    Finish {
        /// Whether every hook succeeded.
        success: bool,
    },
}

/// What woke the wait of the receive loop.
pub enum LoopEvent<M> {
    /// Shutdown was requested.
    Shutdown,
    /// The timer elapsed.
    Timer {
        /// The timer.
        wake: TimerWake,
        /// Messages queued at that moment.
        queued: usize,
    },
    /// A delivery, or the end of deliveries.
    Message(Option<M>),
}

/// The receive loop of one incarnation.
///
/// Follow-up messages come before the mailbox. Messages that were queued when
/// a timer elapsed come before the timer, so that they can retract or replace
/// it. A stop request or shutdown ends the loop; accepted work is then drained
/// or discarded, and the stop hook runs last. An error of any hook ends the
/// actor at once.
pub struct ReceiveLoop {
    /// Where the loop stands.
    pub phase: LoopPhase,
}

/// Phase and step with which the loop ends: drain or discard.
pub open spec fn ending(drain: bool) -> (LoopPhase, bool) {
    if drain {
        (LoopPhase::Draining, true)
    } else {
        (LoopPhase::Discarding, false)
    }
}

/// `step` begins the end of the loop.
pub open spec fn begins_end<M>(step: LoopStep<M>, phase: LoopPhase, drain: bool) -> bool {
    phase == ending(drain).0 && if drain {
        step is Drain
    } else {
        step is Discard
    }
}

/// `step` handles `message` and counts it as received.
pub open spec fn handles<M>(
    step: LoopStep<M>,
    message: M,
    draining: bool,
    before: ActorStatsCounters,
    after: ActorStatsCounters,
) -> bool {
    step == (LoopStep::Handle { message, draining }) && after == before.with_received()
}

impl ReceiveLoop {
    /// Starts with the start hook.
    pub fn new() -> (receive: Self)
        ensures
            receive.phase == LoopPhase::Starting,
    {
        ReceiveLoop { phase: LoopPhase::Starting }
    }

    /// Ends the actor with the error of a hook.
    fn fail<M>(&mut self) -> (step: LoopStep<M>)
        ensures
            final(self).phase == LoopPhase::Done,
            step == (LoopStep::<M>::Finish { success: false }),
    {
        self.phase = LoopPhase::Done;
        LoopStep::Finish { success: false }
    }

    /// Leaves the loop.
    fn end<M>(&mut self, context: &RawContext<M>) -> (step: LoopStep<M>)
        ensures
            begins_end(step, final(self).phase, context.drain_messages),
    {
        if context.drain_messages {
            self.phase = LoopPhase::Draining;
            LoopStep::Drain
        } else {
            self.phase = LoopPhase::Discarding;
            LoopStep::Discard
        }
    }

    /// Hands `message` to the handler.
    fn handle<M>(
        &mut self,
        counters: &mut ActorStatsCounters,
        message: M,
        phase: LoopPhase,
        draining: bool,
    ) -> (step: LoopStep<M>)
        ensures
            final(self).phase == phase,
            handles(step, message, draining, *old(counters), *final(counters)),
    {
        counters.record_received();
        self.phase = phase;
        LoopStep::Handle { message, draining }
    }

    /// What the start hook's result comes to.
    pub open spec fn starts<M>(
        &self,
        context: RawContext<M>,
        success: bool,
        step: LoopStep<M>,
        after: Self,
        context_after: RawContext<M>,
    ) -> bool {
        &&& context_after.wf()
        &&& !success ==> {
            &&& step == (LoopStep::<M>::Finish { success: false })
            &&& after.phase == LoopPhase::Done
            &&& context_after == context
        }
        &&& success ==> {
            &&& context_after == (RawContext {
                ready: crate::host::ActorReadySignal { reported: true, ..context.ready },
                ..context
            })
            &&& if context.stop_requested {
                begins_end(step, after.phase, context.drain_messages)
            } else {
                step is Again && after.phase == LoopPhase::Receiving
            }
        }
    }

    /// The start hook has returned. Success reports readiness, even when the
    /// hook has requested a stop, which skips the loop.
    pub fn on_started<M>(&mut self, context: &mut RawContext<M>, success: bool) -> (step: LoopStep<
        M,
    >)
        requires
            old(self).phase == LoopPhase::Starting,
            old(context).wf(),
        ensures
            old(self).starts(*old(context), success, step, *final(self), *final(context)),
    {
        if !success {
            return self.fail();
        }
        let _first = context.mark_ready();
        if context.is_stop_requested() {
            self.end(context)
        } else {
            self.phase = LoopPhase::Receiving;
            LoopStep::Again
        }
    }

    /// What the loop does next.
    pub open spec fn advances<M>(
        &self,
        context: RawContext<M>,
        counters: ActorStatsCounters,
        shutdown: bool,
        now: u64,
        step: LoopStep<M>,
        after: Self,
        context_after: RawContext<M>,
        counters_after: ActorStatsCounters,
    ) -> bool {
        &&& context_after.wf()
        &&& context_after == (RawContext {
            continuations: context_after.continuations,
            timers: context_after.timers,
            ..context
        })
        &&& shutdown ==> {
            &&& begins_end(step, after.phase, context.drain_messages)
            &&& context_after == context
            &&& counters_after == counters
        }
        &&& !shutdown && context.continuations@.len() > 0 ==> {
            &&& handles(
                step,
                context.continuations@[0],
                false,
                counters,
                counters_after,
            )
            &&& context_after.continuations@ == context.continuations@.drop_first()
            &&& context_after.timers == context.timers
            &&& after.phase == match self.phase {
                LoopPhase::Elapsed { wake, queued } => LoopPhase::HandlingElapsed {
                    wake,
                    queued,
                },
                _ => LoopPhase::Handling,
            }
        }
        &&& !shutdown && context.continuations@.len() == 0 ==> {
            &&& context_after.continuations@.len() == 0
            &&& match self.phase {
                LoopPhase::Elapsed { wake, queued } => if queued > 0 {
                    &&& step is TryReceive
                    &&& after.phase == (LoopPhase::Elapsed {
                        wake,
                        queued: (queued - 1) as usize,
                    })
                    &&& context_after.timers == context.timers
                    &&& counters_after == counters
                } else {
                    fires(
                        context,
                        context_after,
                        counters,
                        counters_after,
                        wake,
                        now,
                        step,
                        after.phase,
                    )
                },
                _ => {
                    &&& step matches LoopStep::Await { timer }
                    &&& timer is None <==> context.timers.entries@.len() == 0
                    &&& timer matches Some(wake) ==> exists|i: int| #[trigger]
                        crate::timers::earliest_at(context.timers.entries@, i) && wake.id
                            == context.timers.entries@[i].id && wake.deadline == context.timers.entries@[i].deadline
                    &&& after.phase == LoopPhase::Receiving
                    &&& context_after.timers == context.timers
                    &&& counters_after == counters
                },
            }
        }
    }

    /// Looks at the loop between two messages.
    ///
    /// Shutdown comes before follow-up work, so that a follow-up queued by a
    /// handler does not run once shutdown was requested.
    pub fn advance<M>(
        &mut self,
        context: &mut RawContext<M>,
        counters: &mut ActorStatsCounters,
        shutdown: bool,
        now: u64,
    ) -> (step: LoopStep<M>)
        requires
            old(self).phase is Receiving || old(self).phase is Elapsed,
            old(context).wf(),
        ensures
            old(self).advances(
                *old(context),
                *old(counters),
                shutdown,
                now,
                step,
                *final(self),
                *final(context),
                *final(counters),
            ),
    {
        if shutdown {
            return self.end(context);
        }
        match context.take_continuation() {
            Some(message) => {
                let phase = match self.phase {
                    LoopPhase::Elapsed { wake, queued } => LoopPhase::HandlingElapsed {
                        wake,
                        queued,
                    },
                    _ => LoopPhase::Handling,
                };
                self.handle(counters, message, phase, false)
            },
            None => match self.phase {
                LoopPhase::Elapsed { wake, queued } => if queued > 0 {
                    self.phase = LoopPhase::Elapsed { wake, queued: queued - 1 };
                    LoopStep::TryReceive
                } else {
                    self.fire(context, counters, wake, now)
                },
                _ => {
                    let timer = context.next_timer_wake();
                    LoopStep::Await { timer }
                },
            },
        }
    }

    /// Delivers the elapsed timer, unless it was retracted or replaced.
    fn fire<M>(
        &mut self,
        context: &mut RawContext<M>,
        counters: &mut ActorStatsCounters,
        wake: TimerWake,
        now: u64,
    ) -> (step: LoopStep<M>)
        requires
            old(context).wf(),
        ensures
            final(context).wf(),
            *final(context) == (RawContext { timers: final(context).timers, ..*old(context) }),
            fires(
                *old(context),
                *final(context),
                *old(counters),
                *final(counters),
                wake,
                now,
                step,
                final(self).phase,
            ),
    {
        match context.take_fired_timer(wake, now) {
            Some(message) => self.handle(counters, message, LoopPhase::HandlingTimer, false),
            None => {
                self.phase = LoopPhase::Receiving;
                LoopStep::Again
            },
        }
    }

    /// What an awaited event comes to.
    pub open spec fn awakes<M>(
        &self,
        context: RawContext<M>,
        counters: ActorStatsCounters,
        event: LoopEvent<M>,
        step: LoopStep<M>,
        after: Self,
        counters_after: ActorStatsCounters,
    ) -> bool {
        match event {
            LoopEvent::Shutdown => {
                &&& begins_end(step, after.phase, context.drain_messages)
                &&& counters_after == counters
            },
            LoopEvent::Timer { wake, queued } => {
                &&& step is Again
                &&& after.phase == (LoopPhase::Elapsed { wake, queued })
                &&& counters_after == counters
            },
            LoopEvent::Message(Some(message)) => {
                &&& handles(step, message, false, counters, counters_after)
                &&& after.phase == LoopPhase::Handling
            },
            LoopEvent::Message(None) => {
                &&& begins_end(step, after.phase, context.drain_messages)
                &&& counters_after == counters
            },
        }
    }

    /// Takes what woke the wait.
    pub fn on_event<M>(
        &mut self,
        context: &RawContext<M>,
        counters: &mut ActorStatsCounters,
        event: LoopEvent<M>,
    ) -> (step: LoopStep<M>)
        requires
            old(self).phase == LoopPhase::Receiving,
        ensures
            old(self).awakes(
                *context,
                *old(counters),
                event,
                step,
                *final(self),
                *final(counters),
            ),
    {
        match event {
            LoopEvent::Shutdown => self.end(context),
            LoopEvent::Timer { wake, queued } => {
                self.phase = LoopPhase::Elapsed { wake, queued };
                LoopStep::Again
            },
            LoopEvent::Message(Some(message)) => {
                self.handle(counters, message, LoopPhase::Handling, false)
            },
            LoopEvent::Message(None) => self.end(context),
        }
    }

    /// What a read before a timer comes to.
    pub open spec fn receives<M>(
        &self,
        context: RawContext<M>,
        counters: ActorStatsCounters,
        message: Option<M>,
        now: u64,
        step: LoopStep<M>,
        after: Self,
        context_after: RawContext<M>,
        counters_after: ActorStatsCounters,
    ) -> bool {
        &&& context_after.wf()
        &&& context_after == (RawContext { timers: context_after.timers, ..context })
        &&& match message {
            Some(message) => {
                &&& handles(step, message, false, counters, counters_after)
                &&& after.phase == (LoopPhase::HandlingElapsed {
                    wake: self.phase->Elapsed_wake,
                    queued: self.phase->Elapsed_queued,
                })
                &&& context_after == context
            },
            None => fires(
                context,
                context_after,
                counters,
                counters_after,
                self.phase->Elapsed_wake,
                now,
                step,
                after.phase,
            ),
        }
    }

    /// Takes the result of a receive before an elapsed timer. An empty mailbox
    /// ends the prefix early.
    pub fn on_try_receive<M>(
        &mut self,
        context: &mut RawContext<M>,
        counters: &mut ActorStatsCounters,
        message: Option<M>,
        now: u64,
    ) -> (step: LoopStep<M>)
        requires
            old(self).phase is Elapsed,
            old(context).wf(),
        ensures
            old(self).receives(
                *old(context),
                *old(counters),
                message,
                now,
                step,
                *final(self),
                *final(context),
                *final(counters),
            ),
    {
        if let LoopPhase::Elapsed { wake, queued } = self.phase {
            match message {
                Some(message) => {
                    let phase = LoopPhase::HandlingElapsed { wake, queued };
                    self.handle(counters, message, phase, false)
                },
                None => self.fire(context, counters, wake, now),
            }
        } else {
            LoopStep::Again
        }
    }

    /// What the end of a handler comes to.
    pub open spec fn handled<M>(
        &self,
        context: RawContext<M>,
        success: bool,
        step: LoopStep<M>,
        after: Self,
    ) -> bool {
        &&& !success ==> step == (LoopStep::<M>::Finish { success: false }) && after.phase
            == LoopPhase::Done
        &&& success && self.phase is HandlingDrained ==> step is Drain && after.phase
            == LoopPhase::Draining
        &&& success && !(self.phase is HandlingDrained) && context.stop_requested
            ==> begins_end(step, after.phase, context.drain_messages)
        &&& success && !(self.phase is HandlingDrained) && !context.stop_requested ==> {
            &&& step is Again
            &&& after.phase == match self.phase {
                LoopPhase::HandlingElapsed { wake, queued } => LoopPhase::Elapsed {
                    wake,
                    queued,
                },
                _ => LoopPhase::Receiving,
            }
        }
    }

    /// A handler has returned. An error ends the actor; a requested stop ends
    /// the loop, also before an elapsed timer; a drained message is followed
    /// by the next one.
    pub fn on_handled<M>(&mut self, context: &RawContext<M>, success: bool) -> (step: LoopStep<M>)
        requires
            old(self).phase is Handling || old(self).phase is HandlingElapsed || old(
                self,
            ).phase is HandlingTimer || old(self).phase is HandlingDrained,
        ensures
            old(self).handled(*context, success, step, *final(self)),
    {
        if !success {
            return self.fail();
        }
        if let LoopPhase::HandlingDrained = self.phase {
            self.phase = LoopPhase::Draining;
            return LoopStep::Drain;
        }
        if context.is_stop_requested() {
            return self.end(context);
        }
        self.phase = match self.phase {
            LoopPhase::HandlingElapsed { wake, queued } => LoopPhase::Elapsed { wake, queued },
            _ => LoopPhase::Receiving,
        };
        LoopStep::Again
    }

    /// What a read while draining comes to.
    pub open spec fn drains<M>(
        &self,
        context: RawContext<M>,
        counters: ActorStatsCounters,
        message: Option<M>,
        step: LoopStep<M>,
        after: Self,
        counters_after: ActorStatsCounters,
    ) -> bool {
        match message {
            Some(message) => {
                &&& handles(step, message, true, counters, counters_after)
                &&& after.phase == LoopPhase::HandlingDrained
            },
            None => {
                &&& step == (LoopStep::<M>::RunStop {
                    dropped_continuations: context.continuations@.len() as usize,
                })
                &&& after.phase == LoopPhase::Stopping
                &&& counters_after == counters
            },
        }
    }

    /// Takes what the drain delivers; its end runs the stop hook. Follow-up
    /// messages are not taken any more and are dropped.
    pub fn on_drained<M>(
        &mut self,
        context: &RawContext<M>,
        counters: &mut ActorStatsCounters,
        message: Option<M>,
    ) -> (step: LoopStep<M>)
        requires
            old(self).phase == LoopPhase::Draining,
        ensures
            old(self).drains(
                *context,
                *old(counters),
                message,
                step,
                *final(self),
                *final(counters),
            ),
    {
        match message {
            Some(message) => self.handle(counters, message, LoopPhase::HandlingDrained, true),
            None => {
                self.phase = LoopPhase::Stopping;
                LoopStep::RunStop { dropped_continuations: context.continuations.len() }
            },
        }
    }

    /// What the end of discarding comes to.
    pub open spec fn discards<M>(
        &self,
        context: RawContext<M>,
        step: LoopStep<M>,
        after: Self,
    ) -> bool {
        &&& after.phase == LoopPhase::Stopping
        &&& step == (LoopStep::<M>::RunStop {
            dropped_continuations: context.continuations@.len() as usize,
        })
    }

    /// Queued work has been discarded: the stop hook runs next.
    pub fn on_discarded<M>(&mut self, context: &RawContext<M>) -> (step: LoopStep<M>)
        requires
            old(self).phase == LoopPhase::Discarding,
        ensures
            old(self).discards(*context, step, *final(self)),
    {
        self.phase = LoopPhase::Stopping;
        LoopStep::RunStop { dropped_continuations: context.continuations.len() }
    }

    /// What the end of the stop hook comes to.
    pub open spec fn stops<M>(
        &self,
        success: bool,
        step: LoopStep<M>,
        after: Self,
    ) -> bool {
        &&& after.phase == LoopPhase::Done
        &&& step == (LoopStep::<M>::Finish { success })
    }

    /// The stop hook has returned.
    pub fn on_stopped<M>(&mut self, success: bool) -> (step: LoopStep<M>)
        requires
            old(self).phase == LoopPhase::Stopping,
        ensures
            old(self).stops(success, step, *final(self)),
    {
        self.phase = LoopPhase::Done;
        LoopStep::Finish { success }
    }
}

/// An elapsed timer is delivered if it is still armed and due, and otherwise
/// the loop goes on.
pub open spec fn fires<M>(
    before: RawContext<M>,
    after: RawContext<M>,
    counted_before: ActorStatsCounters,
    counted_after: ActorStatsCounters,
    wake: TimerWake,
    now: u64,
    step: LoopStep<M>,
    phase: LoopPhase,
) -> bool {
    let entries = before.timers.entries@;
    if wake.deadline <= now && exists|i: int| #[trigger] crate::timers::wake_at(entries, wake, i) {
        exists|i: int|
            {
                &&& #[trigger] crate::timers::wake_at(entries, wake, i)
                &&& handles(step, entries[i].message, false, counted_before, counted_after)
                &&& after.timers.entries@ == crate::timers::without(entries, i)
                &&& phase == LoopPhase::HandlingTimer
            }
    } else {
        &&& step is Again
        &&& phase == LoopPhase::Receiving
        &&& after.timers.entries@ == entries
        &&& counted_after == counted_before
    }
}

} // verus!
