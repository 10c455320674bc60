//! Sending to an actor through its binding: immediate, awaited and bounded
//! sends, and calls.
use std::marker::PhantomData;
use vstd::prelude::*;

use crate::binding::{BindingCore, BindingState, BindingView};
use crate::callbacks::SizeHint;
use crate::channel::{MailboxIdentity, MailboxRef, TryReceipt, UsageReceipt};
use crate::error::{CallError, SendError, SendErrorKind};
use crate::mailbox::{MessageRejection, TimedSendOutcome, TrySendFailure};
use crate::stats::{ActorStats, ActorStatsCounters};

verus! {

/// Cloneable, restart-stable, typed sender for an actor mailbox.
///
/// It belongs to a long-lived binding rather than to one incarnation, and
/// follows the binding's current mailbox. The binding belongs to one
/// membership, so a stale reference never reaches a replacement that uses the
/// same id.
pub struct ActorRef<M> {
    /// Identity of the binding.
    pub identity: u64,
    /// Id of the target actor.
    pub actor_id: String,
    /// Id of the actor that holds the reference, if any.
    pub source_actor_id: Option<String>,
    /// The message type.
    pub message: PhantomData<M>,
}

impl<M> Clone for ActorRef<M> {
    fn clone(&self) -> (actor: Self)
        ensures
            actor == *self,
    {
        ActorRef {
            identity: self.identity,
            actor_id: self.actor_id.clone(),
            source_actor_id: match &self.source_actor_id {
                Some(id) => Some(id.clone()),
                None => None,
            },
            message: self.message,
        }
    }
}

/// `size` is what `size_hint` reports for `message`, where sizes are observed
/// at all.
pub open spec fn sized<M>(size_hint: Option<SizeHint<M>>, message: M, size: Option<usize>) -> bool {
    match (size_hint, size) {
        (Some(size_hint), Some(size)) => size_hint.measures(message, size),
        (None, None) => true,
        _ => false,
    }
}

/// Takes the size of `message` where sizes are observed.
pub fn observed_size<M>(size_hint: &Option<SizeHint<M>>, message: &M) -> (size: Option<usize>)
    ensures
        sized(*size_hint, *message, size),
{
    match size_hint {
        Some(size_hint) => Some(size_hint.measure(message)),
        None => None,
    }
}

/// How an immediate send begins.
#[verifier::reject_recursive_types(M)]
pub enum TrySendStart<M> {
    /// There is no mailbox to send to.
    Refused(SendError<M>),
    /// The message is for this mailbox.
    Ready(TryOffer<M>),
}

/// An immediate send to the mailbox that was bound when it began. It needs the
/// binding no more, so that user functions can run without holding it.
#[verifier::reject_recursive_types(M)]
pub struct TryOffer<M> {
    /// Mailbox to send to.
    pub mailbox: MailboxRef<M>,
    /// Message to send.
    pub message: M,
    /// What measures the message, where sizes are observed.
    pub size_hint: Option<SizeHint<M>>,
}

/// What an immediate send came to, before it is counted.
pub struct TryOutcome<M> {
    /// Size of the message, where sizes are observed.
    pub size: Option<usize>,
    /// Replaced messages, or the rejection.
    pub sent: Result<u64, TrySendFailure<M>>,
}

impl<M> TryOffer<M> {
    /// Measures the message and sends it, and gives the mailbox up.
    pub fn send(self) -> (tried: (TryOutcome<M>, TryReceipt<M>))
        ensures
            sized(self.size_hint, self.message, tried.0.size),
            self.mailbox.tries(self.message, tried.0.sent, tried.1),
    {
        let size = observed_size(&self.size_hint, &self.message);
        let (sent, receipt) = self.mailbox.try_send(self.message);
        self.mailbox.release();
        (TryOutcome { size, sent }, receipt)
    }
}

impl<M> TryOutcome<M> {
    /// The send is counted from `before` to `after` and has `result`.
    pub open spec fn settles(
        &self,
        result: Result<(), SendError<M>>,
        before: ActorStatsCounters,
        after: ActorStatsCounters,
    ) -> bool {
        match self.sent {
            Ok(conflated) => result == Ok::<(), SendError<M>>(()) && after == before.with_accepted(
                conflated,
                self.size,
            ),
            Err(failure) => result == Err::<(), SendError<M>>(failure.error) && after
                == before.with_send(false),
        }
    }

    /// Counts the send and returns its result.
    pub fn settle(self, counters: &mut ActorStatsCounters) -> (result: Result<(), SendError<M>>)
        ensures
            self.settles(result, *old(counters), *final(counters)),
    {
        match self.sent {
            Ok(conflated) => {
                counters.record_accepted(conflated, self.size);
                Ok(())
            },
            Err(failure) => {
                counters.record_send(false);
                Err(failure.error)
            },
        }
    }
}

impl<M> ActorRef<M> {
    /// Refers to the binding `core`.
    pub fn from_core(core: &BindingCore<M>, source_actor_id: Option<String>) -> (actor: Self)
        ensures
            actor.refers_to(core),
            actor.source_actor_id == source_actor_id,
    {
        ActorRef {
            identity: core.identity,
            actor_id: core.actor_id.clone(),
            source_actor_id,
            message: PhantomData,
        }
    }

    /// Whether `core` is the binding of this reference.
    pub open spec fn refers_to(&self, core: &BindingCore<M>) -> bool {
        self.identity == core.identity && self.actor_id == core.actor_id
    }

    /// Returns the target actor id.
    pub fn id(&self) -> (id: &String)
        ensures
            *id == self.actor_id,
    {
        &self.actor_id
    }

    /// Names the target for debugging.
    pub fn to_debug_string(&self) -> (text: String)
        ensures
            text@ == crate::error::opaque_text("ActorRef"@, "actor_id"@, self.actor_id@),
    {
        crate::error::opaque_string("ActorRef", "actor_id", &self.actor_id)
    }

    /// Samples the actor's message counters and current mailbox usage.
    pub fn stats(&self, core: &BindingCore<M>) -> (sampled: (ActorStats, Option<UsageReceipt<M>>))
        requires
            self.refers_to(core),
        ensures
            core.samples(sampled.0, sampled.1),
    {
        core.stats()
    }

    /// Returns the mailbox of the running incarnation, or `None` while none is
    /// bound.
    pub fn current_mailbox(&self, core: &BindingCore<M>) -> (mailbox: Option<MailboxRef<M>>)
        requires
            self.refers_to(core),
        ensures
            match mailbox {
                Some(mailbox) => core.current matches BindingState::Bound(own) && own.same_mailbox(
                    &mailbox,
                ),
                None => !(core.current@ is Bound),
            },
    {
        match &core.current {
            BindingState::Bound(mailbox) => Some(mailbox.share()),
            _ => None,
        }
    }

    /// Builds a rejection of `message`.
    fn rejected(&self, message: M, kind: SendErrorKind) -> (error: SendError<M>)
        ensures
            error.actor_id == self.actor_id,
            error.message == message,
            error.kind == kind,
    {
        SendError { actor_id: self.actor_id.clone(), message, kind }
    }

    /// Starts an awaited send.
    pub fn send(&self, message: M) -> (flow: SendFlow<M>)
        ensures
            flow.wf(),
            flow.actor_id == self.actor_id,
            flow.deadline == None::<u64>,
            flow.phase is Binding,
            flow.submitted@ == message,
            forall|now: u64| !#[trigger] flow.expired(now),
    {
        SendFlow::new(&self.actor_id, message, None)
    }

    /// Starts an awaited send that gives up `bound` nanoseconds after `now`.
    /// A zero bound always times out.
    pub fn send_timeout(&self, message: M, bound: u64, now: u64) -> (flow: SendFlow<M>)
        ensures
            flow.wf(),
            flow.actor_id == self.actor_id,
            flow.deadline == Some(crate::clock::deadline(now, bound)),
            flow.phase is Binding,
            flow.submitted@ == message,
            bound == 0 ==> flow.expired(now),
            forall|later: u64| #[trigger]
                flow.expired(later) <==> later >= crate::clock::deadline(now, bound),
    {
        SendFlow::new(&self.actor_id, message, Some(crate::clock::deadline_after(now, bound)))
    }

    /// How an immediate send of `message` begins.
    pub open spec fn begins_try(
        &self,
        core: BindingCore<M>,
        message: M,
        start: TrySendStart<M>,
        core_after: BindingCore<M>,
    ) -> bool {
        &&& core_after.wf()
        &&& core_after == (BindingCore { counters: core_after.counters, ..core })
        &&& start is Ready <==> core.current@ is Bound
        &&& start matches TrySendStart::Ready(offer) ==> {
            &&& core.current matches BindingState::Bound(own)
            &&& own.same_mailbox(&offer.mailbox)
            &&& offer.message == message
            &&& offer.size_hint == core.size_hint
            &&& core_after.counters == core.counters
        }
        &&& start matches TrySendStart::Refused(error) ==> {
            &&& error.actor_id == self.actor_id
            &&& error.message == message
            &&& error.kind == if core.current@ is Terminated || core.released {
                SendErrorKind::Terminated
            } else {
                SendErrorKind::NotRunning
            }
            &&& core_after.counters == core.counters.with_send(false)
        }
    }

    /// Begins an immediate send: without a bound mailbox it is refused and
    /// counted, as terminated once the binding is terminal or given up, and as
    /// not running otherwise.
    pub fn begin_try_send(&self, core: &mut BindingCore<M>, message: M) -> (start: TrySendStart<M>)
        requires
            old(core).wf(),
            self.refers_to(old(core)),
        ensures
            self.begins_try(*old(core), message, start, *final(core)),
    {
        let refusal = match &core.current {
            BindingState::Bound(mailbox) => {
                let size_hint = core.message_size();
                let mailbox = mailbox.share();
                return TrySendStart::Ready(TryOffer { mailbox, message, size_hint });
            },
            BindingState::Unbound => if core.released {
                SendErrorKind::Terminated
            } else {
                SendErrorKind::NotRunning
            },
            BindingState::Terminated => SendErrorKind::Terminated,
        };
        core.counters.record_send(false);
        TrySendStart::Refused(self.rejected(message, refusal))
    }

    /// What an immediate send of `message` comes to.
    pub open spec fn sends_now(
        &self,
        core: BindingCore<M>,
        message: M,
        result: Result<(), SendError<M>>,
        receipt: Option<TryReceipt<M>>,
        core_after: BindingCore<M>,
    ) -> bool {
        &&& core_after.wf()
        &&& core_after == (BindingCore { counters: core_after.counters, ..core })
        &&& match core.current {
            BindingState::Bound(mailbox) => exists|outcome: TryOutcome<M>|
                {
                    &&& receipt matches Some(receipt) && mailbox.tries(
                        message,
                        #[trigger] outcome.sent,
                        receipt,
                    )
                    &&& sized(core.size_hint, message, outcome.size)
                    &&& outcome.settles(result, core.counters, core_after.counters)
                },
            _ => {
                &&& receipt is None
                &&& result matches Err(error) && error.message == message && error.actor_id
                    == self.actor_id && error.kind == if core.current@ is Terminated
                    || core.released {
                    SendErrorKind::Terminated
                } else {
                    SendErrorKind::NotRunning
                }
                &&& core_after.counters == core.counters.with_send(false)
            },
        }
    }

    /// Attempts to send without waiting.
    ///
    /// Without a bound mailbox the send is refused: as terminated once the
    /// binding is terminal or given up, and as not running otherwise. A bound
    /// mailbox decides for itself. Every rejection returns the message, and
    /// each attempt is counted once.
    pub fn try_send(&self, core: &mut BindingCore<M>, message: M) -> (tried: (
        Result<(), SendError<M>>,
        Option<TryReceipt<M>>,
    ))
        requires
            old(core).wf(),
            self.refers_to(old(core)),
        ensures
            self.sends_now(*old(core), message, tried.0, tried.1, *final(core)),
    {
        match self.begin_try_send(core, message) {
            TrySendStart::Refused(error) => (Err(error), None),
            TrySendStart::Ready(offer) => {
                let (outcome, receipt) = offer.send();
                let ghost settled = outcome;
                let result = outcome.settle(&mut core.counters);
                assert(settled.settles(result, old(core).counters, core.counters));
                assert(core.current matches BindingState::Bound(mailbox) && mailbox.tries(
                    message,
                    settled.sent,
                    receipt,
                ));
                (result, Some(receipt))
            },
        }
    }
}

/// Mailbox-level reason of a send that was rejected with `kind`.
pub open spec fn rejection_of(kind: SendErrorKind) -> MessageRejection {
    match kind {
        SendErrorKind::NotRunning => MessageRejection::NotRunning,
        SendErrorKind::Full => MessageRejection::MailboxFull,
        SendErrorKind::Terminated => MessageRejection::ActorTerminated,
        SendErrorKind::TimedOut => MessageRejection::Timeout,
    }
}

/// Returns the mailbox-level reason of a send that was rejected with `kind`.
pub fn try_send_rejection(kind: SendErrorKind) -> (rejection: MessageRejection)
    ensures
        rejection == rejection_of(kind),
{
    match kind {
        SendErrorKind::NotRunning => MessageRejection::NotRunning,
        SendErrorKind::Full => MessageRejection::MailboxFull,
        SendErrorKind::Terminated => MessageRejection::ActorTerminated,
        SendErrorKind::TimedOut => MessageRejection::Timeout,
    }
}

/// Where an awaited send stands.
#[verifier::reject_recursive_types(M)]
pub enum SendPhase<M> {
    /// Waiting for a bound mailbox.
    Binding,
    /// Offered to a mailbox.
    Offered {
        /// Identity of the mailbox.
        identity: Ghost<MailboxIdentity<M>>,
        /// What measures the message, where sizes are observed.
        size_hint: Ghost<Option<SizeHint<M>>>,
    },
    /// Waiting for a mailbox other than this one, which has closed.
    Rebinding(MailboxRef<M>),
    /// Over.
    Done,
}

/// What an awaited send does next.
#[verifier::reject_recursive_types(M)]
pub enum SendStep<M> {
    /// Wait for a change of the binding, or for the deadline.
    Wait,
    /// Offer the message to this mailbox, and settle the outcome with it.
    Offer {
        /// Mailbox to offer to.
        mailbox: MailboxRef<M>,
        /// Message to offer.
        message: M,
        /// What measures the message, where sizes are observed.
        size_hint: Option<SizeHint<M>>,
    },
    /// Look at the binding again.
    Retry,
    /// The send is over.
    Finished(Result<(), SendError<M>>),
}

/// An awaited send, with or without a deadline.
///
/// It waits until the actor has a bound mailbox, offers the message to it, and
/// rides through restarts: a mailbox that closed is waited out until another
/// one is bound. It fails only once the binding is terminal or given up, or
/// the deadline is reached.
#[verifier::reject_recursive_types(M)]
pub struct SendFlow<M> {
    /// Target actor.
    pub actor_id: String,
    /// Deadline of a bounded send.
    pub deadline: Option<u64>,
    /// Where the send stands.
    pub phase: SendPhase<M>,
    /// The message while it is not offered.
    pub message: Option<M>,
    /// The message that the send was given.
    pub submitted: Ghost<M>,
}

impl<M> SendFlow<M> {
    /// The message is held whenever the send waits.
    pub open spec fn wf(&self) -> bool {
        match self.phase {
            SendPhase::Binding => self.message == Some(self.submitted@),
            SendPhase::Rebinding(_) => self.message == Some(self.submitted@),
            SendPhase::Offered { .. } => self.message is None,
            SendPhase::Done => true,
        }
    }

    /// The send waits for a mailbox to offer its message to.
    pub open spec fn waiting(&self) -> bool {
        self.phase is Binding || self.phase is Rebinding
    }

    /// Whether the deadline has been reached at `now`.
    pub open spec fn expired(&self, now: u64) -> bool {
        self.deadline matches Some(deadline) && now >= deadline
    }

    /// Starts a send to `actor_id`.
    fn new(actor_id: &String, message: M, deadline: Option<u64>) -> (flow: Self)
        ensures
            flow.wf(),
            flow.actor_id == *actor_id,
            flow.deadline == deadline,
            flow.phase is Binding,
            flow.submitted@ == message,
    {
        SendFlow {
            actor_id: actor_id.clone(),
            deadline,
            phase: SendPhase::Binding,
            submitted: Ghost(message),
            message: Some(message),
        }
    }

    /// Whether the send can offer its message to the binding state `current`.
    pub open spec fn can_offer(&self, current: BindingView<M>) -> bool {
        match (current, self.phase) {
            (BindingView::Bound(identity), SendPhase::Rebinding(stale)) => identity
                != stale.identity(),
            (BindingView::Bound(_), _) => true,
            _ => false,
        }
    }

    /// Moves on to `next` and gives up the mailbox that was waited out.
    fn advance(&mut self, next: SendPhase<M>)
        ensures
            *final(self) == (SendFlow { phase: next, ..*old(self) }),
    {
        let mut stale = next;
        core::mem::swap(&mut self.phase, &mut stale);
        if let SendPhase::Rebinding(mailbox) = stale {
            mailbox.release();
        }
    }

    /// The send `after` it was called off.
    pub open spec fn calls_off(&self, message: Option<M>, after: Self) -> bool {
        &&& after.wf()
        &&& after.phase is Done
        &&& after.actor_id == self.actor_id
        &&& after.deadline == self.deadline
        &&& after.submitted == self.submitted
        &&& after.message is None
        &&& message == self.message
    }

    /// Calls the send off. Returns the message while it is not offered.
    pub fn cancel(&mut self) -> (message: Option<M>)
        requires
            old(self).wf(),
        ensures
            old(self).calls_off(message, *final(self)),
    {
        self.advance(SendPhase::Done);
        self.message.take()
    }

    /// Ends the send with an error that returns the message.
    fn fail(&mut self, counters: &mut ActorStatsCounters, kind: SendErrorKind) -> (step: SendStep<
        M,
    >)
        requires
            old(self).wf(),
            old(self).waiting(),
        ensures
            final(self).wf(),
            final(self).phase is Done,
            final(self).actor_id == old(self).actor_id,
            final(self).deadline == old(self).deadline,
            final(self).submitted == old(self).submitted,
            *final(counters) == old(counters).with_send(false),
            step matches SendStep::Finished(Err(error)) && error.message == old(self).submitted@
                && error.kind == kind && error.actor_id == old(self).actor_id,
    {
        counters.record_send(false);
        match self.cancel() {
            Some(message) => SendStep::Finished(
                Err(SendError { actor_id: self.actor_id.clone(), message, kind }),
            ),
            None => SendStep::Wait,
        }
    }

    /// What a look at the binding at `now` comes to.
    pub open spec fn polls(
        &self,
        core: BindingCore<M>,
        now: u64,
        step: SendStep<M>,
        after: Self,
        core_after: BindingCore<M>,
    ) -> bool {
        &&& after.wf()
        &&& after.actor_id == self.actor_id
        &&& after.deadline == self.deadline
        &&& after.submitted == self.submitted
        &&& core_after == (BindingCore { counters: core_after.counters, ..core })
        &&& step is Offer <==> !self.expired(now) && self.can_offer(core.current@)
        &&& step matches SendStep::Offer { mailbox, message, size_hint } ==> {
            &&& message == self.submitted@
            &&& core.current matches BindingState::Bound(own)
            &&& own.same_mailbox(&mailbox)
            &&& size_hint == core.size_hint
            &&& after.phase == (SendPhase::Offered {
                identity: Ghost(mailbox.identity()),
                size_hint: Ghost(size_hint),
            })
            &&& core_after.counters == core.counters
        }
        &&& step is Finished <==> self.expired(now) || core.current@ is Terminated || (
        !self.can_offer(core.current@) && core.released)
        &&& step matches SendStep::Finished(result) ==> {
            &&& after.phase is Done
            &&& core_after.counters == core.counters.with_send(false)
            &&& result matches Err(error) && error.message == self.submitted@ && error.actor_id
                == self.actor_id && error.kind == if self.expired(now) {
                SendErrorKind::TimedOut
            } else {
                SendErrorKind::Terminated
            }
        }
        &&& step is Wait ==> after == *self && core_after.counters == core.counters
        &&& !(step is Retry)
    }

    /// Looks at the binding at `now`. A bounded send checks its deadline before
    /// anything else.
    pub fn poll(&mut self, core: &mut BindingCore<M>, now: u64) -> (step: SendStep<M>)
        requires
            old(self).wf(),
            old(self).waiting(),
        ensures
            old(self).polls(*old(core), now, step, *final(self), *final(core)),
    {
        if let Some(deadline) = self.deadline {
            if now >= deadline {
                return self.fail(&mut core.counters, SendErrorKind::TimedOut);
            }
        }
        let offerable = match &core.current {
            BindingState::Terminated => {
                return self.fail(&mut core.counters, SendErrorKind::Terminated);
            },
            BindingState::Unbound => false,
            BindingState::Bound(mailbox) => match &self.phase {
                SendPhase::Rebinding(stale) => !mailbox.same_channel(stale),
                _ => true,
            },
        };
        if !offerable {
            return if core.released {
                self.fail(&mut core.counters, SendErrorKind::Terminated)
            } else {
                SendStep::Wait
            };
        }
        match (&core.current, self.message.take()) {
            (BindingState::Bound(mailbox), Some(message)) => {
                let mailbox = mailbox.share();
                let size_hint = core.message_size();
                self.advance(
                    SendPhase::Offered {
                        identity: Ghost(mailbox.identity()),
                        size_hint: Ghost(size_hint),
                    },
                );
                SendStep::Offer { mailbox, message, size_hint }
            },
            _ => SendStep::Wait,
        }
    }

    /// What the outcome of an offer to `mailbox` of a message of `size` comes to.
    pub open spec fn settles(
        &self,
        counters: ActorStatsCounters,
        mailbox: MailboxRef<M>,
        size: Option<usize>,
        outcome: TimedSendOutcome<M>,
        step: SendStep<M>,
        after: Self,
        counters_after: ActorStatsCounters,
    ) -> bool {
        &&& after.wf()
        &&& after.actor_id == self.actor_id
        &&& after.deadline == self.deadline
        &&& after.submitted == self.submitted
        &&& match outcome {
            TimedSendOutcome::Accepted { conflated } => {
                &&& step == SendStep::<M>::Finished(Ok(()))
                &&& after.phase is Done
                &&& counters_after == counters.with_accepted(conflated, size)
            },
            TimedSendOutcome::Closed(_) => {
                &&& step is Retry
                &&& after.phase == SendPhase::Rebinding(mailbox)
                &&& counters_after == counters
            },
            TimedSendOutcome::Timeout(_) => {
                &&& step matches SendStep::Finished(Err(error)) && error.message
                    == self.submitted@ && error.actor_id == self.actor_id && error.kind
                    == SendErrorKind::TimedOut
                &&& after.phase is Done
                &&& counters_after == counters.with_send(false)
            },
        }
    }

    /// Settles the outcome of an offer to `mailbox` of a message of `size`: an
    /// accepted message is counted and ends the send, a closed mailbox is waited out, and a reached
    /// deadline ends the send with the message returned.
    pub fn settle(
        &mut self,
        counters: &mut ActorStatsCounters,
        mailbox: MailboxRef<M>,
        size: Option<usize>,
        outcome: TimedSendOutcome<M>,
    ) -> (step: SendStep<M>)
        requires
            old(self).wf(),
            old(self).phase matches SendPhase::Offered { identity, size_hint } && identity@
                == mailbox.identity() && sized(size_hint@, old(self).submitted@, size),
            outcome matches TimedSendOutcome::Closed(returned) ==> returned == old(self).submitted@,
            outcome matches TimedSendOutcome::Timeout(returned) ==> old(self).deadline is Some
                && returned == old(self).submitted@,
        ensures
            old(self).settles(
                *old(counters),
                mailbox,
                size,
                outcome,
                step,
                *final(self),
                *final(counters),
            ),
    {
        match outcome {
            TimedSendOutcome::Accepted { conflated } => {
                counters.record_accepted(conflated, size);
                self.phase = SendPhase::Done;
                mailbox.release();
                SendStep::Finished(Ok(()))
            },
            TimedSendOutcome::Closed(message) => {
                self.message = Some(message);
                self.phase = SendPhase::Rebinding(mailbox);
                SendStep::Retry
            },
            TimedSendOutcome::Timeout(message) => {
                counters.record_send(false);
                self.phase = SendPhase::Done;
                mailbox.release();
                SendStep::Finished(
                    Err(
                        SendError {
                            actor_id: self.actor_id.clone(),
                            message,
                            kind: SendErrorKind::TimedOut,
                        },
                    ),
                )
            },
        }
    }
}

/// Outcome of a send that can be called off.
pub enum GatedSendOutcome<M> {
    /// The mailbox took the message.
    Accepted {
        /// Unread messages it replaced.
        conflated: u64,
    },
    /// The mailbox no longer takes messages.
    Closed(M),
    /// The send was called off first.
    Cancelled(M),
}

/// The counters after a send to one captured incarnation.
pub open spec fn gated_counts<M>(
    counters: ActorStatsCounters,
    outcome: GatedSendOutcome<M>,
    size: Option<usize>,
) -> ActorStatsCounters {
    match outcome {
        GatedSendOutcome::Accepted { conflated } => counters.with_accepted(conflated, size),
        GatedSendOutcome::Closed(_) => counters.with_send(false),
        GatedSendOutcome::Cancelled(_) => counters,
    }
}

/// Counts a send to one captured incarnation, which does not follow a rebind.
/// A send that was called off counts as none.
pub fn settle_gated<M>(
    counters: &mut ActorStatsCounters,
    outcome: &GatedSendOutcome<M>,
    size: Option<usize>,
)
    ensures
        *final(counters) == gated_counts(*old(counters), *outcome, size),
{
    match outcome {
        GatedSendOutcome::Accepted { conflated } => counters.record_accepted(*conflated, size),
        GatedSendOutcome::Closed(_) => counters.record_send(false),
        GatedSendOutcome::Cancelled(_) => {},
    }
}

/// What ended a call.
pub enum CallEvent<T> {
    /// The request was not accepted because the actor terminated.
    Refused,
    /// The actor answered.
    Replied(T),
    /// The actor dropped the reply.
    ReplyDropped,
    /// The timeout expired.
    Elapsed,
}

/// What a call comes to.
pub open spec fn call_result<T>(actor_id: String, accepted: bool, event: CallEvent<T>) -> Result<
    T,
    CallError,
> {
    match event {
        CallEvent::Replied(value) => Ok(value),
        CallEvent::Refused => Err(CallError::Terminated { actor_id }),
        CallEvent::ReplyDropped => Err(CallError::ReplyDropped { actor_id }),
        CallEvent::Elapsed => Err(
            if accepted {
                CallError::ResponseTimedOut { actor_id }
            } else {
                CallError::AcceptanceTimedOut { actor_id }
            },
        ),
    }
}

/// Decides a call. The timeout covers the whole operation; whether the request
/// had been accepted tells an unknown outcome from one that cannot have
/// happened.
pub fn settle_call<T>(actor_id: &String, accepted: bool, event: CallEvent<T>) -> (result: Result<
    T,
    CallError,
>)
    ensures
        result == call_result(*actor_id, accepted, event),
{
    match event {
        CallEvent::Replied(value) => Ok(value),
        CallEvent::Refused => Err(CallError::Terminated { actor_id: actor_id.clone() }),
        CallEvent::ReplyDropped => Err(CallError::ReplyDropped { actor_id: actor_id.clone() }),
        CallEvent::Elapsed => if accepted {
            Err(CallError::ResponseTimedOut { actor_id: actor_id.clone() })
        } else {
            Err(CallError::AcceptanceTimedOut { actor_id: actor_id.clone() })
        },
    }
}

/// The binding is terminal or given up.
pub open spec fn binding_over<M>(core: BindingCore<M>) -> bool {
    core.current@ is Terminated || core.released
}

/// Reports whether the binding is terminal or given up, so that waiting for it
/// is over.
pub fn is_over<M>(core: &BindingCore<M>) -> (over: bool)
    ensures
        over == binding_over(*core),
{
    matches!(core.current, BindingState::Terminated) || core.released
}

} // verus!
